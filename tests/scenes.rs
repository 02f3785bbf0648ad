use lemonhead::ctx::{AudioCommand, Ctx, Effect, Music};
use lemonhead::game::Game;
use lemonhead::logic::Unit;
use lemonhead::resolver::InteractableId;
use lemonhead::scenes::Scenes;
use lemonhead::state::{EndingChosen, State};

fn quiet_ctx() -> Ctx {
    let mut ctx = Ctx::new((1000, 1000));
    ctx.finish();
    ctx
}

fn audio(ctx: &mut Ctx) -> Vec<AudioCommand> {
    ctx.finish().audio
}

#[test]
fn coin_pickup_then_nothing_more() {
    let mut ctx = quiet_ctx();
    let mut state = State::new();
    assert_eq!(state.living_room.coins, [false, false]);
    Scenes::LivingRoom.interact(&mut ctx, &mut state, Unit::new(3));
    assert_eq!(state.living_room.coins, [true, false]);
    assert_eq!(audio(&mut ctx), vec![AudioCommand::PlayEffect(Effect::Interact)]);
    Scenes::LivingRoom.interact(&mut ctx, &mut state, Unit::new(3));
    assert_eq!(state.living_room.coins, [true, false]);
    assert!(state.scene_changed.is_none());
    assert!(audio(&mut ctx).is_empty());
}

#[test]
fn room_transition_moves_player_and_clears_request() {
    let mut ctx = quiet_ctx();
    let mut game = Game::new(&mut ctx);
    game.state.scene_changed = Some((Unit(1000), Scenes::Outside));
    game.player.x = Unit(8000);
    game.apply_scene_change();
    assert_eq!(game.scene, Scenes::Outside);
    assert_eq!(game.player.x, Unit(1000));
    assert!(game.state.scene_changed.is_none());
    game.apply_scene_change();
    assert_eq!(game.scene, Scenes::Outside);
    assert_eq!(game.player.x, Unit(1000));
}

#[test]
fn out_of_range_changes_nothing() {
    let mut ctx = quiet_ctx();
    let mut state = State::new();
    state.tutorial.coin = true;
    // In the tutorial the bike stands at unit 8; from unit 0 it is out of reach.
    assert_eq!(Scenes::Tutorial.closest_item_within_distance(&state, Unit(0)), None);
    Scenes::Tutorial.interact(&mut ctx, &mut state, Unit(0));
    assert!(state.tutorial.coin);
    assert!(state.scene_changed.is_none());
    assert!(audio(&mut ctx).is_empty());
}

#[test]
fn tutorial_coin_then_bike() {
    let mut ctx = quiet_ctx();
    let mut state = State::new();
    Scenes::Tutorial.interact(&mut ctx, &mut state, Unit(4200));
    assert!(state.tutorial.coin);
    Scenes::Tutorial.interact(&mut ctx, &mut state, Unit(8000));
    assert_eq!(state.scene_changed, Some((Unit(1000), Scenes::Outside)));
    assert_eq!(audio(&mut ctx).len(), 2);
}

#[test]
fn prompt_matches_resolver() {
    let state = State::new();
    for x in (0..10000).step_by(125) {
        let pos = Unit(x);
        for scene in [
            Scenes::Tutorial,
            Scenes::Entryway,
            Scenes::LivingRoom,
            Scenes::MurderLivingRoom,
            Scenes::Outside,
            Scenes::Kitchen,
            Scenes::ChildRoom,
        ] {
            assert_eq!(
                scene.should_draw_interact_popup(&state, pos),
                scene.closest_item_within_distance(&state, pos).is_some()
            );
        }
    }
    assert!(Scenes::Tutorial.should_draw_interact_popup(&state, Unit(4000)));
    assert!(!Scenes::Tutorial.should_draw_interact_popup(&state, Unit(4500)));
}

#[test]
fn outside_key_door_and_music() {
    let mut ctx = quiet_ctx();
    let mut state = State::new();
    Scenes::Outside.interact(&mut ctx, &mut state, Unit(3000));
    assert!(state.outside.key_collected);
    Scenes::Outside.interact(&mut ctx, &mut state, Unit(7000));
    assert_eq!(state.scene_changed, Some((Unit(1000), Scenes::Entryway)));
    assert_eq!(
        audio(&mut ctx),
        vec![
            AudioCommand::PlayEffect(Effect::Interact),
            AudioCommand::PlayEffect(Effect::Interact),
            AudioCommand::PlayMusic(Music::Lemonhead),
        ]
    );
}

#[test]
fn outside_endings() {
    let mut ctx = quiet_ctx();
    let mut state = State::new();
    state.outside.key_collected = true;
    state.living_room.has_escaped_dad = true;
    assert_eq!(Scenes::Outside.closest_item_within_distance(&state, Unit(1000)), Some(InteractableId(0)));
    Scenes::Outside.interact(&mut ctx, &mut state, Unit(1000));
    assert_eq!(state.ending_chosen, Some(EndingChosen::Escaped));

    let mut state = State::new();
    state.child_room.child_stabs = 3;
    Scenes::Outside.interact(&mut ctx, &mut state, Unit(3000));
    // The key lies at unit 3 too and comes first in the list.
    assert!(state.outside.key_collected);
    Scenes::Outside.interact(&mut ctx, &mut state, Unit(3000));
    assert_eq!(state.ending_chosen, Some(EndingChosen::Ascended));
    assert_eq!(ctx.playing_music(), Some(Music::Ascend));
}

#[test]
fn entryway_coins_open_kitchen() {
    let mut ctx = quiet_ctx();
    let mut state = State::new();
    assert_eq!(Scenes::Entryway.closest_item_within_distance(&state, Unit(8000)), None);
    for x in [3000, 4000, 5000, 6000] {
        Scenes::Entryway.interact(&mut ctx, &mut state, Unit(x));
    }
    assert_eq!(state.entryway.coins, [true, true, true, true]);
    assert!(state.entryway.all_coins_collected());
    Scenes::Entryway.interact(&mut ctx, &mut state, Unit(8000));
    assert_eq!(state.scene_changed, Some((Unit(1000), Scenes::Kitchen)));
}

#[test]
fn entryway_exit_is_blocked_while_child_lives() {
    let mut ctx = quiet_ctx();
    let mut state = State::new();
    state.murder_living_room.dad_dead = true;
    Scenes::Entryway.interact(&mut ctx, &mut state, Unit(1000));
    assert!(state.scene_changed.is_none());
    assert_eq!(audio(&mut ctx), vec![AudioCommand::PlayEffect(Effect::Interact)]);
    state.child_room.child_stabs = 3;
    Scenes::Entryway.interact(&mut ctx, &mut state, Unit(1000));
    assert_eq!(state.scene_changed, Some((Unit(7000), Scenes::Outside)));
    assert_eq!(audio(&mut ctx), vec![AudioCommand::PlayEffect(Effect::Interact)]);
}

#[test]
fn entryway_child_door() {
    let mut ctx = quiet_ctx();
    let mut state = State::new();
    state.murder_living_room.dad_dead = true;
    state.entryway.coins = [true, true, true, true];
    Scenes::Entryway.interact(&mut ctx, &mut state, Unit(4000));
    assert_eq!(state.scene_changed, Some((Unit(1000), Scenes::ChildRoom)));
    assert_eq!(ctx.playing_music(), Some(Music::HeartbeatChildWithLemon));
}

#[test]
fn kitchen_weapon_and_doors() {
    let mut ctx = quiet_ctx();
    let mut state = State::new();
    state.kitchen.coins = [true, true, true];
    Scenes::Kitchen.interact(&mut ctx, &mut state, Unit(8000));
    assert_eq!(state.scene_changed, Some((Unit(1000), Scenes::LivingRoom)));

    let mut state = State::new();
    state.kitchen.coins = [true, true, true];
    state.living_room.has_escaped_dad = true;
    Scenes::Kitchen.interact(&mut ctx, &mut state, Unit(1000));
    assert!(state.scene_changed.is_none());
    Scenes::Kitchen.interact(&mut ctx, &mut state, Unit(8000));
    assert!(state.scene_changed.is_none());
    Scenes::Kitchen.interact(&mut ctx, &mut state, Unit(6000));
    assert!(state.kitchen.weapon_collected);
    assert_eq!(ctx.playing_music(), Some(Music::Heartbeat));
    Scenes::Kitchen.interact(&mut ctx, &mut state, Unit(8000));
    assert!(state.murder_living_room.murderous_intent);
    assert_eq!(state.scene_changed, Some((Unit(1000), Scenes::MurderLivingRoom)));
}

#[test]
fn living_room_second_coin_starts_the_run() {
    let mut ctx = quiet_ctx();
    let mut state = State::new();
    Scenes::LivingRoom.interact(&mut ctx, &mut state, Unit(8000));
    assert_eq!(state.living_room.coins, [false, true]);
    assert_eq!(ctx.playing_music(), None);
    Scenes::LivingRoom.interact(&mut ctx, &mut state, Unit(3000));
    assert_eq!(state.living_room.coins, [true, true]);
    assert_eq!(ctx.playing_music(), Some(Music::Run));
    Scenes::LivingRoom.interact(&mut ctx, &mut state, Unit(1000));
    assert!(state.living_room.has_escaped_dad);
    assert_eq!(state.scene_changed, Some((Unit(8000), Scenes::Kitchen)));
}

#[test]
fn murder_living_room_stab() {
    let mut ctx = quiet_ctx();
    let mut state = State::new();
    assert_eq!(Scenes::MurderLivingRoom.closest_item_within_distance(&state, Unit(1000)), None);
    Scenes::MurderLivingRoom.interact(&mut ctx, &mut state, Unit(5000));
    assert!(state.murder_living_room.dad_dead);
    Scenes::MurderLivingRoom.interact(&mut ctx, &mut state, Unit(5000));
    assert_eq!(
        audio(&mut ctx),
        vec![
            AudioCommand::PlayEffect(Effect::Stab),
            AudioCommand::PlayMusic(Music::HeartbeatChild),
            AudioCommand::PlayEffect(Effect::Stab),
        ]
    );
    Scenes::MurderLivingRoom.interact(&mut ctx, &mut state, Unit(1000));
    assert_eq!(state.scene_changed, Some((Unit(8000), Scenes::Kitchen)));
}

#[test]
fn child_room_three_stabs() {
    let mut ctx = quiet_ctx();
    let mut state = State::new();
    for _ in 0..4 {
        Scenes::ChildRoom.interact(&mut ctx, &mut state, Unit(5000));
    }
    assert_eq!(state.child_room.child_stabs, 3);
    assert!(state.child_room.child_dead());
    assert_eq!(
        audio(&mut ctx),
        vec![
            AudioCommand::PlayEffect(Effect::Stab),
            AudioCommand::PlayMusic(Music::HeartbeatChild),
            AudioCommand::PlayEffect(Effect::Stab),
            AudioCommand::PlayMusic(Music::Heartbeat),
            AudioCommand::PlayEffect(Effect::Stab),
            AudioCommand::StopMusic,
        ]
    );
    Scenes::ChildRoom.interact(&mut ctx, &mut state, Unit(1000));
    assert_eq!(state.scene_changed, Some((Unit(4000), Scenes::Entryway)));
}

#[test]
fn new_state_has_nothing_collected() {
    let state = State::new();
    assert!(!state.tutorial.coin);
    assert_eq!(state.entryway.coins, [false; 4]);
    assert_eq!(state.kitchen.coins, [false; 3]);
    assert!(!state.kitchen.all_coins_collected());
    assert!(!state.living_room.all_coins_collected());
    assert!(!state.child_room.child_dead());
    assert_eq!(state.living_room.dad_attack_millis, 0);
    assert!(state.ending_chosen.is_none());
    let none: [bool; 5] = lemonhead::state::no_coins_collected();
    assert_eq!(none, [false; 5]);
}

#[test]
fn rooms_draw_only_appends() {
    let mut ctx = quiet_ctx();
    let mut state = State::new();
    for scene in [
        Scenes::Tutorial,
        Scenes::Entryway,
        Scenes::LivingRoom,
        Scenes::MurderLivingRoom,
        Scenes::Outside,
        Scenes::Kitchen,
        Scenes::ChildRoom,
    ] {
        scene.draw(&mut ctx, &state);
        let frame = ctx.finish();
        assert!(frame.items.len() > 4);
        assert!(frame.audio.is_empty());
    }
    state.living_room.coins = [true, true];
    state.child_room.child_stabs = 2;
    state.murder_living_room.dad_dead = true;
    Scenes::LivingRoom.draw(&mut ctx, &state);
    Scenes::Outside.draw(&mut ctx, &state);
    Scenes::ChildRoom.draw(&mut ctx, &state);
    assert!(ctx.finish().items.len() > 4);
}

#[test]
fn child_room_draws_child_then_one_decal_per_stab() {
    let mut ctx = quiet_ctx();
    let mut state = State::new();
    state.child_room.child_stabs = 2;
    Scenes::ChildRoom.draw(&mut ctx, &state);
    let items = ctx.finish().items;
    // 60 wallpaper tiles, 5 furniture tiles, 2 ground strips, the child, 2 decals, 4 border rectangles.
    assert_eq!(items.len(), 60 + 5 + 2 + 1 + 2 + 4);
    let sprite_at = |i: usize| match items[i] {
        lemonhead::ctx::QueueItem::Sprite { sprite, .. } => (sprite.path, sprite.offset),
        _ => panic!("expected a sprite"),
    };
    assert_eq!(sprite_at(67), ("assets/child.png", (192, 0)));
    assert_eq!(sprite_at(68), ("assets/blood.png", (0, 0)));
    assert_eq!(sprite_at(69), ("assets/blood.png", (0, 32)));
}
