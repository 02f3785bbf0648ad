use lemonhead::ctx::{AudioCommand, Ctx, FrameInput, Key, KeyEvent, Music};
use lemonhead::game::{
    advance_ending, choose_prompt_text, menu_choice, travel, walk, Game, GameResult, MenuResult, Player,
};
use lemonhead::logic::Unit;
use lemonhead::scenes::living_room::{bubble_frame, dad_position};
use lemonhead::scenes::Scenes;
use lemonhead::sprite::{ActorState, Bubble, Text};
use lemonhead::state::{EndingChosen, State};

fn frame(ctx: &mut Ctx, elapsed_ms: u64, events: Vec<KeyEvent>) {
    ctx.setup(FrameInput { window: (1000, 1000), elapsed_ms, events, item_bob: Unit(0), prompt_bob: Unit(0) });
}

#[test]
fn new_game_starts_in_tutorial_with_music() {
    let mut ctx = Ctx::new((1000, 1000));
    let game = Game::new(&mut ctx);
    assert_eq!(game.scene, Scenes::Tutorial);
    assert_eq!(game.player, Player { x: Unit(1000), y: Unit(5000), state: ActorState::Idle });
    let out = ctx.finish();
    assert_eq!(out.audio, vec![AudioCommand::RepeatMusic(true), AudioCommand::PlayMusic(Music::Outside)]);
}

#[test]
fn quit_key_ends_the_game() {
    let mut ctx = Ctx::new((1000, 1000));
    let mut game = Game::new(&mut ctx);
    frame(&mut ctx, 16, vec![KeyEvent::Down(Key::Quit)]);
    assert_eq!(game.step(&mut ctx), Some(GameResult::Quit));
}

#[test]
fn walking_right_moves_by_speed_times_time() {
    let mut ctx = Ctx::new((1000, 1000));
    let mut game = Game::new(&mut ctx);
    frame(&mut ctx, 800, vec![KeyEvent::Down(Key::Right)]);
    assert_eq!(game.step(&mut ctx), None);
    assert_eq!(game.player.x, Unit(2000));
    assert_eq!(game.player.state, ActorState::Right);
    assert_eq!(game.last_elapsed_ms, 800);
}

#[test]
fn interact_in_step_applies_the_transition() {
    let mut ctx = Ctx::new((1000, 1000));
    let mut game = Game::new(&mut ctx);
    game.state.tutorial.coin = true;
    game.player.x = Unit(8000);
    frame(&mut ctx, 0, vec![KeyEvent::Down(Key::Interact)]);
    assert_eq!(game.step(&mut ctx), None);
    assert_eq!(game.scene, Scenes::Outside);
    assert_eq!(game.player.x, Unit(1000));
    assert!(game.state.scene_changed.is_none());
}

#[test]
fn dad_catches_a_slow_player() {
    let mut ctx = Ctx::new((1000, 1000));
    let mut game = Game::new(&mut ctx);
    game.scene = Scenes::LivingRoom;
    game.state.living_room.coins = [true, true];
    game.player.x = Unit(5000);
    frame(&mut ctx, 4000, vec![]);
    assert_eq!(game.step(&mut ctx), None);
    assert_eq!(game.state.living_room.dad_attack_millis, 4000);
    frame(&mut ctx, 4400, vec![]);
    assert_eq!(game.step(&mut ctx), Some(GameResult::Dead));
}

#[test]
fn escape_ride_ends_well() {
    let mut ctx = Ctx::new((1000, 1000));
    let mut game = Game::new(&mut ctx);
    game.scene = Scenes::Outside;
    game.state.ending_chosen = Some(EndingChosen::Escaped);
    game.player.x = Unit(0);
    frame(&mut ctx, 1000, vec![KeyEvent::Down(Key::Right)]);
    assert_eq!(game.step(&mut ctx), None);
    assert_eq!(game.player.x, Unit(-500));
    frame(&mut ctx, 3000, vec![]);
    assert_eq!(game.step(&mut ctx), Some(GameResult::GoodEnding));
}

#[test]
fn movement_helpers() {
    assert_eq!(travel(800, 1250), Unit(1000));
    assert_eq!(travel(u64::MAX, 1250), Unit(1_250_000));
    let p = Player { x: Unit(100), y: Unit(5000), state: ActorState::Idle };
    assert_eq!(walk(p, true, false, true, 400).x, Unit(-400));
    assert_eq!(walk(p, true, true, true, 400), Player { x: Unit(100), y: Unit(5000), state: ActorState::Right });
    assert_eq!(walk(p, true, false, false, 400), p);
    let (risen, gone) = advance_ending(p, Some(EndingChosen::Ascended), 4000);
    assert_eq!(risen.y, Unit(4000));
    assert!(!gone);
    assert_eq!(advance_ending(p, None, 4000), (p, false));
}

#[test]
fn chase_helpers() {
    assert_eq!(dad_position(0, 14000), Unit(14000));
    assert_eq!(dad_position(1500, 14000), Unit(11000));
    assert_eq!(dad_position(u64::MAX, 14000), Unit(14000 - 2_000_000_000));
    assert_eq!(bubble_frame(0), Some(Bubble::L0));
    assert_eq!(bubble_frame(400), Some(Bubble::L3));
    assert_eq!(bubble_frame(999), Some(Bubble::L7));
    assert_eq!(bubble_frame(1000), None);
}

#[test]
fn prompt_text_follows_the_story() {
    let mut state = State::new();
    assert_eq!(choose_prompt_text(&state), Text::Space);
    state.living_room.has_escaped_dad = true;
    assert_eq!(choose_prompt_text(&state), Text::SelfDefense);
    state.kitchen.weapon_collected = true;
    assert_eq!(choose_prompt_text(&state), Text::NoWitnesses);
    state.murder_living_room.dad_dead = true;
    assert_eq!(choose_prompt_text(&state), Text::OneLeft);
    state.child_room.child_stabs = 1;
    assert_eq!(choose_prompt_text(&state), Text::More);
    state.child_room.child_stabs = 3;
    assert_eq!(choose_prompt_text(&state), Text::Ascend);
}

#[test]
fn menu_decision() {
    let mut ctx = Ctx::new((100, 100));
    assert_eq!(menu_choice(&ctx), None);
    frame(&mut ctx, 0, vec![KeyEvent::Down(Key::Interact)]);
    assert_eq!(menu_choice(&ctx), Some(MenuResult::Start));
    frame(&mut ctx, 0, vec![KeyEvent::Down(Key::Interact), KeyEvent::Down(Key::Quit)]);
    assert_eq!(menu_choice(&ctx), Some(MenuResult::Quit));
}

#[test]
fn prompt_is_centred_near_the_bottom() {
    let mut ctx = Ctx::new((1000, 1000));
    let state = State::new();
    lemonhead::game::draw_interact_prompt(&mut ctx, &state);
    let out = ctx.finish();
    assert_eq!(out.items.len(), 1 + 4);
    match out.items[0] {
        lemonhead::ctx::QueueItem::Sprite { sprite, position, size } => {
            assert_eq!(sprite.path, "assets/prompt.png");
            assert_eq!(sprite.offset, (0, 32));
            assert_eq!(position, (400_000, 900_000));
            assert_eq!(size, (200_000, 100_000));
        }
        _ => panic!("expected the prompt sprite"),
    }
}
