use lemonhead::audio::{audio_step, configuration, Configuration, SinkAction};
use lemonhead::ctx::{AudioCommand, Ctx, Effect, FrameInput, Key, KeyEvent, Music, QueueItem, Rgb};
use lemonhead::logic::Unit;
use lemonhead::sprite::Tile;

fn input(events: Vec<KeyEvent>) -> FrameInput {
    FrameInput { window: (1000, 1000), elapsed_ms: 0, events, item_bob: Unit(0), prompt_bob: Unit(0) }
}

#[test]
fn new_context_asks_music_to_loop() {
    let mut ctx = Ctx::new((800, 600));
    let frame = ctx.finish();
    assert_eq!(frame.audio, vec![AudioCommand::RepeatMusic(true)]);
    assert_eq!(ctx.playing_music(), None);
    assert_eq!(ctx.window_size(), (800, 600));
}

#[test]
fn set_music_twice_plays_once() {
    let mut ctx = Ctx::new((800, 600));
    ctx.finish();
    ctx.set_music(Music::Outside);
    ctx.set_music(Music::Outside);
    let frame = ctx.finish();
    assert_eq!(frame.audio, vec![AudioCommand::PlayMusic(Music::Outside)]);
    assert_eq!(ctx.playing_music(), Some(Music::Outside));
}

#[test]
fn changing_or_stopping_music_sends_commands() {
    let mut ctx = Ctx::new((800, 600));
    ctx.finish();
    ctx.set_music(Music::Run);
    ctx.set_music(Music::Heartbeat);
    ctx.stop_music();
    ctx.set_music(Music::Heartbeat);
    ctx.play_effect(Effect::Stab);
    let frame = ctx.finish();
    assert_eq!(
        frame.audio,
        vec![
            AudioCommand::PlayMusic(Music::Run),
            AudioCommand::PlayMusic(Music::Heartbeat),
            AudioCommand::StopMusic,
            AudioCommand::PlayMusic(Music::Heartbeat),
            AudioCommand::PlayEffect(Effect::Stab),
        ]
    );
}

#[test]
fn queue_keeps_paint_order() {
    let mut ctx = Ctx::new((1000, 1000));
    ctx.enqueue_background_fill(Rgb(1, 2, 3));
    ctx.enqueue_sprite((Unit(2000), Unit(3000)), (Unit(1000), Unit(1000)), &Tile::Coin);
    ctx.enqueue_screen_rect(Rgb(9, 9, 9), (5, 6), (7, 8));
    let frame = ctx.finish();
    assert_eq!(frame.items.len(), 3 + 4);
    assert!(matches!(frame.items[0], QueueItem::FillBackground(Rgb(1, 2, 3))));
    match frame.items[1] {
        QueueItem::Sprite { sprite, position, size } => {
            assert_eq!(sprite.path, "assets/tile.png");
            assert_eq!(sprite.offset, (160, 64));
            assert_eq!(position, (200_000, 300_000));
            assert_eq!(size, (100_000, 100_000));
        }
        _ => panic!("expected a sprite"),
    }
    assert!(matches!(
        frame.items[2],
        QueueItem::DrawRect { color: Rgb(9, 9, 9), position: (5, 6), size: (7, 8) }
    ));
    let again = ctx.finish();
    assert_eq!(again.items.len(), 4);
    assert!(again.audio.is_empty());
}

#[test]
fn border_masks_outside_the_room() {
    let mut ctx = Ctx::new((1920, 1080));
    let frame = ctx.finish();
    let rects: Vec<((i64, i64), (i64, i64))> = frame
        .items
        .iter()
        .map(|item| match *item {
            QueueItem::DrawRect { color, position, size } => {
                assert_eq!(color, Rgb(50, 50, 50));
                (position, size)
            }
            _ => panic!("expected a rectangle"),
        })
        .collect();
    assert_eq!(
        rects,
        vec![
            ((0, 0), (420_000, 1_080_000)),
            ((0, 0), (1_920_000, 0)),
            ((0, 1_080_000), (1_920_000, 0)),
            ((1_500_000, 0), (420_000, 1_080_000)),
        ]
    );
}

#[test]
fn key_events_update_the_snapshot() {
    let mut ctx = Ctx::new((100, 100));
    ctx.setup(input(vec![KeyEvent::Down(Key::Left), KeyEvent::Down(Key::Interact)]));
    assert!(ctx.key_down(Key::Left));
    assert!(ctx.key_down(Key::Interact));
    assert!(!ctx.key_down(Key::Right));
    ctx.setup(input(vec![KeyEvent::Down(Key::Right), KeyEvent::Up(Key::Left)]));
    assert!(!ctx.key_down(Key::Left));
    assert!(ctx.key_down(Key::Right));
    assert!(!ctx.key_down(Key::Interact));
    ctx.setup(input(vec![KeyEvent::Down(Key::Quit), KeyEvent::Down(Key::Quit)]));
    assert!(ctx.key_down(Key::Quit));
    assert!(ctx.key_down(Key::Right));
}

#[test]
fn setup_records_the_frame() {
    let mut ctx = Ctx::new((100, 100));
    ctx.setup(FrameInput {
        window: (640, 480),
        elapsed_ms: 1234,
        events: vec![],
        item_bob: Unit(-125),
        prompt_bob: Unit(50),
    });
    assert_eq!(ctx.window_size(), (640, 480));
    assert_eq!(ctx.millis_elapsed(), 1234);
    assert_eq!(ctx.item_bob(), Unit(-125));
    assert_eq!(ctx.prompt_bob(), Unit(50));
    assert_eq!(ctx.to_screen_position((Unit(0), Unit(0))), (80_000, 0));
    assert_eq!(ctx.to_screen_scale((Unit(1000), Unit(1000))), (48_000, 48_000));
}

#[test]
fn sound_paths_and_volumes() {
    assert_eq!(Effect::Interact.path(), "assets/click.ogg");
    assert_eq!(Effect::Stab.volume(), 100);
    assert_eq!(Music::HeartbeatChildWithLemon.path(), "assets/heartbeat-child-with-lemon.ogg");
    assert_eq!(Music::Ascend.path(), "assets/ascension.ogg");
    assert_eq!(Music::RipBozo.volume(), 75);
    assert_eq!(Music::Lemonhead.volume(), 100);
    assert_eq!(Music::Outside.volume(), 50);
}

#[test]
fn commands_become_worker_messages() {
    match configuration(AudioCommand::PlayMusic(Music::RipBozo)) {
        Configuration::Play(volume, path) => {
            assert_eq!(volume, 75);
            assert_eq!(path, "assets/rip-bozo.ogg");
        }
        _ => panic!("expected play"),
    }
    assert!(matches!(configuration(AudioCommand::StopMusic), Configuration::Stop));
    assert!(matches!(configuration(AudioCommand::RepeatMusic(false)), Configuration::Repeat(false)));
    assert_eq!(AudioCommand::PlayEffect(Effect::Stab).channel(), lemonhead::ctx::Channel::Effects);
    assert_eq!(AudioCommand::StopMusic.channel(), lemonhead::ctx::Channel::Music);
}

#[test]
fn worker_replaces_track_and_obeys_repeat() {
    let (repeat, action) = audio_step(false, Configuration::Repeat(true));
    assert!(repeat);
    assert!(matches!(action, SinkAction::Keep));
    let (repeat, action) = audio_step(repeat, Configuration::Play(50, "assets/run.ogg"));
    assert!(repeat);
    match action {
        SinkAction::Replace { volume, path, repeat } => {
            assert_eq!(volume, 50);
            assert_eq!(path, "assets/run.ogg");
            assert!(repeat);
        }
        _ => panic!("expected replace"),
    }
    let (repeat, action) = audio_step(repeat, Configuration::Stop);
    assert!(repeat);
    assert!(matches!(action, SinkAction::Clear));
}
