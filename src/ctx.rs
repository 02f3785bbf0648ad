use vstd::prelude::*;

use crate::logic::Unit;
use crate::sprite::{describe, Sprite, SpriteDesc};
use crate::transform::{border_spec, dot_of, screen_coord, to_screen_position, to_screen_scale};

verus! {

/// A colour as red, green and blue channels.
#[derive(Clone, Copy, PartialEq, Eq, Structural, Debug)]
pub struct Rgb(pub u8, pub u8, pub u8);

/// The keys the game reacts to.
#[derive(Clone, Copy, PartialEq, Eq, Structural, Debug, Hash)]
pub enum Key {
    Left,
    Right,
    Interact,
    Quit,
}

/// The set of keys held down during a frame.
#[derive(Clone, Copy, PartialEq, Eq, Structural, Debug)]
pub struct KeySet {
    pub left: bool,
    pub right: bool,
    pub interact: bool,
    pub quit: bool,
}

/// A key going down or coming up.
#[derive(Clone, Copy, PartialEq, Eq, Structural, Debug)]
pub enum KeyEvent {
    Down(Key),
    Up(Key),
}

impl KeySet {
    pub open spec fn has(self, key: Key) -> bool {
        match key {
            Key::Left => self.left,
            Key::Right => self.right,
            Key::Interact => self.interact,
            Key::Quit => self.quit,
        }
    }

    pub open spec fn with(self, key: Key, down: bool) -> KeySet {
        match key {
            Key::Left => KeySet { left: down, ..self },
            Key::Right => KeySet { right: down, ..self },
            Key::Interact => KeySet { interact: down, ..self },
            Key::Quit => KeySet { quit: down, ..self },
        }
    }

    pub fn contains(&self, key: Key) -> (r: bool)
        ensures
            r == self.has(key),
    {
        match key {
            Key::Left => self.left,
            Key::Right => self.right,
            Key::Interact => self.interact,
            Key::Quit => self.quit,
        }
    }

    pub fn set(&mut self, key: Key, down: bool)
        ensures
            *final(self) == old(self).with(key, down),
    {
        match key {
            Key::Left => self.left = down,
            Key::Right => self.right = down,
            Key::Interact => self.interact = down,
            Key::Quit => self.quit = down,
        }
    }
}

/// The key set after a sequence of events, applied in order.
pub open spec fn apply_key_events(keys: KeySet, events: Seq<KeyEvent>) -> KeySet
    decreases events.len(),
{
    if events.len() == 0 {
        keys
    } else {
        let before = apply_key_events(keys, events.drop_last());
        match events.last() {
            KeyEvent::Down(k) => before.with(k, true),
            KeyEvent::Up(k) => before.with(k, false),
        }
    }
}

/// One-shot sound effects.
#[derive(Clone, Copy, PartialEq, Eq, Structural, Debug)]
pub enum Effect {
    Interact,
    Stab,
}

/// Background music tracks.
#[derive(Clone, Copy, PartialEq, Eq, Structural, Debug)]
pub enum Music {
    Outside,
    Lemonhead,
    RipBozo,
    Rich,
    Run,
    Heartbeat,
    HeartbeatChild,
    HeartbeatChildWithLemon,
    Ascend,
}

pub open spec fn effect_path(e: Effect) -> Seq<char> {
    match e {
        Effect::Interact => "assets/click.ogg"@,
        Effect::Stab => "assets/stab.ogg"@,
    }
}

pub open spec fn music_path(m: Music) -> Seq<char> {
    match m {
        Music::Rich => "assets/rich.ogg"@,
        Music::Outside => "assets/outside.ogg"@,
        Music::Lemonhead => "assets/lemonhead.ogg"@,
        Music::Run => "assets/run.ogg"@,
        Music::Heartbeat => "assets/heartbeat.ogg"@,
        Music::HeartbeatChild => "assets/heartbeat-child.ogg"@,
        Music::HeartbeatChildWithLemon => "assets/heartbeat-child-with-lemon.ogg"@,
        Music::Ascend => "assets/ascension.ogg"@,
        Music::RipBozo => "assets/rip-bozo.ogg"@,
    }
}

/// Playback volume of a track, in percent.
pub open spec fn music_volume(m: Music) -> u8 {
    match m {
        Music::Lemonhead | Music::Ascend => 100,
        Music::RipBozo => 75,
        _ => 50,
    }
}

impl Effect {
    pub fn path(&self) -> (r: &'static str)
        ensures
            r@ == effect_path(*self),
    {
        match self {
            Effect::Interact => "assets/click.ogg",
            Effect::Stab => "assets/stab.ogg",
        }
    }

    /// Playback volume in percent: effects always play at full volume.
    pub fn volume(&self) -> (r: u8)
        ensures
            r == 100,
    {
        100
    }
}

impl Music {
    pub fn path(&self) -> (r: &'static str)
        ensures
            r@ == music_path(*self),
    {
        match self {
            Music::Rich => "assets/rich.ogg",
            Music::Outside => "assets/outside.ogg",
            Music::Lemonhead => "assets/lemonhead.ogg",
            Music::Run => "assets/run.ogg",
            Music::Heartbeat => "assets/heartbeat.ogg",
            Music::HeartbeatChild => "assets/heartbeat-child.ogg",
            Music::HeartbeatChildWithLemon => "assets/heartbeat-child-with-lemon.ogg",
            Music::Ascend => "assets/ascension.ogg",
            Music::RipBozo => "assets/rip-bozo.ogg",
        }
    }

    /// Playback volume in percent.
    pub fn volume(&self) -> (r: u8)
        ensures
            r == music_volume(*self),
    {
        match self {
            Music::Lemonhead | Music::Ascend => 100,
            Music::RipBozo => 75,
            _ => 50,
        }
    }
}

/// The two audio channels, each served by its own worker.
#[derive(Clone, Copy, PartialEq, Eq, Structural, Debug)]
pub enum Channel {
    Music,
    Effects,
}

/// A command for one audio channel.
#[derive(Clone, Copy, PartialEq, Eq, Structural, Debug)]
pub enum AudioCommand {
    /// Play an effect once on the effects channel.
    PlayEffect(Effect),
    /// Replace the music with a track, looping.
    PlayMusic(Music),
    /// Stop the music.
    StopMusic,
    /// Make later music loop, or not.
    RepeatMusic(bool),
}

impl AudioCommand {
    pub open spec fn spec_channel(self) -> Channel {
        match self {
            AudioCommand::PlayEffect(_) => Channel::Effects,
            _ => Channel::Music,
        }
    }

    /// The channel that carries this command.
    pub fn channel(&self) -> (r: Channel)
        ensures
            r == self.spec_channel(),
    {
        match self {
            AudioCommand::PlayEffect(_) => Channel::Effects,
            _ => Channel::Music,
        }
    }
}

/// One deferred drawing command; screen values are in milli-pixels.
#[derive(Clone, Copy, Debug)]
pub enum QueueItem {
    Sprite { sprite: SpriteDesc, position: (i64, i64), size: (i64, i64) },
    FillBackground(Rgb),
    DrawRect { color: Rgb, position: (i64, i64), size: (i64, i64) },
}

/// The meaning of a draw command: what is drawn and where, in milli-pixels.
pub enum ItemView {
    Sprite {
        path: Seq<char>,
        offset: (u32, u32),
        sprite_size: (u32, u32),
        position: (int, int),
        size: (int, int),
    },
    FillBackground(Rgb),
    DrawRect { color: Rgb, position: (int, int), size: (int, int) },
}

impl View for QueueItem {
    type V = ItemView;

    open spec fn view(&self) -> ItemView {
        match *self {
            QueueItem::Sprite { sprite, position, size } => ItemView::Sprite {
                path: sprite.path@,
                offset: sprite.offset,
                sprite_size: sprite.size,
                position: (position.0 as int, position.1 as int),
                size: (size.0 as int, size.1 as int),
            },
            QueueItem::FillBackground(c) => ItemView::FillBackground(c),
            QueueItem::DrawRect { color, position, size } => ItemView::DrawRect {
                color,
                position: (position.0 as int, position.1 as int),
                size: (size.0 as int, size.1 as int),
            },
        }
    }
}

/// The meanings of a sequence of draw commands.
pub open spec fn item_views(items: Seq<QueueItem>) -> Seq<ItemView> {
    items.map_values(|q: QueueItem| q@)
}

/// What a frame's end hands to the backend: the draw calls in paint order and
/// the audio commands in the order they were issued.
pub struct Frame {
    pub items: Vec<QueueItem>,
    pub audio: Vec<AudioCommand>,
}

/// Input for one frame, gathered by the backend.
pub struct FrameInput {
    /// Window size in pixels.
    pub window: (u32, u32),
    /// Milliseconds since the session started.
    pub elapsed_ms: u64,
    /// Key events since the previous frame, in order.
    pub events: Vec<KeyEvent>,
    /// Vertical offset of bobbing items this frame.
    pub item_bob: Unit,
    /// Vertical offset of the interaction prompt this frame.
    pub prompt_bob: Unit,
}

/// The frame context that scenes draw and play sounds through.
pub struct Ctx {
    window: (u32, u32),
    keys: KeySet,
    elapsed_ms: u64,
    item_bob: Unit,
    prompt_bob: Unit,
    queue: Vec<QueueItem>,
    audio: Vec<AudioCommand>,
    playing_music: Option<Music>,
}

/// The observable state of a frame context.
pub struct CtxView {
    pub window: (u32, u32),
    pub keys: KeySet,
    pub elapsed_ms: u64,
    pub item_bob: Unit,
    pub prompt_bob: Unit,
    pub queue: Seq<ItemView>,
    pub audio: Seq<AudioCommand>,
    pub playing_music: Option<Music>,
}

impl View for Ctx {
    type V = CtxView;

    closed spec fn view(&self) -> CtxView {
        CtxView {
            window: self.window,
            keys: self.keys,
            elapsed_ms: self.elapsed_ms,
            item_bob: self.item_bob,
            prompt_bob: self.prompt_bob,
            queue: item_views(self.queue@),
            audio: self.audio@,
            playing_music: self.playing_music,
        }
    }
}

/// The command that draws `sprite` at the screen image of a world position
/// and size.
pub open spec fn sprite_view<S: Sprite>(
    window: (u32, u32),
    position: (Unit, Unit),
    size: (Unit, Unit),
    sprite: S,
) -> ItemView {
    let dot = dot_of(window.0 as int, window.1 as int);
    ItemView::Sprite {
        path: sprite.spec_path(),
        offset: sprite.spec_offset(),
        sprite_size: sprite.spec_size(),
        position: (
            screen_coord(window.0 as int, dot, position.0.spec_milli()),
            screen_coord(window.1 as int, dot, position.1.spec_milli()),
        ),
        size: (size.0.spec_milli() * dot, size.1.spec_milli() * dot),
    }
}

/// The colour of the border around the room.
pub open spec fn border_color() -> Rgb {
    Rgb(50, 50, 50)
}

/// The four rectangles that mask everything outside the room, in order.
pub open spec fn border_views(window: (u32, u32)) -> Seq<ItemView> {
    let b = border_spec(window);
    Seq::new(4, |i: int| ItemView::DrawRect { color: border_color(), position: b[i].0, size: b[i].1 })
}

/// The context with `items` drawn after what was queued.
pub open spec fn with_drawn(v: CtxView, items: Seq<ItemView>) -> CtxView {
    CtxView { queue: v.queue + items, ..v }
}

/// The context after an effect was queued.
pub open spec fn with_effect(v: CtxView, effect: Effect) -> CtxView {
    CtxView { audio: v.audio.push(AudioCommand::PlayEffect(effect)), ..v }
}

/// The context after `set_music`: unchanged when the track already plays, else
/// with one command that starts it.
pub open spec fn with_music(v: CtxView, music: Music) -> CtxView {
    if v.playing_music == Some(music) {
        v
    } else {
        CtxView {
            audio: v.audio.push(AudioCommand::PlayMusic(music)),
            playing_music: Some(music),
            ..v
        }
    }
}

/// The context after the music was stopped.
pub open spec fn with_music_stopped(v: CtxView) -> CtxView {
    CtxView { audio: v.audio.push(AudioCommand::StopMusic), playing_music: None, ..v }
}

/// The effect of `set_music`.
pub open spec fn set_music_post(before: CtxView, music: Music, after: CtxView) -> bool {
    after == with_music(before, music)
}

/// Number of commands in `s` that start a track.
pub open spec fn count_music_plays(s: Seq<AudioCommand>) -> nat
    decreases s.len(),
{
    if s.len() == 0 {
        0
    } else {
        count_music_plays(s.drop_last()) + if s.last() is PlayMusic {
            1nat
        } else {
            0nat
        }
    }
}

/// Setting the same track twice in a row starts it at most once: exactly once
/// when it was not already playing, and never when it was.
pub proof fn lemma_set_music_idempotent(v0: CtxView, v1: CtxView, v2: CtxView, music: Music)
    requires
        set_music_post(v0, music, v1),
        set_music_post(v1, music, v2),
    ensures
        v2 == v1,
        v2.playing_music == Some(music),
        count_music_plays(v2.audio) == count_music_plays(v0.audio) + if v0.playing_music == Some(
            music,
        ) {
            0nat
        } else {
            1nat
        },
{
    if v0.playing_music != Some(music) {
        assert(v2.audio.drop_last() == v0.audio);
    }
}

/// Draw commands come out in the order they were queued: when `a` is queued
/// and then `b`, and the frame's end hands over the queue followed by the
/// border, `a` is drawn right before `b`.
pub proof fn lemma_paint_order(
    v0: CtxView,
    v1: CtxView,
    v2: CtxView,
    a: ItemView,
    b: ItemView,
    drawn: Seq<ItemView>,
)
    requires
        v1.queue == v0.queue.push(a),
        v2.queue == v1.queue.push(b),
        drawn.len() == v2.queue.len() + 4,
        drawn.subrange(0, v2.queue.len() as int) == v2.queue,
    ensures
        drawn[v0.queue.len() as int] == a,
        drawn[v0.queue.len() + 1int] == b,
{
    assert(drawn.subrange(0, v2.queue.len() as int)[v0.queue.len() as int] == a);
    assert(drawn.subrange(0, v2.queue.len() as int)[v0.queue.len() + 1int] == b);
}

impl Ctx {
    /// A fresh context: nothing queued, nothing playing, and music set to loop.
    pub fn new(window: (u32, u32)) -> (r: Ctx)
        ensures
            r@.window == window,
            r@.keys == (KeySet { left: false, right: false, interact: false, quit: false }),
            r@.elapsed_ms == 0,
            r@.item_bob == Unit(0),
            r@.prompt_bob == Unit(0),
            r@.queue == Seq::<ItemView>::empty(),
            r@.audio == seq![AudioCommand::RepeatMusic(true)],
            (r@.playing_music is None),
    {
        let mut audio = Vec::new();
        audio.push(AudioCommand::RepeatMusic(true));
        Ctx {
            window,
            keys: KeySet { left: false, right: false, interact: false, quit: false },
            elapsed_ms: 0,
            item_bob: Unit(0),
            prompt_bob: Unit(0),
            queue: Vec::new(),
            audio,
            playing_music: None,
        }
    }

    /// Starts a frame: the interact key counts once per press, so it is
    /// released first; then the frame's key events are applied in order.
    pub fn setup(&mut self, input: FrameInput)
        ensures
            (final(self)@ == CtxView {
                window: input.window,
                elapsed_ms: input.elapsed_ms,
                item_bob: input.item_bob,
                prompt_bob: input.prompt_bob,
                keys: apply_key_events(
                    old(self)@.keys.with(Key::Interact, false),
                    input.events@,
                ),
                ..old(self)@
            }),
    {
        let mut keys = self.keys;
        keys.set(Key::Interact, false);
        let ghost start = keys;
        let mut i: usize = 0;
        while i < input.events.len()
            invariant
                0 <= i <= input.events@.len(),
                keys == apply_key_events(start, input.events@.subrange(0, i as int)),
            decreases input.events@.len() - i,
        {
            proof {
                assert(input.events@.subrange(0, i as int + 1).drop_last() == input.events@.subrange(
                    0,
                    i as int,
                ));
            }
            match input.events[i] {
                KeyEvent::Down(k) => keys.set(k, true),
                KeyEvent::Up(k) => keys.set(k, false),
            }
            i = i + 1;
        }
        proof {
            assert(input.events@.subrange(0, input.events@.len() as int) == input.events@);
        }
        self.keys = keys;
        self.window = input.window;
        self.elapsed_ms = input.elapsed_ms;
        self.item_bob = input.item_bob;
        self.prompt_bob = input.prompt_bob;
    }

    pub fn window_size(&self) -> (r: (u32, u32))
        ensures
            r == self@.window,
    {
        self.window
    }

    pub fn key_down(&self, key: Key) -> (r: bool)
        ensures
            r == self@.keys.has(key),
    {
        self.keys.contains(key)
    }

    /// Milliseconds since the session started, as of this frame.
    pub fn millis_elapsed(&self) -> (r: u64)
        ensures
            r == self@.elapsed_ms,
    {
        self.elapsed_ms
    }

    /// The track currently playing, if any.
    pub fn playing_music(&self) -> (r: Option<Music>)
        ensures
            r == self@.playing_music,
    {
        self.playing_music
    }

    pub fn item_bob(&self) -> (r: Unit)
        ensures
            r == self@.item_bob,
    {
        self.item_bob
    }

    pub fn prompt_bob(&self) -> (r: Unit)
        ensures
            r == self@.prompt_bob,
    {
        self.prompt_bob
    }

    pub fn to_screen_position(&self, position: (Unit, Unit)) -> (r: (i64, i64))
        ensures
            r.0 == screen_coord(
                self@.window.0 as int,
                dot_of(self@.window.0 as int, self@.window.1 as int),
                position.0.spec_milli(),
            ),
            r.1 == screen_coord(
                self@.window.1 as int,
                dot_of(self@.window.0 as int, self@.window.1 as int),
                position.1.spec_milli(),
            ),
    {
        to_screen_position(self.window, position)
    }

    pub fn to_screen_scale(&self, size: (Unit, Unit)) -> (r: (i64, i64))
        ensures
            r.0 == size.0.spec_milli() * dot_of(self@.window.0 as int, self@.window.1 as int),
            r.1 == size.1.spec_milli() * dot_of(self@.window.0 as int, self@.window.1 as int),
    {
        to_screen_scale(self.window, size)
    }

    pub fn enqueue_background_fill(&mut self, color: Rgb)
        ensures
            final(self)@ == with_drawn(old(self)@, seq![ItemView::FillBackground(color)]),
    {
        self.queue.push(QueueItem::FillBackground(color));
        proof {
            assert(item_views(self.queue@) =~= old(self)@.queue + seq![ItemView::FillBackground(color)]);
        }
    }

    /// Queues a filled rectangle given in screen milli-pixels.
    pub fn enqueue_screen_rect(&mut self, color: Rgb, position: (i64, i64), size: (i64, i64))
        ensures
            final(self)@ == with_drawn(
                old(self)@,
                seq![
                    ItemView::DrawRect {
                        color,
                        position: (position.0 as int, position.1 as int),
                        size: (size.0 as int, size.1 as int),
                    },
                ],
            ),
    {
        self.queue.push(QueueItem::DrawRect { color, position, size });
        proof {
            assert(item_views(self.queue@) =~= old(self)@.queue + seq![
                QueueItem::DrawRect { color, position, size }@,
            ]);
        }
    }

    /// Queues a sprite at a world position and size.
    pub fn enqueue_sprite<S: Sprite>(&mut self, position: (Unit, Unit), size: (Unit, Unit), sprite: &S)
        ensures
            final(self)@ == with_drawn(
                old(self)@,
                seq![sprite_view(old(self)@.window, position, size, *sprite)],
            ),
    {
        let desc = describe(sprite);
        let screen_position = to_screen_position(self.window, position);
        let screen_size = to_screen_scale(self.window, size);
        let item = QueueItem::Sprite { sprite: desc, position: screen_position, size: screen_size };
        self.queue.push(item);
        proof {
            assert(item@ == sprite_view(old(self)@.window, position, size, *sprite));
            assert(item_views(self.queue@) =~= old(self)@.queue + seq![item@]);
        }
    }

    /// Queues the four rectangles that mask everything outside the room.
    pub fn enqueue_border(&mut self)
        ensures
            final(self)@ == with_drawn(old(self)@, border_views(old(self)@.window)),
    {
        let color = Rgb(50, 50, 50);
        let (left, top) = to_screen_position(self.window, (Unit(0), Unit(0)));
        let (right, bottom) = to_screen_position(self.window, (Unit(10000), Unit(10000)));
        let win_width: i64 = self.window.0 as i64 * 1000;
        let win_height: i64 = self.window.1 as i64 * 1000;
        self.queue.push(QueueItem::DrawRect { color, position: (0, 0), size: (left, win_height) });
        self.queue.push(QueueItem::DrawRect { color, position: (0, 0), size: (win_width, top) });
        self.queue.push(
            QueueItem::DrawRect { color, position: (0, bottom), size: (win_width, top) },
        );
        self.queue.push(
            QueueItem::DrawRect { color, position: (right, 0), size: (left, win_height) },
        );
        proof {
            let n = old(self).queue@.len() as int;
            let w = border_views(old(self)@.window);
            assert(item_views(self.queue@)[n] == w[0]);
            assert(item_views(self.queue@)[n + 1] == w[1]);
            assert(item_views(self.queue@)[n + 2] == w[2]);
            assert(item_views(self.queue@)[n + 3] == w[3]);
            assert(item_views(self.queue@) =~= old(self)@.queue + w);
        }
    }

    /// Queues a one-shot sound effect.
    pub fn play_effect(&mut self, effect: Effect)
        ensures
            final(self)@ == with_effect(old(self)@, effect),
    {
        self.audio.push(AudioCommand::PlayEffect(effect));
    }

    /// Switches the music to `music`; nothing happens when it already plays.
    pub fn set_music(&mut self, music: Music)
        ensures
            set_music_post(old(self)@, music, final(self)@),
    {
        let already = match self.playing_music {
            Some(current) => current == music,
            None => false,
        };
        if already {
            return;
        }
        self.audio.push(AudioCommand::PlayMusic(music));
        self.playing_music = Some(music);
    }

    pub fn stop_music(&mut self)
        ensures
            final(self)@ == with_music_stopped(old(self)@),
    {
        self.audio.push(AudioCommand::StopMusic);
        self.playing_music = None;
    }

    /// Ends a frame: queues the border, then hands over everything queued, in
    /// order, leaving the queue and the audio commands empty.
    pub fn finish(&mut self) -> (r: Frame)
        ensures
            item_views(r.items@) == old(self)@.queue + border_views(old(self)@.window),
            r.audio@ == old(self)@.audio,
            (final(self)@ == CtxView {
                queue: Seq::<ItemView>::empty(),
                audio: Seq::<AudioCommand>::empty(),
                ..old(self)@
            }),
    {
        self.enqueue_border();
        let mut items = Vec::new();
        let mut audio = Vec::new();
        std::mem::swap(&mut items, &mut self.queue);
        std::mem::swap(&mut audio, &mut self.audio);
        proof {
            assert(item_views(self.queue@) =~= Seq::<ItemView>::empty());
        }
        Frame { items, audio }
    }
}

} // verus!
