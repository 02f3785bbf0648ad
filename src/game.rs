use vstd::prelude::*;

use crate::ctx::{sprite_view, with_drawn, with_music, Ctx, CtxView, ItemView, Key, Music};
use crate::helper::{draw_if, enqueue_tile, tile_view};
use crate::logic::{ground_level, sat_add, sat_sub, Unit};
use crate::scenes::living_room::{dad_position, dad_position_spec};
use crate::scenes::{
    prompt_shown, reached, scene_interaction, scene_items, scene_picture, Scenes,
};
use crate::sprite::{lemonhead_frame, text_width, Actor, ActorState, Text};
use crate::state::{all_set, is_initial, EndingChosen, State};

verus! {

/// How a game session ended.
#[derive(Clone, Copy, PartialEq, Eq, Structural, Debug)]
pub enum GameResult {
    GoodEnding,
    Dead,
    Quit,
}

/// What the player chose on the title screen.
#[derive(Clone, Copy, PartialEq, Eq, Structural, Debug)]
pub enum MenuResult {
    Start,
    Quit,
}

/// The title screen's decision for a frame: quit wins over start, and with
/// neither key held the menu stays.
pub fn menu_choice(ctx: &Ctx) -> (r: Option<MenuResult>)
    ensures
        r == if ctx@.keys.has(Key::Quit) {
            Some(MenuResult::Quit)
        } else if ctx@.keys.has(Key::Interact) {
            Some(MenuResult::Start)
        } else {
            None
        },
{
    if ctx.key_down(Key::Quit) {
        Some(MenuResult::Quit)
    } else if ctx.key_down(Key::Interact) {
        Some(MenuResult::Start)
    } else {
        None
    }
}

/// Walking speed of the player, in milli-units per second.
pub const WALK_SPEED: u64 = 1250;

/// Speed of the player riding away, in milli-units per second.
pub const ESCAPE_SPEED: u64 = 500;

/// Speed of the player rising in the ascension, in milli-units per second.
pub const ASCEND_SPEED: u64 = 250;

/// Where the attacking dad sets out from, in milli-units.
pub const DAD_START_MILLIUNITS: i32 = 13650;

/// The player character.
#[derive(Clone, Copy, PartialEq, Eq, Structural, Debug)]
pub struct Player {
    pub x: Unit,
    pub y: Unit,
    pub state: ActorState,
}

/// Distance covered in `dt_ms` milliseconds at `speed` milli-units per
/// second; long pauses are capped so that the result stays representable.
pub open spec fn travel_spec(dt_ms: u64, speed: u64) -> int {
    let dt = if dt_ms > 1000000 {
        1000000int
    } else {
        dt_ms as int
    };
    dt * speed / 1000
}

pub fn travel(dt_ms: u64, speed: u64) -> (r: Unit)
    requires
        speed <= 2000,
    ensures
        r.spec_milli() == travel_spec(dt_ms, speed),
        0 <= r.spec_milli() <= 2000000,
{
    let dt: u64 = if dt_ms > 1000000 {
        1000000
    } else {
        dt_ms
    };
    proof {
        assert(dt * speed <= 2000000000) by (nonlinear_arith)
            requires
                dt <= 1000000,
                speed <= 2000,
        ;
        assert(dt * speed / 1000 <= 2000000);
    }
    Unit((dt * speed / 1000) as i32)
}

/// The player after walking for `dt_ms` with the given keys: left while the
/// player is right of the room's left edge, then right while left of 9 units,
/// and not at all once an ending was chosen.
pub open spec fn walk_spec(p: Player, left: bool, right: bool, can_move: bool, dt_ms: u64) -> Player {
    let step = travel_spec(dt_ms, WALK_SPEED);
    let stepped = if left && can_move && p.x.0 > 0 {
        Player { x: Unit(sat_sub(p.x.0 as int, step) as i32), state: ActorState::Left, ..p }
    } else {
        p
    };
    if right && can_move && stepped.x.0 < 9000 {
        Player { x: Unit(sat_add(stepped.x.0 as int, step) as i32), state: ActorState::Right, ..stepped }
    } else {
        stepped
    }
}

pub fn walk(player: Player, left: bool, right: bool, can_move: bool, dt_ms: u64) -> (r: Player)
    ensures
        r == walk_spec(player, left, right, can_move, dt_ms),
{
    let step = travel(dt_ms, WALK_SPEED);
    let mut p = player;
    if left && can_move && p.x.0 > 0 {
        p.x = p.x.saturating_sub(step);
        p.state = ActorState::Left;
    }
    if right && can_move && p.x.0 < 9000 {
        p.x = p.x.saturating_add(step);
        p.state = ActorState::Right;
    }
    p
}

/// The player during an ending: rising when ascending, riding left when
/// escaping; the flag says the ride has left the screen.
pub open spec fn ending_spec(p: Player, ending: Option<EndingChosen>, dt_ms: u64) -> (Player, bool) {
    match ending {
        None => (p, false),
        Some(EndingChosen::Ascended) => (
            Player { y: Unit(sat_sub(p.y.0 as int, travel_spec(dt_ms, ASCEND_SPEED)) as i32), ..p },
            false,
        ),
        Some(EndingChosen::Escaped) => {
            let x = sat_sub(p.x.0 as int, travel_spec(dt_ms, ESCAPE_SPEED));
            (Player { x: Unit(x as i32), state: ActorState::Left, ..p }, x < -1000)
        },
    }
}

pub fn advance_ending(player: Player, ending: Option<EndingChosen>, dt_ms: u64) -> (r: (
    Player,
    bool,
))
    ensures
        r == ending_spec(player, ending, dt_ms),
{
    match ending {
        None => (player, false),
        Some(EndingChosen::Ascended) => {
            let mut p = player;
            p.y = p.y.saturating_sub(travel(dt_ms, ASCEND_SPEED));
            (p, false)
        },
        Some(EndingChosen::Escaped) => {
            let mut p = player;
            p.state = ActorState::Left;
            p.x = p.x.saturating_sub(travel(dt_ms, ESCAPE_SPEED));
            let gone = p.x.0 < -1000;
            (p, gone)
        },
    }
}

/// The chase is on: both living-room coins are taken and the player has not
/// yet escaped.
pub open spec fn chase_active(s: State) -> bool {
    all_set(s.living_room.coins@) && !s.living_room.has_escaped_dad
}

/// The prompt text for the story so far.
pub open spec fn prompt_text(s: State) -> Text {
    if !s.living_room.has_escaped_dad {
        Text::Space
    } else if !s.kitchen.weapon_collected {
        Text::SelfDefense
    } else if !s.murder_living_room.dad_dead {
        Text::NoWitnesses
    } else if !s.child_room.spec_child_dead() {
        Text::OneLeft
    } else if s.child_room.child_stabs < 3 {
        Text::More
    } else {
        Text::Ascend
    }
}

pub fn choose_prompt_text(state: &State) -> (r: Text)
    ensures
        r == prompt_text(*state),
{
    if !state.living_room.has_escaped_dad {
        Text::Space
    } else if !state.kitchen.weapon_collected {
        Text::SelfDefense
    } else if !state.murder_living_room.dad_dead {
        Text::NoWitnesses
    } else if !state.child_room.child_dead() {
        Text::OneLeft
    } else if state.child_room.child_stabs < 3 {
        Text::More
    } else {
        Text::Ascend
    }
}

/// The prompt as drawn: its text for the story so far, one unit high,
/// centred horizontally, at nine units down plus the frame's bobbing.
pub open spec fn prompt_view(v: CtxView, s: State) -> ItemView {
    let text = prompt_text(s);
    let width = text_width(text);
    sprite_view(
        v.window,
        (Unit(((10000 - width) / 2) as i32), Unit(sat_add(9000, v.prompt_bob.0 as int) as i32)),
        (Unit(width as i32), Unit(1000)),
        text,
    )
}

/// Queues the interaction prompt, centred near the bottom of the room.
pub fn draw_interact_prompt(ctx: &mut Ctx, state: &State)
    ensures
        final(ctx)@ == with_drawn(old(ctx)@, seq![prompt_view(old(ctx)@, *state)]),
{
    let text = choose_prompt_text(state);
    let width = text.width();
    let centered = Unit((10000 - width.0) / 2);
    let y = Unit(9000).saturating_add(ctx.prompt_bob());
    ctx.enqueue_sprite((centered, y), (width, Unit(1000)), &text);
}

/// A running game: the active room, the story so far and the player.
#[derive(Clone, Copy, Debug)]
pub struct Game {
    pub scene: Scenes,
    pub state: State,
    pub player: Player,
    /// Clock reading of the previous frame, in milliseconds.
    pub last_elapsed_ms: u64,
}

/// The game after a pending room change took effect: the new room is active,
/// the player stands at its entry position and nothing is pending.
pub open spec fn scene_change_spec(g: Game) -> Game {
    match g.state.scene_changed {
        None => g,
        Some((position, scene)) => Game {
            scene,
            player: Player { x: position, ..g.player },
            state: State { scene_changed: None, ..g.state },
            ..g
        },
    }
}

/// The chase after `dt_ms` more milliseconds, and whether the dad caught
/// the player; nothing happens while the chase is off.
pub open spec fn chase_spec(g: Game, dt_ms: u64) -> (Game, bool) {
    if chase_active(g.state) {
        let sum = g.state.living_room.dad_attack_millis + dt_ms;
        let attack = if sum > u64::MAX {
            u64::MAX
        } else {
            sum as u64
        };
        (
            Game {
                state: State {
                    living_room: crate::state::LivingRoom {
                        dad_attack_millis: attack,
                        ..g.state.living_room
                    },
                    ..g.state
                },
                ..g
            },
            dad_position_spec(attack, DAD_START_MILLIUNITS) <= g.player.x.0,
        )
    } else {
        (g, false)
    }
}

/// Milliseconds since the previous frame; a clock that went back counts as none.
pub open spec fn frame_dt(g: Game, v: CtxView) -> u64 {
    if v.elapsed_ms > g.last_elapsed_ms {
        (v.elapsed_ms - g.last_elapsed_ms) as u64
    } else {
        0
    }
}

/// The player after this frame's walking, before any interaction.
pub open spec fn walked(g: Game, v: CtxView) -> Player {
    walk_spec(
        Player { state: ActorState::Idle, ..g.player },
        v.keys.has(Key::Left),
        v.keys.has(Key::Right),
        g.state.ending_chosen is None,
        frame_dt(g, v),
    )
}

/// The rest of a frame once the interaction, if any, left the story at `s1`:
/// the ending moves the player, a finished ride ends the game well, a pending
/// room change is applied, and the chase may end it badly.
pub open spec fn step_rest(g: Game, v: CtxView, s1: State, r: Option<GameResult>, g2: Game) -> bool {
    let dt = frame_dt(g, v);
    let (moved, gone) = ending_spec(walked(g, v), s1.ending_chosen, dt);
    let g1 = Game { state: s1, player: moved, last_elapsed_ms: v.elapsed_ms, ..g };
    if gone {
        r == Some(GameResult::GoodEnding) && g2 == g1
    } else {
        let (g4, caught) = chase_spec(scene_change_spec(g1), dt);
        &&& g2 == g4
        &&& r == if caught {
            Some(GameResult::Dead)
        } else {
            None
        }
    }
}

/// What a frame draws before the player moves: the active room, then the
/// prompt exactly when it is shown at the player's position.
pub open spec fn frame_picture(g: Game, v: CtxView) -> Seq<ItemView> {
    scene_picture(g.scene, g.state, v) + draw_if(
        prompt_shown(g.scene, g.state, g.player.x),
        prompt_view(v, g.state),
    )
}

/// The context after the player is drawn, where the frame goes on: the player
/// after walking and the ending, in its pose, with the second frame in the
/// second half of each half second.
pub open spec fn player_drawn(g: Game, v: CtxView, s1: State, v1: CtxView) -> CtxView {
    let (moved, gone) = ending_spec(walked(g, v), s1.ending_chosen, frame_dt(g, v));
    if gone {
        v1
    } else {
        with_drawn(
            v1,
            seq![
                tile_view(
                    v.window,
                    (moved.x, moved.y),
                    Actor::Lemonhead(lemonhead_frame(moved.state, v.elapsed_ms % 500 > 250)),
                ),
            ],
        )
    }
}

/// A frame from game `g` and context `v` gives result `r`, game `g2` and
/// context `v2`: quitting changes nothing; otherwise the frame's picture is
/// queued, the player walks, interacts when the key is held (with the
/// player's new position), is drawn unless the ride has left, and the rest of
/// the frame follows from the story after the interaction.
pub open spec fn step_post(
    g: Game,
    v: CtxView,
    r: Option<GameResult>,
    g2: Game,
    v2: CtxView,
) -> bool {
    if v.keys.has(Key::Quit) {
        r == Some(GameResult::Quit) && g2 == g && v2 == v
    } else {
        let v0 = with_drawn(v, frame_picture(g, v));
        exists|s1: State, v1: CtxView|
            #![trigger step_rest(g, v, s1, r, g2), player_drawn(g, v, s1, v1)]
            {
                &&& if v.keys.has(Key::Interact) {
                    scene_interaction(g.scene, g.state, v0, walked(g, v).x, s1, v1)
                } else {
                    s1 == g.state && v1 == v0
                }
                &&& v2 == player_drawn(g, v, s1, v1)
                &&& step_rest(g, v, s1, r, g2)
            }
    }
}

/// In a frame, the prompt is queued exactly when the resolver finds an item
/// within reach of the player in the active room.
pub proof fn lemma_prompt_queued_iff_item_in_reach(g: Game, v: CtxView)
    ensures
        frame_picture(g, v) == scene_picture(g.scene, g.state, v) + if reached(
            scene_items(g.scene, g.state),
            g.player.x,
        ) is Some {
            seq![prompt_view(v, g.state)]
        } else {
            Seq::<ItemView>::empty()
        },
{
}

impl Game {
    /// A new game in the tutorial, with the outdoor music playing.
    pub fn new(ctx: &mut Ctx) -> (r: Game)
        ensures
            r.scene == Scenes::Tutorial,
            is_initial(r.state),
            r.player == (Player { x: Unit(1000), y: Unit(5000), state: ActorState::Idle }),
            r.last_elapsed_ms == old(ctx)@.elapsed_ms,
            final(ctx)@ == with_music(old(ctx)@, Music::Outside),
    {
        ctx.set_music(Music::Outside);
        Game {
            scene: Scenes::Tutorial,
            state: State::new(),
            player: Player { x: Unit(1000), y: ground_level(), state: ActorState::Idle },
            last_elapsed_ms: ctx.millis_elapsed(),
        }
    }

    /// Applies a pending room change, if any.
    pub fn apply_scene_change(&mut self)
        ensures
            *final(self) == scene_change_spec(*old(self)),
    {
        if let Some((position, scene)) = self.state.scene_changed {
            self.scene = scene;
            self.player.x = position;
            self.state.scene_changed = None;
        }
    }

    /// Advances the chase by `dt_ms`; says whether the dad caught the player.
    pub fn advance_chase(&mut self, dt_ms: u64) -> (caught: bool)
        ensures
            (*final(self), caught) == chase_spec(*old(self), dt_ms),
    {
        if !(self.state.living_room.all_coins_collected() && !self.state.living_room.has_escaped_dad) {
            return false;
        }
        let attack = self.state.living_room.dad_attack_millis.saturating_add(dt_ms);
        self.state.living_room.dad_attack_millis = attack;
        let dad_x = dad_position(attack, DAD_START_MILLIUNITS);
        dad_x.0 <= self.player.x.0
    }

    /// One frame of play, between the context's setup and finish.
    #[verifier::rlimit(80)]
    pub fn step(&mut self, ctx: &mut Ctx) -> (r: Option<GameResult>)
        ensures
            step_post(*old(self), old(ctx)@, r, *final(self), final(ctx)@),
    {
        if ctx.key_down(Key::Quit) {
            return Some(GameResult::Quit);
        }
        let ghost g = *self;
        let ghost v = ctx@;
        self.draw_scene(ctx);
        let elapsed = ctx.millis_elapsed();
        let dt = if elapsed > self.last_elapsed_ms {
            elapsed - self.last_elapsed_ms
        } else {
            0
        };
        self.last_elapsed_ms = elapsed;
        let idle = Player { state: ActorState::Idle, ..self.player };
        let can_move = self.state.ending_chosen.is_none();
        self.player = walk(idle, ctx.key_down(Key::Left), ctx.key_down(Key::Right), can_move, dt);
        if ctx.key_down(Key::Interact) {
            let scene = self.scene;
            scene.interact(ctx, &mut self.state, self.player.x);
        }
        let ghost s1 = self.state;
        let ghost v1 = ctx@;
        let (moved, gone) = advance_ending(self.player, self.state.ending_chosen, dt);
        self.player = moved;
        if gone {
            assert(step_rest(g, v, s1, Some(GameResult::GoodEnding), *self));
            assert(ctx@ == player_drawn(g, v, s1, v1));
            return Some(GameResult::GoodEnding);
        }
        let use_alt = ctx.millis_elapsed() % 500 > 250;
        let sprite = Actor::lemonhead_sprite(&self.player.state, use_alt);
        enqueue_tile(ctx, (self.player.x, self.player.y), &sprite);
        self.apply_scene_change();
        let caught = self.advance_chase(dt);
        let r = if caught {
            Some(GameResult::Dead)
        } else {
            None
        };
        assert(step_rest(g, v, s1, r, *self));
        assert(ctx@ == player_drawn(g, v, s1, v1));
        r
    }

    /// Queues the active room and, when something is in reach, the prompt.
    fn draw_scene(&self, ctx: &mut Ctx)
        ensures
            final(ctx)@ == with_drawn(old(ctx)@, frame_picture(*self, old(ctx)@)),
    {
        self.scene.draw(ctx, &self.state);
        if self.scene.should_draw_interact_popup(&self.state, self.player.x) {
            draw_interact_prompt(ctx, &self.state);
        }
        proof {
            assert(ctx@.queue =~= old(ctx)@.queue + frame_picture(*self, old(ctx)@));
        }
    }
}

} // verus!
