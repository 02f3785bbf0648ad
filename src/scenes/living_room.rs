use vstd::prelude::*;

use super::{push_if, reached, Scenes};
use crate::ctx::{with_effect, with_music, Ctx, CtxView, Effect, Music};
use crate::logic::Unit;
use crate::resolver::{closest_within_distance, interact_distance, InteractableId, Item, Items};
use crate::ctx::{with_drawn, ItemView};
use crate::helper::{
    draw_if, enqueue_ground, enqueue_item, enqueue_tile, enqueue_wallpaper, ground_picture,
    item_view, tile_view, wallpaper_picture,
};
use crate::logic::ground_level;
use crate::sprite::{bubble_column, npc_frame, Actor, ActorState, Bubble, Npc, Tile};
use crate::state::{all_set, State};

verus! {

/// The living room on the first visit: two coins, then the dad attacks.
#[derive(Clone, Copy, Debug)]
pub struct LivingRoom;

/// What the player can interact with in this room.
#[derive(Clone, Copy, PartialEq, Eq, Structural, Debug)]
pub enum Interactables {
    ExitDoor,
    Coin0,
    Coin1,
}

impl Item for Interactables {
    open spec fn spec_id(&self) -> InteractableId {
        match self {
            Interactables::ExitDoor => InteractableId(0),
            Interactables::Coin0 => InteractableId(1),
            Interactables::Coin1 => InteractableId(2),
        }
    }

    fn id(&self) -> (r: InteractableId) {
        match self {
            Interactables::ExitDoor => InteractableId(0),
            Interactables::Coin0 => InteractableId(1),
            Interactables::Coin1 => InteractableId(2),
        }
    }
}

impl Interactables {
    /// The item with a given id of this room.
    pub fn from_id(id: InteractableId) -> (r: Interactables)
        requires
            id.0 < 3,
        ensures
            r.spec_id() == id,
    {
        match id.0 {
            0 => Interactables::ExitDoor,
            1 => Interactables::Coin0,
            _ => Interactables::Coin1,
        }
    }
}

/// The coins not yet taken; the door once both are.
pub open spec fn living_room_items(s: State) -> Seq<(Unit, InteractableId)> {
    let coins = s.living_room.coins@;
    push_if(
        push_if(push_if(Seq::empty(), !coins[0], 3000, 1), !coins[1], 8000, 2),
        all_set(coins),
        1000,
        0,
    )
}

/// `s2` and `v2` are what interacting with item `id` makes of `s` and `v`.
pub open spec fn living_room_outcome(
    s: State,
    v: CtxView,
    id: InteractableId,
    s2: State,
    v2: CtxView,
) -> bool {
    let v1 = with_effect(v, Effect::Interact);
    let coins = s.living_room.coins@;
    if id == InteractableId(0) {
        &&& s2 == State {
            living_room: crate::state::LivingRoom { has_escaped_dad: true, ..s.living_room },
            scene_changed: Some((Unit(8000), Scenes::Kitchen)),
            ..s
        }
        &&& v2 == v1
    } else {
        let i = if id == InteractableId(1) {
            0int
        } else {
            1int
        };
        let other_taken = coins[1 - i];
        &&& s2 == State { living_room: crate::state::LivingRoom { coins: s2.living_room.coins, ..s.living_room }, ..s }
        &&& s2.living_room.coins@ == coins.update(i, true)
        &&& v2 == if other_taken {
            with_music(v1, Music::Run)
        } else {
            v1
        }
    }
}

/// `s2` and `v2` are what pressing interact at `position` makes of `s` and `v`.
pub open spec fn living_room_interaction(
    s: State,
    v: CtxView,
    position: Unit,
    s2: State,
    v2: CtxView,
) -> bool {
    match reached(living_room_items(s), position) {
        None => s2 == s && v2 == v,
        Some(id) => living_room_outcome(s, v, id, s2, v2),
    }
}

/// Where the dad stands after `attack_ms` milliseconds of attack, having set
/// out from `start_milli`; far-off values saturate.
pub open spec fn dad_position_spec(attack_ms: u64, start_milli: i32) -> int {
    let travelled = if attack_ms > 1000000000 {
        2000000000int
    } else {
        attack_ms as int * 2
    };
    if start_milli - travelled < i32::MIN {
        i32::MIN as int
    } else {
        start_milli - travelled
    }
}

pub fn dad_position(attack_ms: u64, start_milli: i32) -> (r: Unit)
    ensures
        r.spec_milli() == dad_position_spec(attack_ms, start_milli),
{
    let travelled: i32 = if attack_ms > 1000000000 {
        2000000000
    } else {
        (attack_ms * 2) as i32
    };
    Unit(start_milli).saturating_sub(Unit(travelled))
}

/// The bubble frame after `attack_ms` milliseconds: frame `k` during the
/// `k`-th eighth of the first second, none afterwards.
pub open spec fn bubble_index(attack_ms: u64) -> Option<int> {
    if attack_ms < 1000 {
        Some(attack_ms * 8 / 1000)
    } else {
        None
    }
}

/// The bubble frame in column `k`.
pub open spec fn bubble_at(k: int) -> Bubble {
    if k <= 0 {
        Bubble::L0
    } else if k == 1 {
        Bubble::L1
    } else if k == 2 {
        Bubble::L2
    } else if k == 3 {
        Bubble::L3
    } else if k == 4 {
        Bubble::L4
    } else if k == 5 {
        Bubble::L5
    } else if k == 6 {
        Bubble::L6
    } else {
        Bubble::L7
    }
}

pub fn bubble_frame(attack_ms: u64) -> (r: Option<Bubble>)
    ensures
        r == match bubble_index(attack_ms) {
            None => None,
            Some(k) => Some(bubble_at(k)),
        },
        r is Some ==> bubble_index(attack_ms) == Some(bubble_column(r->0) as int),
{
    if attack_ms >= 1000 {
        return None;
    }
    let k = attack_ms * 8 / 1000;
    let b = match k {
        0 => Bubble::L0,
        1 => Bubble::L1,
        2 => Bubble::L2,
        3 => Bubble::L3,
        4 => Bubble::L4,
        5 => Bubble::L5,
        6 => Bubble::L6,
        _ => Bubble::L7,
    };
    Some(b)
}

/// The house as drawn: ground, striped wallpaper, door, pictures and couch,
/// and the coins not yet taken.
pub open spec fn living_room_house_picture(s: State, v: CtxView) -> Seq<ItemView> {
    let w = v.window;
    let g = Unit(5000);
    let coins = s.living_room.coins@;
    ground_picture(w) + wallpaper_picture(w, Tile::StripeWallpaper) + seq![
        tile_view(w, (Unit(1000), g), Tile::DoorOpen),
        tile_view(w, (Unit(3000), g), Tile::TreeDayPicture),
        tile_view(w, (Unit(4000), g), Tile::HousePicture),
        tile_view(w, (Unit(6000), g), Tile::Couch),
    ] + draw_if(!coins[0], item_view(v, Tile::Coin, Unit(3000))) + draw_if(
        !coins[1],
        item_view(v, Tile::Coin, Unit(8000)),
    )
}

/// The confrontation as drawn once both coins are taken: the dad running
/// left from 14 units at two units per second (first pose in the first half of
/// each second), then the bubble while it is still filling.
pub open spec fn confrontation_picture(s: State, v: CtxView) -> Seq<ItemView> {
    let w = v.window;
    let g = Unit(5000);
    let attack = s.living_room.dad_attack_millis;
    if !all_set(s.living_room.coins@) {
        Seq::empty()
    } else {
        let dad = Actor::Dad(npc_frame(ActorState::Left, v.elapsed_ms % 1000 > 500));
        seq![tile_view(w, (Unit(dad_position_spec(attack, 14000) as i32), g), dad)] + match bubble_index(
            attack,
        ) {
            None => Seq::empty(),
            Some(k) => seq![tile_view(w, (Unit(9000), g), bubble_at(k))],
        }
    }
}

/// The room as drawn: the house, then the confrontation.
pub open spec fn living_room_picture(s: State, v: CtxView) -> Seq<ItemView> {
    living_room_house_picture(s, v) + confrontation_picture(s, v)
}

impl LivingRoom {
    pub fn prepare_items(&self, state: &State) -> (r: Items)
        ensures
            r@ == living_room_items(*state),
    {
        let mut items = Items::new();
        if !state.living_room.coins[0] {
            items.push(Unit(3000), Interactables::Coin0);
        }
        if !state.living_room.coins[1] {
            items.push(Unit(8000), Interactables::Coin1);
        }
        if state.living_room.all_coins_collected() {
            items.push(Unit(1000), Interactables::ExitDoor);
        }
        items
    }

    pub fn interact(&self, ctx: &mut Ctx, state: &mut State, position: Unit)
        ensures
            living_room_interaction(
                *old(state),
                old(ctx)@,
                position,
                *final(state),
                final(ctx)@,
            ),
    {
        let items = self.prepare_items(state);
        let id = match closest_within_distance(&items, position, interact_distance()) {
            None => return ,
            Some(id) => id,
        };
        ctx.play_effect(Effect::Interact);
        match Interactables::from_id(id) {
            Interactables::ExitDoor => {
                state.living_room.has_escaped_dad = true;
                state.scene_changed = Some((Unit(8000), Scenes::Kitchen));
            },
            Interactables::Coin0 => {
                state.living_room.coins[0] = true;
                if state.living_room.coins[1] {
                    ctx.set_music(Music::Run);
                }
            },
            Interactables::Coin1 => {
                state.living_room.coins[1] = true;
                if state.living_room.coins[0] {
                    ctx.set_music(Music::Run);
                }
            },
        }
    }

    fn enqueue_house(&self, ctx: &mut Ctx, state: &State)
        ensures
            final(ctx)@ == with_drawn(old(ctx)@, living_room_house_picture(*state, old(ctx)@)),
    {
        let ground = ground_level();
        enqueue_ground(ctx);
        enqueue_wallpaper(ctx, &Tile::StripeWallpaper);
        enqueue_tile(ctx, (Unit(1000), ground), &Tile::DoorOpen);
        enqueue_tile(ctx, (Unit(3000), ground), &Tile::TreeDayPicture);
        enqueue_tile(ctx, (Unit(4000), ground), &Tile::HousePicture);
        enqueue_tile(ctx, (Unit(6000), ground), &Tile::Couch);
        if !state.living_room.coins[0] {
            enqueue_item(ctx, &Tile::Coin, Unit(3000));
        }
        if !state.living_room.coins[1] {
            enqueue_item(ctx, &Tile::Coin, Unit(8000));
        }
        proof {
            assert(ctx@.queue =~= old(ctx)@.queue + living_room_house_picture(*state, old(ctx)@));
        }
    }

    /// Once both coins are taken the dad walks in from the right while the
    /// speech bubble fills up, one frame per eighth of a second.
    fn enqueue_confrontation(&self, ctx: &mut Ctx, state: &State)
        ensures
            final(ctx)@ == with_drawn(old(ctx)@, confrontation_picture(*state, old(ctx)@)),
    {
        if !state.living_room.all_coins_collected() {
            proof {
                assert(ctx@.queue =~= old(ctx)@.queue + confrontation_picture(*state, old(ctx)@));
            }
            return ;
        }
        let attack_ms = state.living_room.dad_attack_millis;
        let use_alt = ctx.millis_elapsed() % 1000 > 500;
        let dad = Actor::npc_sprite(&ActorState::Left, use_alt, |n: Npc| -> (a: Actor)
            ensures
                a == Actor::Dad(n),
            { Actor::Dad(n) });
        let dad_x = dad_position(attack_ms, 14000);
        enqueue_tile(ctx, (dad_x, ground_level()), &dad);
        if let Some(bubble) = bubble_frame(attack_ms) {
            enqueue_tile(ctx, (Unit(9000), ground_level()), &bubble);
        }
        proof {
            assert(ctx@.queue =~= old(ctx)@.queue + confrontation_picture(*state, old(ctx)@));
        }
    }

    pub fn draw(&self, ctx: &mut Ctx, state: &State)
        ensures
            final(ctx)@ == with_drawn(old(ctx)@, living_room_picture(*state, old(ctx)@)),
    {
        self.enqueue_house(ctx, state);
        self.enqueue_confrontation(ctx, state);
        proof {
            assert(ctx@.queue =~= old(ctx)@.queue + living_room_picture(*state, old(ctx)@));
        }
    }
}

} // verus!
