use vstd::prelude::*;

use super::{push_if, reached, Scenes};
use crate::ctx::{with_effect, with_music, Ctx, CtxView, Effect, Music};
use crate::logic::Unit;
use crate::resolver::{closest_within_distance, interact_distance, InteractableId, Item, Items};
use crate::ctx::{with_drawn, ItemView};
use crate::helper::{
    enqueue_ground, enqueue_tile, enqueue_wallpaper, ground_picture, tile_view, wallpaper_picture,
};
use crate::logic::ground_level;
use crate::sprite::{Actor, Blood, Npc, Tile};
use crate::state::State;

verus! {

/// The living room on the second visit, with the weapon in hand.
#[derive(Clone, Copy, Debug)]
pub struct MurderLivingRoom;

/// What the player can interact with in this room.
#[derive(Clone, Copy, PartialEq, Eq, Structural, Debug)]
pub enum Interactables {
    ExitDoor,
    Dad,
}

impl Item for Interactables {
    open spec fn spec_id(&self) -> InteractableId {
        match self {
            Interactables::ExitDoor => InteractableId(0),
            Interactables::Dad => InteractableId(1),
        }
    }

    fn id(&self) -> (r: InteractableId) {
        match self {
            Interactables::ExitDoor => InteractableId(0),
            Interactables::Dad => InteractableId(1),
        }
    }
}

impl Interactables {
    /// The item with a given id of this room.
    pub fn from_id(id: InteractableId) -> (r: Interactables)
        requires
            id.0 < 2,
        ensures
            r.spec_id() == id,
    {
        match id.0 {
            0 => Interactables::ExitDoor,
            _ => Interactables::Dad,
        }
    }
}

/// The dad always; the door back once he is dead.
pub open spec fn murder_living_room_items(s: State) -> Seq<(Unit, InteractableId)> {
    push_if(seq![(Unit(5000), InteractableId(1))], s.murder_living_room.dad_dead, 1000, 0)
}

/// What interacting with item `id` does.
pub open spec fn murder_living_room_outcome(s: State, v: CtxView, id: InteractableId) -> (
    State,
    CtxView,
) {
    if id == InteractableId(0) {
        (
            State { scene_changed: Some((Unit(8000), Scenes::Kitchen)), ..s },
            with_effect(v, Effect::Interact),
        )
    } else {
        let v = with_effect(v, Effect::Stab);
        if s.murder_living_room.dad_dead {
            (s, v)
        } else {
            (
                State {
                    murder_living_room: crate::state::MurderLivingRoom {
                        dad_dead: true,
                        ..s.murder_living_room
                    },
                    ..s
                },
                with_music(v, Music::HeartbeatChild),
            )
        }
    }
}

/// What pressing interact at `position` does.
pub open spec fn murder_living_room_interaction(s: State, v: CtxView, position: Unit) -> (
    State,
    CtxView,
) {
    match reached(murder_living_room_items(s), position) {
        None => (s, v),
        Some(id) => murder_living_room_outcome(s, v, id),
    }
}

/// The dad's frame: dead, else idling with the second pose in the second half
/// of each second.
pub open spec fn dad_frame(s: State, elapsed_ms: u64) -> Actor {
    if s.murder_living_room.dad_dead {
        Actor::Dad(Npc::Dead)
    } else if elapsed_ms % 1000 < 500 {
        Actor::Dad(Npc::Idle)
    } else {
        Actor::Dad(Npc::IdleAlt)
    }
}

/// The room as drawn: striped wallpaper, door, pictures and couch, the
/// ground, the dad, and three blood decals once he is dead.
pub open spec fn murder_living_room_picture(s: State, v: CtxView) -> Seq<ItemView> {
    let w = v.window;
    let g = Unit(5000);
    let blood = if s.murder_living_room.dad_dead {
        seq![
            tile_view(w, (Unit(4000), g), Blood::SplatterRight),
            tile_view(w, (Unit(5000), g), Blood::SplatterCenter),
            tile_view(w, (Unit(6000), g), Blood::SplatterLeft),
        ]
    } else {
        Seq::empty()
    };
    wallpaper_picture(w, Tile::StripeWallpaper) + seq![
        tile_view(w, (Unit(1000), g), Tile::DoorOpen),
        tile_view(w, (Unit(3000), g), Tile::TreeDayPicture),
        tile_view(w, (Unit(4000), g), Tile::HousePicture),
        tile_view(w, (Unit(6000), g), Tile::Couch),
    ] + ground_picture(w) + seq![tile_view(w, (Unit(5000), g), dad_frame(s, v.elapsed_ms))]
        + blood
}

impl MurderLivingRoom {
    pub fn prepare_items(&self, state: &State) -> (r: Items)
        ensures
            r@ == murder_living_room_items(*state),
    {
        let mut items = Items::new();
        items.push(Unit(5000), Interactables::Dad);
        if state.murder_living_room.dad_dead {
            items.push(Unit(1000), Interactables::ExitDoor);
        }
        items
    }

    pub fn interact(&self, ctx: &mut Ctx, state: &mut State, position: Unit)
        ensures
            (*final(state), final(ctx)@) == murder_living_room_interaction(
                *old(state),
                old(ctx)@,
                position,
            ),
    {
        let items = self.prepare_items(state);
        let id = match closest_within_distance(&items, position, interact_distance()) {
            None => return ,
            Some(id) => id,
        };
        match Interactables::from_id(id) {
            Interactables::ExitDoor => {
                ctx.play_effect(Effect::Interact);
                state.scene_changed = Some((Unit(8000), Scenes::Kitchen));
            },
            Interactables::Dad => {
                ctx.play_effect(Effect::Stab);
                if !state.murder_living_room.dad_dead {
                    state.murder_living_room.dad_dead = true;
                    ctx.set_music(Music::HeartbeatChild);
                }
            },
        }
    }

    pub fn draw(&self, ctx: &mut Ctx, state: &State)
        ensures
            final(ctx)@ == with_drawn(old(ctx)@, murder_living_room_picture(*state, old(ctx)@)),
    {
        let ground = ground_level();
        enqueue_wallpaper(ctx, &Tile::StripeWallpaper);
        enqueue_tile(ctx, (Unit(1000), ground), &Tile::DoorOpen);
        enqueue_tile(ctx, (Unit(3000), ground), &Tile::TreeDayPicture);
        enqueue_tile(ctx, (Unit(4000), ground), &Tile::HousePicture);
        enqueue_tile(ctx, (Unit(6000), ground), &Tile::Couch);
        enqueue_ground(ctx);
        let dad_dead = state.murder_living_room.dad_dead;
        let dad = if dad_dead {
            Actor::Dad(Npc::Dead)
        } else if ctx.millis_elapsed() % 1000 < 500 {
            Actor::Dad(Npc::Idle)
        } else {
            Actor::Dad(Npc::IdleAlt)
        };
        enqueue_tile(ctx, (Unit(5000), ground), &dad);
        if dad_dead {
            enqueue_tile(ctx, (Unit(4000), ground), &Blood::SplatterRight);
            enqueue_tile(ctx, (Unit(5000), ground), &Blood::SplatterCenter);
            enqueue_tile(ctx, (Unit(6000), ground), &Blood::SplatterLeft);
        }
        proof {
            assert(ctx@.queue =~= old(ctx)@.queue + murder_living_room_picture(*state, old(ctx)@));
        }
    }
}

} // verus!
