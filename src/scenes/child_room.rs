use vstd::prelude::*;

use super::{push_if, reached, Scenes};
use crate::ctx::{with_effect, with_music, with_music_stopped, Ctx, CtxView, Effect, Music};
use crate::logic::Unit;
use crate::resolver::{closest_within_distance, interact_distance, InteractableId, Item, Items};
use crate::ctx::{with_drawn, ItemView};
use crate::helper::{
    draw_if, enqueue_ground, enqueue_tile, enqueue_wallpaper, ground_picture, tile_view,
    wallpaper_picture,
};
use crate::logic::ground_level;
use crate::sprite::{Actor, Blood, Npc, Tile};
use crate::state::State;

verus! {

/// Number of stabs after which the child stops reacting.
pub const MAX_CHILD_STABS: u8 = 3;

/// The child's bedroom.
#[derive(Clone, Copy, Debug)]
pub struct ChildRoom;

/// What the player can interact with in this room.
#[derive(Clone, Copy, PartialEq, Eq, Structural, Debug)]
pub enum Interactables {
    ExitDoor,
    Child,
}

impl Item for Interactables {
    open spec fn spec_id(&self) -> InteractableId {
        match self {
            Interactables::ExitDoor => InteractableId(0),
            Interactables::Child => InteractableId(1),
        }
    }

    fn id(&self) -> (r: InteractableId) {
        match self {
            Interactables::ExitDoor => InteractableId(0),
            Interactables::Child => InteractableId(1),
        }
    }
}

impl Interactables {
    /// The item with a given id of this room.
    pub fn from_id(id: InteractableId) -> (r: Interactables)
        requires
            id.0 < 2,
        ensures
            r.spec_id() == id,
    {
        match id.0 {
            0 => Interactables::ExitDoor,
            _ => Interactables::Child,
        }
    }
}

/// The child until the third stab; the door once the first one fell.
pub open spec fn child_room_items(s: State) -> Seq<(Unit, InteractableId)> {
    push_if(
        push_if(Seq::empty(), s.child_room.child_stabs < 3, 5000, 1),
        s.child_room.child_stabs > 0,
        1000,
        0,
    )
}

/// The music after the `n`-th stab.
pub open spec fn after_stab(v: CtxView, n: int) -> CtxView {
    if n == 1 {
        with_music(v, Music::HeartbeatChild)
    } else if n == 2 {
        with_music(v, Music::Heartbeat)
    } else {
        with_music_stopped(v)
    }
}

/// What interacting with item `id` does.
pub open spec fn child_room_outcome(s: State, v: CtxView, id: InteractableId) -> (State, CtxView) {
    if id == InteractableId(0) {
        let v = with_effect(v, Effect::Interact);
        if s.child_room.child_stabs < 3 {
            (s, v)
        } else {
            (State { scene_changed: Some((Unit(4000), Scenes::Entryway)), ..s }, v)
        }
    } else {
        let n = s.child_room.child_stabs + 1;
        (
            State { child_room: crate::state::ChildRoom { child_stabs: n as u8 }, ..s },
            after_stab(with_effect(v, Effect::Stab), n),
        )
    }
}

/// What pressing interact at `position` does.
pub open spec fn child_room_interaction(s: State, v: CtxView, position: Unit) -> (State, CtxView) {
    match reached(child_room_items(s), position) {
        None => (s, v),
        Some(id) => child_room_outcome(s, v, id),
    }
}

/// The child's frame: dead once stabbed, else idling with the second pose in
/// the second half of each second.
pub open spec fn child_frame(s: State, elapsed_ms: u64) -> Actor {
    if s.child_room.child_stabs > 0 {
        Actor::Child(Npc::Dead)
    } else if elapsed_ms % 1000 < 500 {
        Actor::Child(Npc::Idle)
    } else {
        Actor::Child(Npc::IdleAlt)
    }
}

/// The room as drawn: dotted wallpaper, door, poster, desk, chair and bed, the
/// ground, the child, then one blood decal per stab (centre, right, left).
pub open spec fn child_room_picture(s: State, v: CtxView) -> Seq<ItemView> {
    let w = v.window;
    let g = Unit(5000);
    let stabs = s.child_room.child_stabs;
    wallpaper_picture(w, Tile::DotWallpaper) + seq![
        tile_view(w, (Unit(1000), g), Tile::DoorOpen),
        tile_view(w, (Unit(3000), g), Tile::ChildPoster),
        tile_view(w, (Unit(4000), g), Tile::Computer),
        tile_view(w, (Unit(4000), g), Tile::OfficeChair),
        tile_view(w, (Unit(6000), g), Tile::Bed),
    ] + ground_picture(w) + seq![tile_view(w, (Unit(5000), g), child_frame(s, v.elapsed_ms))]
        + draw_if(stabs > 0, tile_view(w, (Unit(5000), g), Blood::SplatterCenter))
        + draw_if(stabs > 1, tile_view(w, (Unit(4000), g), Blood::SplatterRight))
        + draw_if(stabs > 2, tile_view(w, (Unit(6000), g), Blood::SplatterLeft))
}

impl ChildRoom {
    pub fn prepare_items(&self, state: &State) -> (r: Items)
        ensures
            r@ == child_room_items(*state),
    {
        let mut items = Items::new();
        if state.child_room.child_stabs < MAX_CHILD_STABS {
            items.push(Unit(5000), Interactables::Child);
        }
        if state.child_room.child_stabs > 0 {
            items.push(Unit(1000), Interactables::ExitDoor);
        }
        items
    }

    pub fn interact(&self, ctx: &mut Ctx, state: &mut State, position: Unit)
        ensures
            (*final(state), final(ctx)@) == child_room_interaction(
                *old(state),
                old(ctx)@,
                position,
            ),
    {
        let items = self.prepare_items(state);
        let id = match closest_within_distance(&items, position, interact_distance()) {
            None => return ,
            Some(id) => id,
        };
        match Interactables::from_id(id) {
            Interactables::ExitDoor => {
                ctx.play_effect(Effect::Interact);
                if state.child_room.child_stabs < MAX_CHILD_STABS {
                    return ;
                }
                state.scene_changed = Some((Unit(4000), Scenes::Entryway));
            },
            Interactables::Child => {
                ctx.play_effect(Effect::Stab);
                state.child_room.child_stabs = state.child_room.child_stabs + 1;
                if state.child_room.child_stabs == 1 {
                    ctx.set_music(Music::HeartbeatChild);
                } else if state.child_room.child_stabs == 2 {
                    ctx.set_music(Music::Heartbeat);
                } else {
                    ctx.stop_music();
                }
            },
        }
    }

    pub fn draw(&self, ctx: &mut Ctx, state: &State)
        ensures
            final(ctx)@ == with_drawn(old(ctx)@, child_room_picture(*state, old(ctx)@)),
    {
        let ground = ground_level();
        enqueue_wallpaper(ctx, &Tile::DotWallpaper);
        enqueue_tile(ctx, (Unit(1000), ground), &Tile::DoorOpen);
        enqueue_tile(ctx, (Unit(3000), ground), &Tile::ChildPoster);
        enqueue_tile(ctx, (Unit(4000), ground), &Tile::Computer);
        enqueue_tile(ctx, (Unit(4000), ground), &Tile::OfficeChair);
        enqueue_tile(ctx, (Unit(6000), ground), &Tile::Bed);
        enqueue_ground(ctx);
        let stabs = state.child_room.child_stabs;
        let child = if state.child_room.child_dead() {
            Actor::Child(Npc::Dead)
        } else if ctx.millis_elapsed() % 1000 < 500 {
            Actor::Child(Npc::Idle)
        } else {
            Actor::Child(Npc::IdleAlt)
        };
        enqueue_tile(ctx, (Unit(5000), ground), &child);
        if stabs > 0 {
            enqueue_tile(ctx, (Unit(5000), ground), &Blood::SplatterCenter);
        }
        if stabs > 1 {
            enqueue_tile(ctx, (Unit(4000), ground), &Blood::SplatterRight);
        }
        if stabs > 2 {
            enqueue_tile(ctx, (Unit(6000), ground), &Blood::SplatterLeft);
        }
        proof {
            assert(ctx@.queue =~= old(ctx)@.queue + child_room_picture(*state, old(ctx)@));
        }
    }
}

} // verus!
