use vstd::prelude::*;

use super::{push_if, reached, Scenes};
use crate::ctx::{with_effect, with_music, Ctx, CtxView, Effect, Music};
use crate::logic::Unit;
use crate::resolver::{closest_within_distance, interact_distance, InteractableId, Item, Items};
use crate::ctx::{with_drawn, ItemView};
use crate::helper::{
    draw_if, enqueue_ground, enqueue_item, enqueue_tile, enqueue_wallpaper, ground_picture,
    item_view, tile_view, wallpaper_picture,
};
use crate::logic::ground_level;
use crate::sprite::{Blood, Tile};
use crate::state::{all_set, State};

verus! {

/// The hall inside the front door.
#[derive(Clone, Copy, Debug)]
pub struct Entryway;

/// What the player can interact with in this room.
#[derive(Clone, Copy, PartialEq, Eq, Structural, Debug)]
pub enum Interactables {
    KitchenDoor,
    ExitDoor,
    ChildDoor,
    Coin0,
    Coin1,
    Coin2,
    Coin3,
}

impl Item for Interactables {
    open spec fn spec_id(&self) -> InteractableId {
        match self {
            Interactables::KitchenDoor => InteractableId(0),
            Interactables::ExitDoor => InteractableId(1),
            Interactables::ChildDoor => InteractableId(2),
            Interactables::Coin0 => InteractableId(3),
            Interactables::Coin1 => InteractableId(4),
            Interactables::Coin2 => InteractableId(5),
            Interactables::Coin3 => InteractableId(6),
        }
    }

    fn id(&self) -> (r: InteractableId) {
        match self {
            Interactables::KitchenDoor => InteractableId(0),
            Interactables::ExitDoor => InteractableId(1),
            Interactables::ChildDoor => InteractableId(2),
            Interactables::Coin0 => InteractableId(3),
            Interactables::Coin1 => InteractableId(4),
            Interactables::Coin2 => InteractableId(5),
            Interactables::Coin3 => InteractableId(6),
        }
    }
}

impl Interactables {
    /// The item with a given id of this room.
    pub fn from_id(id: InteractableId) -> (r: Interactables)
        requires
            id.0 < 7,
        ensures
            r.spec_id() == id,
    {
        match id.0 {
            0 => Interactables::KitchenDoor,
            1 => Interactables::ExitDoor,
            2 => Interactables::ChildDoor,
            3 => Interactables::Coin0,
            4 => Interactables::Coin1,
            5 => Interactables::Coin2,
            _ => Interactables::Coin3,
        }
    }
}

/// The way out; the coins not yet taken; the kitchen door once all are; the
/// child's door once the dad is dead.
pub open spec fn entryway_items(s: State) -> Seq<(Unit, InteractableId)> {
    let coins = s.entryway.coins@;
    let with_coins = push_if(
        push_if(
            push_if(
                push_if(seq![(Unit(1000), InteractableId(1))], !coins[0], 3000, 3),
                !coins[1],
                4000,
                4,
            ),
            !coins[2],
            5000,
            5,
        ),
        !coins[3],
        6000,
        6,
    );
    push_if(
        push_if(with_coins, all_set(coins), 8000, 0),
        s.murder_living_room.dad_dead,
        4000,
        2,
    )
}

/// `s2` and `v2` are what interacting with item `id` makes of `s` and `v`.
pub open spec fn entryway_outcome(
    s: State,
    v: CtxView,
    id: InteractableId,
    s2: State,
    v2: CtxView,
) -> bool {
    let v1 = with_effect(v, Effect::Interact);
    let child_dead = s.child_room.spec_child_dead();
    if id == InteractableId(1) {
        if s.murder_living_room.dad_dead && !child_dead {
            s2 == s && v2 == v1
        } else {
            &&& s2 == State { scene_changed: Some((Unit(7000), Scenes::Outside)), ..s }
            &&& v2 == if child_dead {
                v1
            } else {
                with_music(v1, Music::Outside)
            }
        }
    } else if id == InteractableId(2) {
        &&& s2 == State { scene_changed: Some((Unit(1000), Scenes::ChildRoom)), ..s }
        &&& v2 == with_music(v1, Music::HeartbeatChildWithLemon)
    } else if id == InteractableId(0) {
        s2 == State { scene_changed: Some((Unit(1000), Scenes::Kitchen)), ..s } && v2 == v1
    } else {
        &&& s2 == State { entryway: crate::state::Entryway { coins: s2.entryway.coins }, ..s }
        &&& s2.entryway.coins@ == s.entryway.coins@.update(id.0 - 3, true)
        &&& v2 == v1
    }
}

/// `s2` and `v2` are what pressing interact at `position` makes of `s` and `v`.
pub open spec fn entryway_interaction(
    s: State,
    v: CtxView,
    position: Unit,
    s2: State,
    v2: CtxView,
) -> bool {
    match reached(entryway_items(s), position) {
        None => s2 == s && v2 == v,
        Some(id) => entryway_outcome(s, v, id, s2, v2),
    }
}

/// The room as drawn: ground, striped wallpaper, the front door, the pictures
/// (the tree turns into a lemon once the child is dead), blood once the dad is
/// dead, the kitchen door (open once all coins are taken), the child's door
/// (open once the dad is dead, with a sticker before), the pentagram between
/// the dad's and the child's death, and the coins not yet taken.
pub open spec fn entryway_picture(s: State, v: CtxView) -> Seq<ItemView> {
    let w = v.window;
    let g = Unit(5000);
    let dad_dead = s.murder_living_room.dad_dead;
    let coins = s.entryway.coins@;
    let picture = if s.child_room.child_stabs > 0 {
        Tile::LemonDayPicture
    } else {
        Tile::TreeDayPicture
    };
    let kitchen_door = if all_set(coins) {
        Tile::DoorOpen
    } else {
        Tile::DoorClosed
    };
    let child_door = if dad_dead {
        Tile::DoorOpen
    } else {
        Tile::DoorClosed
    };
    ground_picture(w) + wallpaper_picture(w, Tile::StripeWallpaper) + seq![
        tile_view(w, (Unit(1000), g), Tile::DoorOpen),
        tile_view(w, (Unit(7000), g), picture),
        tile_view(w, (Unit(2000), g), Tile::HousePicture),
    ] + draw_if(dad_dead, tile_view(w, (Unit(2000), g), Blood::SplatterCenter)) + seq![
        tile_view(w, (Unit(8000), g), kitchen_door),
        tile_view(w, (Unit(4000), g), child_door),
    ] + draw_if(!dad_dead, tile_view(w, (Unit(4000), g), Tile::ChildSticker)) + draw_if(
        dad_dead && s.child_room.child_stabs == 0,
        tile_view(w, (Unit(4000), Unit(4000)), Blood::Pentagram),
    ) + draw_if(!coins[0], item_view(v, Tile::Coin, Unit(3000))) + draw_if(
        !coins[1],
        item_view(v, Tile::Coin, Unit(4000)),
    ) + draw_if(!coins[2], item_view(v, Tile::Coin, Unit(5000))) + draw_if(
        !coins[3],
        item_view(v, Tile::Coin, Unit(6000)),
    )
}

impl Entryway {
    pub fn prepare_items(&self, state: &State) -> (r: Items)
        ensures
            r@ == entryway_items(*state),
    {
        let mut items = Items::new();
        items.push(Unit(1000), Interactables::ExitDoor);
        if !state.entryway.coins[0] {
            items.push(Unit(3000), Interactables::Coin0);
        }
        if !state.entryway.coins[1] {
            items.push(Unit(4000), Interactables::Coin1);
        }
        if !state.entryway.coins[2] {
            items.push(Unit(5000), Interactables::Coin2);
        }
        if !state.entryway.coins[3] {
            items.push(Unit(6000), Interactables::Coin3);
        }
        if state.entryway.all_coins_collected() {
            items.push(Unit(8000), Interactables::KitchenDoor);
        }
        if state.murder_living_room.dad_dead {
            items.push(Unit(4000), Interactables::ChildDoor);
        }
        items
    }

    pub fn interact(&self, ctx: &mut Ctx, state: &mut State, position: Unit)
        ensures
            entryway_interaction(*old(state), old(ctx)@, position, *final(state), final(ctx)@),
    {
        let items = self.prepare_items(state);
        let id = match closest_within_distance(&items, position, interact_distance()) {
            None => return ,
            Some(id) => id,
        };
        ctx.play_effect(Effect::Interact);
        match Interactables::from_id(id) {
            Interactables::ExitDoor => {
                let child_dead = state.child_room.child_dead();
                if state.murder_living_room.dad_dead && !child_dead {
                    return ;
                }
                state.scene_changed = Some((Unit(7000), Scenes::Outside));
                if !child_dead {
                    ctx.set_music(Music::Outside);
                }
            },
            Interactables::Coin0 => state.entryway.coins[0] = true,
            Interactables::Coin1 => state.entryway.coins[1] = true,
            Interactables::Coin2 => state.entryway.coins[2] = true,
            Interactables::Coin3 => state.entryway.coins[3] = true,
            Interactables::ChildDoor => {
                ctx.set_music(Music::HeartbeatChildWithLemon);
                state.scene_changed = Some((Unit(1000), Scenes::ChildRoom));
            },
            Interactables::KitchenDoor => {
                state.scene_changed = Some((Unit(1000), Scenes::Kitchen));
            },
        }
    }

    #[verifier::rlimit(60)]
    pub fn draw(&self, ctx: &mut Ctx, state: &State)
        ensures
            final(ctx)@ == with_drawn(old(ctx)@, entryway_picture(*state, old(ctx)@)),
    {
        let ground = ground_level();
        let dad_dead = state.murder_living_room.dad_dead;
        enqueue_ground(ctx);
        enqueue_wallpaper(ctx, &Tile::StripeWallpaper);
        enqueue_tile(ctx, (Unit(1000), ground), &Tile::DoorOpen);
        let picture = if state.child_room.child_stabs > 0 {
            Tile::LemonDayPicture
        } else {
            Tile::TreeDayPicture
        };
        enqueue_tile(ctx, (Unit(7000), ground), &picture);
        enqueue_tile(ctx, (Unit(2000), ground), &Tile::HousePicture);
        if dad_dead {
            enqueue_tile(ctx, (Unit(2000), ground), &Blood::SplatterCenter);
        }
        let kitchen_door = if state.entryway.all_coins_collected() {
            Tile::DoorOpen
        } else {
            Tile::DoorClosed
        };
        enqueue_tile(ctx, (Unit(8000), ground), &kitchen_door);
        let child_door = if dad_dead {
            Tile::DoorOpen
        } else {
            Tile::DoorClosed
        };
        enqueue_tile(ctx, (Unit(4000), ground), &child_door);
        if !dad_dead {
            enqueue_tile(ctx, (Unit(4000), ground), &Tile::ChildSticker);
        }
        if dad_dead && state.child_room.child_stabs == 0 {
            enqueue_tile(ctx, (Unit(4000), Unit(4000)), &Blood::Pentagram);
        }
        if !state.entryway.coins[0] {
            enqueue_item(ctx, &Tile::Coin, Unit(3000));
        }
        if !state.entryway.coins[1] {
            enqueue_item(ctx, &Tile::Coin, Unit(4000));
        }
        if !state.entryway.coins[2] {
            enqueue_item(ctx, &Tile::Coin, Unit(5000));
        }
        if !state.entryway.coins[3] {
            enqueue_item(ctx, &Tile::Coin, Unit(6000));
        }
        proof {
            assert(ctx@.queue =~= old(ctx)@.queue + entryway_picture(*state, old(ctx)@));
        }
    }
}

} // verus!
