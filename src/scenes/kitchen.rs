use vstd::prelude::*;

use super::{push_if, reached, Scenes};
use crate::ctx::{with_effect, with_music, Ctx, CtxView, Effect, Music};
use crate::logic::Unit;
use crate::resolver::{closest_within_distance, interact_distance, InteractableId, Item, Items};
use crate::ctx::{with_drawn, ItemView};
use crate::helper::{
    draw_if, enqueue_ground, enqueue_item, enqueue_tile, enqueue_wallpaper, ground_picture,
    item_view, tile_view, wallpaper_picture,
};
use crate::logic::ground_level;
use crate::sprite::{Blood, Tile};
use crate::state::{all_set, State};

verus! {

/// The kitchen, where the weapon lies.
#[derive(Clone, Copy, Debug)]
pub struct Kitchen;

/// What the player can interact with in this room.
#[derive(Clone, Copy, PartialEq, Eq, Structural, Debug)]
pub enum Interactables {
    ExitDoor,
    LivingRoomDoor,
    Weapon,
    Coin0,
    Coin1,
    Coin2,
}

impl Item for Interactables {
    open spec fn spec_id(&self) -> InteractableId {
        match self {
            Interactables::ExitDoor => InteractableId(0),
            Interactables::LivingRoomDoor => InteractableId(1),
            Interactables::Weapon => InteractableId(2),
            Interactables::Coin0 => InteractableId(3),
            Interactables::Coin1 => InteractableId(4),
            Interactables::Coin2 => InteractableId(5),
        }
    }

    fn id(&self) -> (r: InteractableId) {
        match self {
            Interactables::ExitDoor => InteractableId(0),
            Interactables::LivingRoomDoor => InteractableId(1),
            Interactables::Weapon => InteractableId(2),
            Interactables::Coin0 => InteractableId(3),
            Interactables::Coin1 => InteractableId(4),
            Interactables::Coin2 => InteractableId(5),
        }
    }
}

impl Interactables {
    /// The item with a given id of this room.
    pub fn from_id(id: InteractableId) -> (r: Interactables)
        requires
            id.0 < 6,
        ensures
            r.spec_id() == id,
    {
        match id.0 {
            0 => Interactables::ExitDoor,
            1 => Interactables::LivingRoomDoor,
            2 => Interactables::Weapon,
            3 => Interactables::Coin0,
            4 => Interactables::Coin1,
            _ => Interactables::Coin2,
        }
    }
}

/// The player must take the weapon before leaving, once the dad was escaped.
pub open spec fn kitchen_locked(s: State) -> bool {
    s.living_room.has_escaped_dad && !s.kitchen.weapon_collected
}

/// The way back; the coins not yet taken; the living-room door once all are;
/// the weapon once the dad was escaped and until it is taken.
pub open spec fn kitchen_items(s: State) -> Seq<(Unit, InteractableId)> {
    let coins = s.kitchen.coins@;
    let with_coins = push_if(
        push_if(
            push_if(seq![(Unit(1000), InteractableId(0))], !coins[0], 3000, 3),
            !coins[1],
            4000,
            4,
        ),
        !coins[2],
        5000,
        5,
    );
    push_if(push_if(with_coins, all_set(coins), 8000, 1), kitchen_locked(s), 6000, 2)
}

/// `s2` and `v2` are what interacting with item `id` makes of `s` and `v`.
pub open spec fn kitchen_outcome(
    s: State,
    v: CtxView,
    id: InteractableId,
    s2: State,
    v2: CtxView,
) -> bool {
    let v1 = with_effect(v, Effect::Interact);
    if id == InteractableId(0) {
        &&& v2 == v1
        &&& s2 == if kitchen_locked(s) {
            s
        } else {
            State { scene_changed: Some((Unit(8000), Scenes::Entryway)), ..s }
        }
    } else if id == InteractableId(1) {
        &&& v2 == v1
        &&& s2 == if kitchen_locked(s) {
            s
        } else if s.kitchen.weapon_collected {
            State {
                murder_living_room: crate::state::MurderLivingRoom {
                    murderous_intent: true,
                    ..s.murder_living_room
                },
                scene_changed: Some((Unit(1000), Scenes::MurderLivingRoom)),
                ..s
            }
        } else {
            State { scene_changed: Some((Unit(1000), Scenes::LivingRoom)), ..s }
        }
    } else if id == InteractableId(2) {
        &&& s2 == State {
            kitchen: crate::state::Kitchen { weapon_collected: true, ..s.kitchen },
            ..s
        }
        &&& v2 == with_music(v1, Music::Heartbeat)
    } else {
        &&& s2 == State { kitchen: crate::state::Kitchen { coins: s2.kitchen.coins, ..s.kitchen }, ..s }
        &&& s2.kitchen.coins@ == s.kitchen.coins@.update(id.0 - 3, true)
        &&& v2 == v1
    }
}

/// `s2` and `v2` are what pressing interact at `position` makes of `s` and `v`.
pub open spec fn kitchen_interaction(
    s: State,
    v: CtxView,
    position: Unit,
    s2: State,
    v2: CtxView,
) -> bool {
    match reached(kitchen_items(s), position) {
        None => s2 == s && v2 == v,
        Some(id) => kitchen_outcome(s, v, id, s2, v2),
    }
}

/// The room as drawn: ground, brick wallpaper, door, oven, the night picture
/// (a lemon once the dad is dead), the living-room door (open once all coins
/// are taken), blood and writing once the dad is dead, the coins not yet
/// taken, and the weapon until it is taken.
pub open spec fn kitchen_picture(s: State, v: CtxView) -> Seq<ItemView> {
    let w = v.window;
    let g = Unit(5000);
    let dad_dead = s.murder_living_room.dad_dead;
    let coins = s.kitchen.coins@;
    let picture = if dad_dead {
        Tile::LemonNightPicture
    } else {
        Tile::TreeNightPicture
    };
    let door = if all_set(coins) {
        Tile::DoorOpen
    } else {
        Tile::DoorClosed
    };
    let blood = if dad_dead {
        seq![
            tile_view(w, (Unit(3000), g), Blood::SplatterRight),
            tile_view(w, (Unit(4000), g), Blood::SplatterLeft),
            tile_view(w, (Unit(6000), Unit(4000)), Blood::PraiseLemon),
        ]
    } else {
        Seq::empty()
    };
    ground_picture(w) + wallpaper_picture(w, Tile::KitchenBrick) + seq![
        tile_view(w, (Unit(1000), g), Tile::DoorOpen),
        tile_view(w, (Unit(3000), g), Tile::Oven),
        tile_view(w, (Unit(9000), g), picture),
        tile_view(w, (Unit(8000), g), door),
    ] + blood + draw_if(!coins[0], item_view(v, Tile::Coin, Unit(3000))) + draw_if(
        !coins[1],
        item_view(v, Tile::Coin, Unit(4000)),
    ) + draw_if(!coins[2], item_view(v, Tile::Coin, Unit(5000))) + draw_if(
        !s.kitchen.weapon_collected,
        item_view(v, Tile::Weapon, Unit(6000)),
    )
}

impl Kitchen {
    pub fn prepare_items(&self, state: &State) -> (r: Items)
        ensures
            r@ == kitchen_items(*state),
    {
        let mut items = Items::new();
        items.push(Unit(1000), Interactables::ExitDoor);
        if !state.kitchen.coins[0] {
            items.push(Unit(3000), Interactables::Coin0);
        }
        if !state.kitchen.coins[1] {
            items.push(Unit(4000), Interactables::Coin1);
        }
        if !state.kitchen.coins[2] {
            items.push(Unit(5000), Interactables::Coin2);
        }
        if state.kitchen.all_coins_collected() {
            items.push(Unit(8000), Interactables::LivingRoomDoor);
        }
        if state.living_room.has_escaped_dad && !state.kitchen.weapon_collected {
            items.push(Unit(6000), Interactables::Weapon);
        }
        items
    }

    pub fn interact(&self, ctx: &mut Ctx, state: &mut State, position: Unit)
        ensures
            kitchen_interaction(*old(state), old(ctx)@, position, *final(state), final(ctx)@),
    {
        let items = self.prepare_items(state);
        let id = match closest_within_distance(&items, position, interact_distance()) {
            None => return ,
            Some(id) => id,
        };
        ctx.play_effect(Effect::Interact);
        let locked = state.living_room.has_escaped_dad && !state.kitchen.weapon_collected;
        match Interactables::from_id(id) {
            Interactables::ExitDoor => {
                if locked {
                    return ;
                }
                state.scene_changed = Some((Unit(8000), Scenes::Entryway));
            },
            Interactables::Coin0 => state.kitchen.coins[0] = true,
            Interactables::Coin1 => state.kitchen.coins[1] = true,
            Interactables::Coin2 => state.kitchen.coins[2] = true,
            Interactables::Weapon => {
                state.kitchen.weapon_collected = true;
                ctx.set_music(Music::Heartbeat);
            },
            Interactables::LivingRoomDoor => {
                if locked {
                    return ;
                }
                let scene = if state.kitchen.weapon_collected {
                    state.murder_living_room.murderous_intent = true;
                    Scenes::MurderLivingRoom
                } else {
                    Scenes::LivingRoom
                };
                state.scene_changed = Some((Unit(1000), scene));
            },
        }
    }

    #[verifier::rlimit(60)]
    pub fn draw(&self, ctx: &mut Ctx, state: &State)
        ensures
            final(ctx)@ == with_drawn(old(ctx)@, kitchen_picture(*state, old(ctx)@)),
    {
        let ground = ground_level();
        let dad_dead = state.murder_living_room.dad_dead;
        enqueue_ground(ctx);
        enqueue_wallpaper(ctx, &Tile::KitchenBrick);
        enqueue_tile(ctx, (Unit(1000), ground), &Tile::DoorOpen);
        enqueue_tile(ctx, (Unit(3000), ground), &Tile::Oven);
        let picture = if dad_dead {
            Tile::LemonNightPicture
        } else {
            Tile::TreeNightPicture
        };
        enqueue_tile(ctx, (Unit(9000), ground), &picture);
        let living_room_door = if state.kitchen.all_coins_collected() {
            Tile::DoorOpen
        } else {
            Tile::DoorClosed
        };
        enqueue_tile(ctx, (Unit(8000), ground), &living_room_door);
        if dad_dead {
            enqueue_tile(ctx, (Unit(3000), ground), &Blood::SplatterRight);
            enqueue_tile(ctx, (Unit(4000), ground), &Blood::SplatterLeft);
            enqueue_tile(ctx, (Unit(6000), Unit(4000)), &Blood::PraiseLemon);
        }
        if !state.kitchen.coins[0] {
            enqueue_item(ctx, &Tile::Coin, Unit(3000));
        }
        if !state.kitchen.coins[1] {
            enqueue_item(ctx, &Tile::Coin, Unit(4000));
        }
        if !state.kitchen.coins[2] {
            enqueue_item(ctx, &Tile::Coin, Unit(5000));
        }
        if !state.kitchen.weapon_collected {
            enqueue_item(ctx, &Tile::Weapon, Unit(6000));
        }
        proof {
            assert(ctx@.queue =~= old(ctx)@.queue + kitchen_picture(*state, old(ctx)@));
        }
    }
}

} // verus!
