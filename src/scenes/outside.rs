use vstd::prelude::*;

use super::{push_if, reached, Scenes};
use crate::ctx::{with_effect, with_music, Ctx, CtxView, Effect, Music};
use crate::logic::Unit;
use crate::resolver::{closest_within_distance, interact_distance, InteractableId, Item, Items};
use crate::ctx::{sprite_view, with_drawn, ItemView, Rgb};
use crate::helper::{
    draw_if, enqueue_grass, enqueue_ground, enqueue_item, enqueue_tile, grass_picture,
    ground_picture, item_view, tile_view,
};
use crate::logic::ground_level;
use crate::sprite::Tile;
use crate::state::{EndingChosen, State};

verus! {

/// Where the house starts, in milli-units.
pub const HOUSE_OFFSET_MILLIUNITS: i32 = 6000;

/// In front of the house.
#[derive(Clone, Copy, Debug)]
pub struct Outside;

/// What the player can interact with in this room.
#[derive(Clone, Copy, PartialEq, Eq, Structural, Debug)]
pub enum Interactables {
    Bike,
    Door,
    Ascension,
    Key,
}

impl Item for Interactables {
    open spec fn spec_id(&self) -> InteractableId {
        match self {
            Interactables::Bike => InteractableId(0),
            Interactables::Door => InteractableId(1),
            Interactables::Ascension => InteractableId(2),
            Interactables::Key => InteractableId(3),
        }
    }

    fn id(&self) -> (r: InteractableId) {
        match self {
            Interactables::Bike => InteractableId(0),
            Interactables::Door => InteractableId(1),
            Interactables::Ascension => InteractableId(2),
            Interactables::Key => InteractableId(3),
        }
    }
}

impl Interactables {
    /// The item with a given id of this room.
    pub fn from_id(id: InteractableId) -> (r: Interactables)
        requires
            id.0 < 4,
        ensures
            r.spec_id() == id,
    {
        match id.0 {
            0 => Interactables::Bike,
            1 => Interactables::Door,
            2 => Interactables::Ascension,
            _ => Interactables::Key,
        }
    }
}

/// The key until it is taken, then the door; the ascension once the child is
/// dead; the bike once the player escaped the dad and the child lives.
pub open spec fn outside_items(s: State) -> Seq<(Unit, InteractableId)> {
    let first = if s.outside.key_collected {
        seq![(Unit(7000), InteractableId(1))]
    } else {
        seq![(Unit(3000), InteractableId(3))]
    };
    let open_ending = s.ending_chosen is None;
    push_if(
        push_if(first, s.child_room.spec_child_dead() && open_ending, 3000, 2),
        s.living_room.has_escaped_dad && open_ending && !s.child_room.spec_child_dead(),
        1000,
        0,
    )
}

/// What interacting with item `id` does.
pub open spec fn outside_outcome(s: State, v: CtxView, id: InteractableId) -> (State, CtxView) {
    let v = with_effect(v, Effect::Interact);
    if id == InteractableId(3) {
        (State { outside: crate::state::Outside { key_collected: true }, ..s }, v)
    } else if id == InteractableId(2) {
        (State { ending_chosen: Some(EndingChosen::Ascended), ..s }, with_music(v, Music::Ascend))
    } else if id == InteractableId(1) {
        (
            State { scene_changed: Some((Unit(1000), Scenes::Entryway)), ..s },
            if s.living_room.has_escaped_dad {
                v
            } else {
                with_music(v, Music::Lemonhead)
            },
        )
    } else {
        (State { ending_chosen: Some(EndingChosen::Escaped), ..s }, v)
    }
}

/// What pressing interact at `position` does.
pub open spec fn outside_interaction(s: State, v: CtxView, position: Unit) -> (State, CtxView) {
    match reached(outside_items(s), position) {
        None => (s, v),
        Some(id) => outside_outcome(s, v, id),
    }
}

/// The three bricks of the house front, left to right.
pub open spec fn house_bricks(w: (u32, u32)) -> Seq<ItemView> {
    Seq::new(
        3,
        |i: int| tile_view(w, (Unit((HOUSE_OFFSET_MILLIUNITS + i * 1000) as i32), Unit(5000)), Tile::HouseBrick),
    )
}

/// The beam of the ascension, one frame per second in a four-second cycle.
pub open spec fn ascension_beam(elapsed_ms: u64) -> Tile {
    let phase = elapsed_ms % 4000;
    if phase < 1000 {
        Tile::Ascension0
    } else if phase < 2000 {
        Tile::Ascension1
    } else if phase < 3000 {
        Tile::Ascension2
    } else {
        Tile::Ascension3
    }
}

/// The house and its surroundings as drawn: the bike, the bricks, the grass,
/// the sun (a lemon once the child is dead), the roof, the door (open once the
/// key is taken), the ascension beam once the child is dead, and the key until
/// it is taken.
pub open spec fn outside_house_picture(s: State, v: CtxView) -> Seq<ItemView> {
    let w = v.window;
    let g = Unit(5000);
    let child_dead = s.child_room.spec_child_dead();
    let sun = if child_dead {
        Tile::LemonSun
    } else {
        Tile::Sun
    };
    let door = if s.outside.key_collected {
        Tile::DoorOpen
    } else {
        Tile::DoorClosed
    };
    let beam = ascension_beam(v.elapsed_ms);
    let ascension = if child_dead {
        seq![
            sprite_view(w, (Unit(3000), Unit(-2000i32)), (Unit(1000), Unit(4000)), beam),
            sprite_view(w, (Unit(3000), Unit(2000)), (Unit(1000), Unit(4000)), beam),
        ]
    } else {
        Seq::empty()
    };
    seq![tile_view(w, (Unit(1000), g), Tile::Bike)] + house_bricks(w) + grass_picture(w) + seq![
        tile_view(w, (Unit(1000), Unit(1000)), sun),
        tile_view(w, (Unit(6000), Unit(4000)), Tile::LeftTriangle),
        tile_view(w, (Unit(7000), Unit(4000)), Tile::Block),
        tile_view(w, (Unit(8000), Unit(4000)), Tile::RightTriangle),
        tile_view(w, (Unit(7000), g), door),
    ] + ascension + draw_if(!s.outside.key_collected, item_view(v, Tile::Key, Unit(3000)))
}

/// The room as drawn: a red sky once the child is dead, else white; the
/// house; the ground.
pub open spec fn outside_picture(s: State, v: CtxView) -> Seq<ItemView> {
    let sky = if s.child_room.spec_child_dead() {
        Rgb(217, 87, 99)
    } else {
        Rgb(255, 255, 255)
    };
    seq![ItemView::FillBackground(sky)] + outside_house_picture(s, v) + ground_picture(v.window)
}

impl Outside {
    pub fn prepare_items(&self, state: &State) -> (r: Items)
        ensures
            r@ == outside_items(*state),
    {
        let mut items = Items::new();
        if state.outside.key_collected {
            items.push(Unit(HOUSE_OFFSET_MILLIUNITS + 1000), Interactables::Door);
        } else {
            items.push(Unit(3000), Interactables::Key);
        }
        let child_dead = state.child_room.child_dead();
        let open_ending = state.ending_chosen.is_none();
        if child_dead && open_ending {
            items.push(Unit(3000), Interactables::Ascension);
        }
        if state.living_room.has_escaped_dad && open_ending && !child_dead {
            items.push(Unit(1000), Interactables::Bike);
        }
        items
    }

    pub fn interact(&self, ctx: &mut Ctx, state: &mut State, position: Unit)
        ensures
            (*final(state), final(ctx)@) == outside_interaction(*old(state), old(ctx)@, position),
    {
        let items = self.prepare_items(state);
        let id = match closest_within_distance(&items, position, interact_distance()) {
            None => return ,
            Some(id) => id,
        };
        ctx.play_effect(Effect::Interact);
        match Interactables::from_id(id) {
            Interactables::Key => state.outside.key_collected = true,
            Interactables::Ascension => {
                state.ending_chosen = Some(EndingChosen::Ascended);
                ctx.set_music(Music::Ascend);
            },
            Interactables::Door => {
                state.scene_changed = Some((Unit(1000), Scenes::Entryway));
                if !state.living_room.has_escaped_dad {
                    ctx.set_music(Music::Lemonhead);
                }
            },
            Interactables::Bike => {
                state.ending_chosen = Some(EndingChosen::Escaped);
            },
        }
    }

    fn enqueue_house(&self, ctx: &mut Ctx, state: &State)
        ensures
            final(ctx)@ == with_drawn(old(ctx)@, outside_house_picture(*state, old(ctx)@)),
    {
        let ground = ground_level();
        let child_dead = state.child_room.child_dead();
        enqueue_tile(ctx, (Unit(1000), ground), &Tile::Bike);
        let ghost bike = ctx@;
        let mut i: i32 = 0;
        while i <= 2
            invariant
                0 <= i <= 3,
                ground == Unit(5000),
                ctx@ == with_drawn(bike, house_bricks(bike.window).take(i as int)),
            decreases 3 - i,
        {
            enqueue_tile(ctx, (Unit(HOUSE_OFFSET_MILLIUNITS + i * 1000), ground), &Tile::HouseBrick);
            proof {
                let bricks = house_bricks(bike.window);
                assert((bike.queue + bricks.take(i as int)) + seq![bricks[i as int]] =~= bike.queue
                    + bricks.take(i + 1));
            }
            i = i + 1;
        }
        proof {
            assert(house_bricks(bike.window).take(3) =~= house_bricks(bike.window));
        }
        enqueue_grass(ctx);
        let sun = if child_dead {
            Tile::LemonSun
        } else {
            Tile::Sun
        };
        enqueue_tile(ctx, (Unit(1000), Unit(1000)), &sun);
        enqueue_tile(ctx, (Unit(HOUSE_OFFSET_MILLIUNITS), Unit(4000)), &Tile::LeftTriangle);
        enqueue_tile(ctx, (Unit(HOUSE_OFFSET_MILLIUNITS + 1000), Unit(4000)), &Tile::Block);
        enqueue_tile(ctx, (Unit(HOUSE_OFFSET_MILLIUNITS + 2000), Unit(4000)), &Tile::RightTriangle);
        let door = if state.outside.key_collected {
            Tile::DoorOpen
        } else {
            Tile::DoorClosed
        };
        enqueue_tile(ctx, (Unit(HOUSE_OFFSET_MILLIUNITS + 1000), ground), &door);
        if child_dead {
            let phase = ctx.millis_elapsed() % 4000;
            let beam = if phase < 1000 {
                Tile::Ascension0
            } else if phase < 2000 {
                Tile::Ascension1
            } else if phase < 3000 {
                Tile::Ascension2
            } else {
                Tile::Ascension3
            };
            ctx.enqueue_sprite((Unit(3000), Unit(-2000)), (Unit(1000), Unit(4000)), &beam);
            ctx.enqueue_sprite((Unit(3000), Unit(2000)), (Unit(1000), Unit(4000)), &beam);
        }
        if !state.outside.key_collected {
            enqueue_item(ctx, &Tile::Key, Unit(3000));
        }
        proof {
            assert(ctx@.queue =~= old(ctx)@.queue + outside_house_picture(*state, old(ctx)@));
        }
    }

    pub fn draw(&self, ctx: &mut Ctx, state: &State)
        ensures
            final(ctx)@ == with_drawn(old(ctx)@, outside_picture(*state, old(ctx)@)),
    {
        if state.child_room.child_dead() {
            ctx.enqueue_background_fill(Rgb(217, 87, 99));
        } else {
            ctx.enqueue_background_fill(Rgb(255, 255, 255));
        }
        self.enqueue_house(ctx, state);
        enqueue_ground(ctx);
        proof {
            assert(ctx@.queue =~= old(ctx)@.queue + outside_picture(*state, old(ctx)@));
        }
    }
}

} // verus!
