use vstd::prelude::*;

use super::{reached, Scenes};
use crate::ctx::{with_effect, Ctx, CtxView, Effect};
use crate::logic::Unit;
use crate::resolver::{closest_within_distance, interact_distance, InteractableId, Item, Items};
use crate::ctx::{sprite_view, with_drawn, ItemView, Rgb};
use crate::helper::{
    draw_if, enqueue_grass, enqueue_ground, enqueue_item, enqueue_tile, grass_picture,
    ground_picture, item_view, tile_view,
};
use crate::logic::ground_level;
use crate::sprite::Tile;
use crate::state::State;

verus! {

/// The opening room: pick up the coin, then ride the bike away.
#[derive(Clone, Copy, Debug)]
pub struct Tutorial;

/// What the player can interact with in this room.
#[derive(Clone, Copy, PartialEq, Eq, Structural, Debug)]
pub enum Interactables {
    Bike,
    Coin,
}

impl Item for Interactables {
    open spec fn spec_id(&self) -> InteractableId {
        match self {
            Interactables::Bike => InteractableId(0),
            Interactables::Coin => InteractableId(1),
        }
    }

    fn id(&self) -> (r: InteractableId) {
        match self {
            Interactables::Bike => InteractableId(0),
            Interactables::Coin => InteractableId(1),
        }
    }
}

impl Interactables {
    /// The item with a given id of this room.
    pub fn from_id(id: InteractableId) -> (r: Interactables)
        requires
            id.0 < 2,
        ensures
            r.spec_id() == id,
    {
        match id.0 {
            0 => Interactables::Bike,
            _ => Interactables::Coin,
        }
    }
}

/// The coin until it is taken, then the bike.
pub open spec fn tutorial_items(s: State) -> Seq<(Unit, InteractableId)> {
    if s.tutorial.coin {
        seq![(Unit(8000), InteractableId(0))]
    } else {
        seq![(Unit(4000), InteractableId(1))]
    }
}

/// What interacting with item `id` does.
pub open spec fn tutorial_outcome(s: State, v: CtxView, id: InteractableId) -> (State, CtxView) {
    let v = with_effect(v, Effect::Interact);
    if id == InteractableId(1) {
        (State { tutorial: crate::state::Tutorial { coin: true }, ..s }, v)
    } else {
        (State { scene_changed: Some((Unit(1000), Scenes::Outside)), ..s }, v)
    }
}

/// What pressing interact at `position` does.
pub open spec fn tutorial_interaction(s: State, v: CtxView, position: Unit) -> (State, CtxView) {
    match reached(tutorial_items(s), position) {
        None => (s, v),
        Some(id) => tutorial_outcome(s, v, id),
    }
}

/// The room as drawn: white sky, ground, bike, grass, sun, the introduction
/// (or, once the coin is taken, the reminder), and the coin until it is taken.
pub open spec fn tutorial_picture(s: State, v: CtxView) -> Seq<ItemView> {
    let w = v.window;
    let text = if !s.tutorial.coin {
        seq![
            sprite_view(w, (Unit(3000), Unit(2000)), (Unit(4000), Unit(1000)), Tile::IntroductionText),
            sprite_view(
                w,
                (Unit(1000), Unit(3000)),
                (Unit(8000), Unit(1000)),
                Tile::IntroductionGoalsText,
            ),
        ]
    } else {
        seq![
            sprite_view(w, (Unit(2000), Unit(2500)), (Unit(6000), Unit(1000)), Tile::RememberText),
            sprite_view(w, (Unit(6000), Unit(9250)), (Unit(1000), Unit(500)), Tile::VoicesText),
        ]
    };
    seq![ItemView::FillBackground(Rgb(255, 255, 255))] + ground_picture(w) + seq![
        tile_view(w, (Unit(8000), Unit(5000)), Tile::Bike),
    ] + grass_picture(w) + seq![tile_view(w, (Unit(1000), Unit(1000)), Tile::Sun)] + text
        + draw_if(!s.tutorial.coin, item_view(v, Tile::Coin, Unit(4000)))
}

impl Tutorial {
    pub fn prepare_items(&self, state: &State) -> (r: Items)
        ensures
            r@ == tutorial_items(*state),
    {
        let mut items = Items::new();
        if state.tutorial.coin {
            items.push(Unit(8000), Interactables::Bike);
        } else {
            items.push(Unit(4000), Interactables::Coin);
        }
        items
    }

    pub fn interact(&self, ctx: &mut Ctx, state: &mut State, position: Unit)
        ensures
            (*final(state), final(ctx)@) == tutorial_interaction(*old(state), old(ctx)@, position),
    {
        let items = self.prepare_items(state);
        let id = match closest_within_distance(&items, position, interact_distance()) {
            None => return ,
            Some(id) => id,
        };
        ctx.play_effect(Effect::Interact);
        match Interactables::from_id(id) {
            Interactables::Coin => state.tutorial.coin = true,
            Interactables::Bike => state.scene_changed = Some((Unit(1000), Scenes::Outside)),
        }
    }

    pub fn draw(&self, ctx: &mut Ctx, state: &State)
        ensures
            final(ctx)@ == with_drawn(old(ctx)@, tutorial_picture(*state, old(ctx)@)),
    {
        ctx.enqueue_background_fill(Rgb(255, 255, 255));
        enqueue_ground(ctx);
        enqueue_tile(ctx, (Unit(8000), ground_level()), &Tile::Bike);
        enqueue_grass(ctx);
        enqueue_tile(ctx, (Unit(1000), Unit(1000)), &Tile::Sun);
        if !state.tutorial.coin {
            ctx.enqueue_sprite((Unit(3000), Unit(2000)), (Unit(4000), Unit(1000)), &Tile::IntroductionText);
            ctx.enqueue_sprite(
                (Unit(1000), Unit(3000)),
                (Unit(8000), Unit(1000)),
                &Tile::IntroductionGoalsText,
            );
        } else {
            ctx.enqueue_sprite((Unit(2000), Unit(2500)), (Unit(6000), Unit(1000)), &Tile::RememberText);
            ctx.enqueue_sprite((Unit(6000), Unit(9250)), (Unit(1000), Unit(500)), &Tile::VoicesText);
        }
        if !state.tutorial.coin {
            enqueue_item(ctx, &Tile::Coin, Unit(4000));
        }
        proof {
            assert(ctx@.queue =~= old(ctx)@.queue + tutorial_picture(*state, old(ctx)@));
        }
    }
}

} // verus!
