use vstd::prelude::*;

use crate::ctx::{with_drawn, Ctx, CtxView, ItemView};
use crate::logic::Unit;
use crate::resolver::{
    closest_spec, closest_within_distance, interact_distance, InteractableId, Items,
    INTERACT_DISTANCE_MILLIUNITS,
};
use crate::state::State;

pub mod child_room;
pub mod entryway;
pub mod kitchen;


pub mod living_room;
pub mod murder_living_room;
pub mod outside;
pub mod tutorial;

verus! {

/// The rooms of the game; exactly one is active at a time.
#[derive(Clone, Copy, PartialEq, Eq, Structural, Debug)]
pub enum Scenes {
    Tutorial,
    Entryway,
    LivingRoom,
    MurderLivingRoom,
    Outside,
    Kitchen,
    ChildRoom,
}

/// The item the player reaches from `position`, with the standard threshold.
pub open spec fn reached(items: Seq<(Unit, InteractableId)>, position: Unit) -> Option<
    InteractableId,
> {
    closest_spec(items, position, Unit(INTERACT_DISTANCE_MILLIUNITS))
}

/// `items` with one more item appended when `cond` holds.
pub open spec fn push_if(
    items: Seq<(Unit, InteractableId)>,
    cond: bool,
    position: i32,
    id: u8,
) -> Seq<(Unit, InteractableId)> {
    if cond {
        items.push((Unit(position), InteractableId(id)))
    } else {
        items
    }
}

/// The items of the active room for a state.
pub open spec fn scene_items(scene: Scenes, s: State) -> Seq<(Unit, InteractableId)> {
    match scene {
        Scenes::Tutorial => tutorial::tutorial_items(s),
        Scenes::Entryway => entryway::entryway_items(s),
        Scenes::LivingRoom => living_room::living_room_items(s),
        Scenes::MurderLivingRoom => murder_living_room::murder_living_room_items(s),
        Scenes::Outside => outside::outside_items(s),
        Scenes::Kitchen => kitchen::kitchen_items(s),
        Scenes::ChildRoom => child_room::child_room_items(s),
    }
}

/// `s2` and `v2` are what pressing interact at `position` in `scene` makes of
/// `s` and `v`.
pub open spec fn scene_interaction(
    scene: Scenes,
    s: State,
    v: CtxView,
    position: Unit,
    s2: State,
    v2: CtxView,
) -> bool {
    match scene {
        Scenes::Tutorial => (s2, v2) == tutorial::tutorial_interaction(s, v, position),
        Scenes::Entryway => entryway::entryway_interaction(s, v, position, s2, v2),
        Scenes::LivingRoom => living_room::living_room_interaction(s, v, position, s2, v2),
        Scenes::MurderLivingRoom => (s2, v2)
            == murder_living_room::murder_living_room_interaction(s, v, position),
        Scenes::Outside => (s2, v2) == outside::outside_interaction(s, v, position),
        Scenes::Kitchen => kitchen::kitchen_interaction(s, v, position, s2, v2),
        Scenes::ChildRoom => (s2, v2) == child_room::child_room_interaction(s, v, position),
    }
}

/// What the active room draws for a state.
pub open spec fn scene_picture(scene: Scenes, s: State, v: CtxView) -> Seq<ItemView> {
    match scene {
        Scenes::Tutorial => tutorial::tutorial_picture(s, v),
        Scenes::Entryway => entryway::entryway_picture(s, v),
        Scenes::LivingRoom => living_room::living_room_picture(s, v),
        Scenes::MurderLivingRoom => murder_living_room::murder_living_room_picture(s, v),
        Scenes::Outside => outside::outside_picture(s, v),
        Scenes::Kitchen => kitchen::kitchen_picture(s, v),
        Scenes::ChildRoom => child_room::child_room_picture(s, v),
    }
}

/// Whether the interaction prompt is shown in `scene` at `position`.
pub open spec fn prompt_shown(scene: Scenes, s: State, position: Unit) -> bool {
    reached(scene_items(scene, s), position) is Some
}

impl Scenes {
    pub fn prepare_items(&self, state: &State) -> (r: Items)
        ensures
            r@ == scene_items(*self, *state),
    {
        match self {
            Scenes::Tutorial => tutorial::Tutorial.prepare_items(state),
            Scenes::Entryway => entryway::Entryway.prepare_items(state),
            Scenes::LivingRoom => living_room::LivingRoom.prepare_items(state),
            Scenes::MurderLivingRoom => murder_living_room::MurderLivingRoom.prepare_items(state),
            Scenes::Outside => outside::Outside.prepare_items(state),
            Scenes::Kitchen => kitchen::Kitchen.prepare_items(state),
            Scenes::ChildRoom => child_room::ChildRoom.prepare_items(state),
        }
    }

    /// The item the player would interact with from `position`.
    pub fn closest_item_within_distance(&self, state: &State, position: Unit) -> (r: Option<
        InteractableId,
    >)
        ensures
            r == reached(scene_items(*self, *state), position),
    {
        let items = self.prepare_items(state);
        closest_within_distance(&items, position, interact_distance())
    }

    /// Whether to show the interaction prompt: exactly when there is an item
    /// to interact with.
    pub fn should_draw_interact_popup(&self, state: &State, position: Unit) -> (r: bool)
        ensures
            r == prompt_shown(*self, *state, position),
    {
        self.closest_item_within_distance(state, position).is_some()
    }

    /// Queues the active room's picture for this frame.
    pub fn draw(&self, ctx: &mut Ctx, state: &State)
        ensures
            final(ctx)@ == with_drawn(old(ctx)@, scene_picture(*self, *state, old(ctx)@)),
    {
        match self {
            Scenes::Tutorial => tutorial::Tutorial.draw(ctx, state),
            Scenes::Entryway => entryway::Entryway.draw(ctx, state),
            Scenes::LivingRoom => living_room::LivingRoom.draw(ctx, state),
            Scenes::MurderLivingRoom => murder_living_room::MurderLivingRoom.draw(ctx, state),
            Scenes::Outside => outside::Outside.draw(ctx, state),
            Scenes::Kitchen => kitchen::Kitchen.draw(ctx, state),
            Scenes::ChildRoom => child_room::ChildRoom.draw(ctx, state),
        }
    }

    pub fn interact(&self, ctx: &mut Ctx, state: &mut State, position: Unit)
        ensures
            scene_interaction(*self, *old(state), old(ctx)@, position, *final(state), final(ctx)@),
    {
        match self {
            Scenes::Tutorial => tutorial::Tutorial.interact(ctx, state, position),
            Scenes::Entryway => entryway::Entryway.interact(ctx, state, position),
            Scenes::LivingRoom => living_room::LivingRoom.interact(ctx, state, position),
            Scenes::MurderLivingRoom => murder_living_room::MurderLivingRoom.interact(
                ctx,
                state,
                position,
            ),
            Scenes::Outside => outside::Outside.interact(ctx, state, position),
            Scenes::Kitchen => kitchen::Kitchen.interact(ctx, state, position),
            Scenes::ChildRoom => child_room::ChildRoom.interact(ctx, state, position),
        }
    }
}

/// In every room, state and position, interacting where no prompt is shown
/// changes nothing.
pub proof fn lemma_prompt_agrees_with_interaction(
    scene: Scenes,
    s: State,
    v: CtxView,
    position: Unit,
    s2: State,
    v2: CtxView,
)
    requires
        scene_interaction(scene, s, v, position, s2, v2),
    ensures
        !prompt_shown(scene, s, position) ==> s2 == s && v2 == v,
{
}

} // verus!
