use vstd::prelude::*;

use crate::logic::{abs_int, Unit};

verus! {

/// Largest distance, exclusive, in milli-units, at which the player can
/// interact with an item.
pub const INTERACT_DISTANCE_MILLIUNITS: i32 = 500;

/// The room-local identity of an interactable item.
#[derive(PartialEq, Eq, Structural, Clone, Copy, Debug)]
pub struct InteractableId(pub u8);

/// Something the player can interact with; each room has its own kinds.
pub trait Item {
    spec fn spec_id(&self) -> InteractableId;

    fn id(&self) -> (r: InteractableId)
        ensures
            r == self.spec_id(),
    ;
}

/// The interactable items of a room for one frame, each with its position.
pub struct Items(pub Vec<(Unit, InteractableId)>);

impl View for Items {
    type V = Seq<(Unit, InteractableId)>;

    open spec fn view(&self) -> Seq<(Unit, InteractableId)> {
        self.0@
    }
}

impl Items {
    pub fn new() -> (r: Items)
        ensures
            r@ == Seq::<(Unit, InteractableId)>::empty(),
    {
        Items(Vec::new())
    }

    pub fn push<I: Item>(&mut self, position: Unit, item: I)
        ensures
            final(self)@ == old(self)@.push((position, item.spec_id())),
    {
        let id = item.id();
        self.0.push((position, id));
    }
}

/// Distance, in milli-units, between an item and a position.
pub open spec fn distance(item: (Unit, InteractableId), position: Unit) -> int {
    abs_int(item.0.spec_milli() - position.spec_milli())
}

/// Item `i` is the one the resolver picks: it lies within the threshold, no
/// item is closer, and no earlier item is as close.
pub open spec fn is_closest(
    items: Seq<(Unit, InteractableId)>,
    position: Unit,
    threshold: Unit,
    i: int,
) -> bool {
    &&& 0 <= i < items.len()
    &&& distance(items[i], position) < threshold.spec_milli()
    &&& forall|j: int|
        0 <= j < items.len() ==> distance(items[i], position) <= #[trigger] distance(
            items[j],
            position,
        )
    &&& forall|j: int| 0 <= j < i ==> distance(items[i], position) < #[trigger] distance(items[j], position)
}

/// What the resolver returns: the id of the nearest item within the threshold,
/// the first in the list among equally near ones, or `None` when none is near.
pub open spec fn closest_spec(
    items: Seq<(Unit, InteractableId)>,
    position: Unit,
    threshold: Unit,
) -> Option<InteractableId> {
    if exists|i: int| is_closest(items, position, threshold, i) {
        let i = choose|i: int| is_closest(items, position, threshold, i);
        Some(items[i].1)
    } else {
        None
    }
}

/// At most one item is the closest.
pub proof fn lemma_closest_unique(
    items: Seq<(Unit, InteractableId)>,
    position: Unit,
    threshold: Unit,
    i: int,
    k: int,
)
    requires
        is_closest(items, position, threshold, i),
        is_closest(items, position, threshold, k),
    ensures
        i == k,
{
    assert(distance(items[i], position) <= distance(items[k], position));
    assert(distance(items[k], position) <= distance(items[i], position));
}

/// The resolver finds nothing exactly when the list is empty or every item is
/// at or beyond the threshold; otherwise what it returns is an item within the
/// threshold, and no item of the list is nearer.
pub proof fn lemma_resolver_correct(
    items: Seq<(Unit, InteractableId)>,
    position: Unit,
    threshold: Unit,
)
    ensures
        closest_spec(items, position, threshold) is None <==> (items.len() == 0 || forall|j: int|
            0 <= j < items.len() ==> #[trigger] distance(items[j], position)
                >= threshold.spec_milli()),
        closest_spec(items, position, threshold) is Some ==> exists|i: int|
            {
                &&& 0 <= i < items.len()
                &&& items[i].1 == closest_spec(items, position, threshold)->0
                &&& distance(items[i], position) < threshold.spec_milli()
                &&& forall|j: int|
                    0 <= j < items.len() ==> distance(items[i], position) <= #[trigger] distance(
                        items[j],
                        position,
                    )
            },
{
    if exists|j: int| 0 <= j < items.len() && #[trigger] distance(items[j], position) < threshold.spec_milli() {
        let m = lemma_first_minimum(items, position);
        let j = choose|j: int| 0 <= j < items.len() && #[trigger] distance(items[j], position) < threshold.spec_milli();
        assert(distance(items[m], position) <= distance(items[j], position));
        assert(is_closest(items, position, threshold, m));
    }
    if closest_spec(items, position, threshold) is Some {
        let i = choose|i: int| is_closest(items, position, threshold, i);
        assert(items[i].1 == closest_spec(items, position, threshold)->0);
    }
}

/// The first index of a least distance in a non-empty list.
proof fn lemma_first_minimum(items: Seq<(Unit, InteractableId)>, position: Unit) -> (m: int)
    requires
        items.len() > 0,
    ensures
        0 <= m < items.len(),
        forall|j: int| 0 <= j < items.len() ==> distance(items[m], position) <= #[trigger] distance(items[j], position),
        forall|j: int| 0 <= j < m ==> distance(items[m], position) < #[trigger] distance(items[j], position),
    decreases items.len(),
{
    if items.len() == 1 {
        0
    } else {
        let prefix = items.drop_last();
        let p = lemma_first_minimum(prefix, position);
        assert(prefix[p] == items[p]);
        let last = items.len() - 1;
        if distance(items[last], position) < distance(items[p], position) {
            assert forall|j: int| 0 <= j < items.len() implies distance(items[last], position) <= #[trigger] distance(items[j], position) by {
                if j < last {
                    assert(prefix[j] == items[j]);
                }
            }
            assert forall|j: int| 0 <= j < last implies distance(items[last], position) < #[trigger] distance(items[j], position) by {
                assert(prefix[j] == items[j]);
            }
            last
        } else {
            assert forall|j: int| 0 <= j < items.len() implies distance(items[p], position) <= #[trigger] distance(items[j], position) by {
                if j < last {
                    assert(prefix[j] == items[j]);
                }
            }
            assert forall|j: int| 0 <= j < p implies distance(items[p], position) < #[trigger] distance(items[j], position) by {
                assert(prefix[j] == items[j]);
            }
            p
        }
    }
}

/// Distance between two milli-unit values, widened so that it cannot overflow.
fn distance_exec(a: Unit, b: Unit) -> (r: i64)
    ensures
        r == abs_int(a.spec_milli() - b.spec_milli()),
{
    let d: i64 = a.0 as i64 - b.0 as i64;
    if d < 0 {
        -d
    } else {
        d
    }
}

/// Picks the item nearest to `position` whose distance is below `threshold`;
/// among equally near items the first in the list wins.
pub fn closest_within_distance(items: &Items, position: Unit, threshold: Unit) -> (r: Option<
    InteractableId,
>)
    ensures
        r == closest_spec(items@, position, threshold),
        r is Some ==> exists|i: int| 0 <= i < items@.len() && items@[i].1 == r->0,
{
    let mut best: Option<usize> = None;
    let mut best_distance: i64 = 0;
    let mut i: usize = 0;
    while i < items.0.len()
        invariant
            0 <= i <= items@.len(),
            best is None ==> forall|j: int|
                0 <= j < i ==> #[trigger] distance(items@[j], position) >= threshold.spec_milli(),
            best is Some ==> {
                let b = best->0 as int;
                &&& 0 <= b < i
                &&& best_distance == distance(items@[b], position)
                &&& best_distance < threshold.spec_milli()
                &&& forall|j: int|
                    0 <= j < i ==> best_distance <= #[trigger] distance(items@[j], position)
                &&& forall|j: int|
                    0 <= j < b ==> best_distance < #[trigger] distance(items@[j], position)
            },
        decreases items@.len() - i,
    {
        let (item_position, _) = items.0[i];
        let d = distance_exec(item_position, position);
        assert(d == distance(items@[i as int], position));
        if d < threshold.0 as i64 {
            match best {
                None => {
                    best = Some(i);
                    best_distance = d;
                },
                Some(_) => {
                    if d < best_distance {
                        best = Some(i);
                        best_distance = d;
                    }
                },
            }
        }
        i = i + 1;
    }
    match best {
        None => {
            proof {
                if exists|k: int| is_closest(items@, position, threshold, k) {
                    let k = choose|k: int| is_closest(items@, position, threshold, k);
                    assert(distance(items@[k], position) >= threshold.spec_milli());
                }
            }
            None
        },
        Some(b) => {
            proof {
                assert(is_closest(items@, position, threshold, b as int));
                if exists|k: int| is_closest(items@, position, threshold, k) {
                    let k = choose|k: int| is_closest(items@, position, threshold, k);
                    lemma_closest_unique(items@, position, threshold, b as int, k);
                }
            }
            Some(items.0[b].1)
        },
    }
}

/// The standard interaction threshold.
pub fn interact_distance() -> (r: Unit)
    ensures
        r.spec_milli() == INTERACT_DISTANCE_MILLIUNITS,
{
    Unit(INTERACT_DISTANCE_MILLIUNITS)
}

} // verus!
