use lemonhead::logic::Unit;
use lemonhead::resolver::{closest_within_distance, interact_distance, InteractableId, Items};

fn items(list: &[(i32, u8)]) -> Items {
    Items(list.iter().map(|&(p, id)| (Unit(p), InteractableId(id))).collect())
}

#[test]
fn empty_list_resolves_to_nothing() {
    assert_eq!(closest_within_distance(&Items::new(), Unit(0), Unit(500)), None);
}

#[test]
fn out_of_range_item_is_ignored() {
    let list = items(&[(9000, 0)]);
    assert_eq!(closest_within_distance(&list, Unit(0), Unit(500)), None);
}

#[test]
fn nearest_item_within_threshold_wins() {
    let list = items(&[(3000, 0), (3300, 1), (3100, 2), (9000, 3)]);
    assert_eq!(closest_within_distance(&list, Unit(3200), Unit(500)), Some(InteractableId(1)));
    assert_eq!(closest_within_distance(&list, Unit(2800), Unit(500)), Some(InteractableId(0)));
}

#[test]
fn equal_distances_pick_the_first() {
    let list = items(&[(3000, 7), (5000, 1), (4000, 2), (4000, 3)]);
    assert_eq!(closest_within_distance(&list, Unit(4000), Unit(500)), Some(InteractableId(2)));
    let list = items(&[(3800, 4), (4200, 5)]);
    assert_eq!(closest_within_distance(&list, Unit(4000), Unit(500)), Some(InteractableId(4)));
}

#[test]
fn threshold_is_exclusive() {
    let list = items(&[(3500, 0)]);
    assert_eq!(closest_within_distance(&list, Unit(3000), Unit(500)), None);
    assert_eq!(closest_within_distance(&list, Unit(3001), Unit(500)), Some(InteractableId(0)));
}

#[test]
fn standard_threshold_is_half_a_unit() {
    assert_eq!(interact_distance(), Unit(500));
}

#[test]
fn extreme_positions_do_not_overflow() {
    let list = items(&[(i32::MIN, 0), (i32::MAX, 1)]);
    assert_eq!(closest_within_distance(&list, Unit(i32::MAX), Unit(i32::MAX)), Some(InteractableId(1)));
    assert_eq!(closest_within_distance(&list, Unit(0), Unit(i32::MAX)), None);
}
