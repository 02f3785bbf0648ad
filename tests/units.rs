use lemonhead::logic::{ground_level, Unit};
use lemonhead::transform::{pixels_per_dot, to_screen_position, to_screen_scale};

#[test]
fn unit_new_is_thousand_milliunits() {
    assert_eq!(Unit::new(3).milliunits(), 3000);
    assert_eq!(Unit::new(-2).milliunits(), -2000);
    assert_eq!(Unit::from_milliunits(1250).milliunits(), 1250);
}

#[test]
fn unit_arithmetic() {
    assert_eq!(Unit(1500).add(Unit(2500)), Unit(4000));
    assert_eq!(Unit(1500).sub(Unit(2500)), Unit(-1000));
    assert_eq!(Unit(-1250).abs(), Unit(1250));
    assert_eq!(Unit(1250).abs(), Unit(1250));
    assert_eq!(Unit(1500).mul(Unit(2500)), Unit(3750));
    assert_eq!(Unit(1).mul(Unit(999)), Unit(0));
}

#[test]
fn unit_saturating_arithmetic() {
    assert_eq!(Unit(i32::MIN + 5).saturating_sub(Unit(10)), Unit(i32::MIN));
    assert_eq!(Unit(i32::MAX - 5).saturating_add(Unit(10)), Unit(i32::MAX));
    assert_eq!(Unit(100).saturating_sub(Unit(30)), Unit(70));
    assert_eq!(Unit(100).saturating_add(Unit(30)), Unit(130));
}

#[test]
fn ground_is_five_units_down() {
    assert_eq!(ground_level(), Unit(5000));
}

#[test]
fn dot_is_smaller_side_over_ten() {
    assert_eq!(pixels_per_dot((720, 720)), 72);
    assert_eq!(pixels_per_dot((1920, 1080)), 108);
    assert_eq!(pixels_per_dot((1005, 2000)), 100);
    assert_eq!(pixels_per_dot((9, 100)), 0);
}

#[test]
fn screen_position_centres_the_room() {
    // 1920x1080: dot 108, room is 1080 wide, horizontal margin (1920-1080)/2 = 420 px.
    assert_eq!(to_screen_position((1920, 1080), (Unit(0), Unit(0))), (420_000, 0));
    assert_eq!(to_screen_position((1920, 1080), (Unit(10000), Unit(10000))), (1_500_000, 1_080_000));
    // An odd margin lands on a half pixel.
    assert_eq!(to_screen_position((725, 720), (Unit(0), Unit(0))), (2_500, 0));
}

#[test]
fn screen_position_is_affine() {
    let window = (1920, 1080);
    let a = to_screen_position(window, (Unit(1500), Unit(2000)));
    let b = to_screen_position(window, (Unit(4000), Unit(2500)));
    let dot = pixels_per_dot(window) as i64;
    assert_eq!(b.0 - a.0, 2500 * dot);
    assert_eq!(b.1 - a.1, 500 * dot);
}

#[test]
fn unit_square_scales_uniformly() {
    assert_eq!(to_screen_scale((1920, 1080), (Unit(1000), Unit(1000))), (108_000, 108_000));
    assert_eq!(to_screen_scale((800, 600), (Unit(2000), Unit(500))), (120_000, 30_000));
}

#[test]
fn tiny_window_gives_empty_rectangles() {
    assert_eq!(to_screen_scale((5, 5), (Unit(1000), Unit(1000))), (0, 0));
    assert_eq!(to_screen_position((5, 7), (Unit(3000), Unit(3000))), (2_500, 3_500));
}
