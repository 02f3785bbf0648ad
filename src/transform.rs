use vstd::prelude::*;

use crate::logic::Unit;

verus! {

/// Side length of a room in world units.
pub const ROOM_SIZE: u32 = 10;

/// The smaller of two integers.
pub open spec fn min_int(a: int, b: int) -> int {
    if a < b {
        a
    } else {
        b
    }
}

/// Pixels per world unit for a window: the largest whole number that fits the
/// ten-unit room on both axes.
pub open spec fn dot_of(width: int, height: int) -> int {
    min_int(width, height) / 10
}

/// Left (or top) margin of the centred room, in milli-pixels.
pub open spec fn margin_of(extent: int, dot: int) -> int {
    (extent - 10 * dot) * 500
}

/// Screen coordinate, in milli-pixels, of a world coordinate given in milli-units.
pub open spec fn screen_coord(extent: int, dot: int, milli: int) -> int {
    margin_of(extent, dot) + milli * dot
}

/// Pixels per world unit for the given window size.
pub fn pixels_per_dot(window: (u32, u32)) -> (r: u32)
    ensures
        r == dot_of(window.0 as int, window.1 as int),
{
    let win_min = if window.0 < window.1 {
        window.0
    } else {
        window.1
    };
    win_min / ROOM_SIZE
}

/// Maps a world position to the screen, in milli-pixels: the room is scaled
/// uniformly by `pixels_per_dot` and centred in the window.
pub fn to_screen_position(window: (u32, u32), position: (Unit, Unit)) -> (r: (i64, i64))
    ensures
        r.0 == screen_coord(
            window.0 as int,
            dot_of(window.0 as int, window.1 as int),
            position.0.spec_milli(),
        ),
        r.1 == screen_coord(
            window.1 as int,
            dot_of(window.0 as int, window.1 as int),
            position.1.spec_milli(),
        ),
{
    let dot = pixels_per_dot(window);
    let x = screen_axis(window.0, dot, position.0);
    let y = screen_axis(window.1, dot, position.1);
    (x, y)
}

fn screen_axis(extent: u32, dot: u32, value: Unit) -> (r: i64)
    requires
        10 * dot <= extent,
    ensures
        r == screen_coord(extent as int, dot as int, value.spec_milli()),
{
    let margin: i64 = (extent as i64 - 10 * dot as i64) * 500;
    proof {
        assert(dot <= 429496730) by (nonlinear_arith)
            requires
                10 * dot <= extent,
                extent <= u32::MAX,
        ;
        assert(-2147483648 * 429496730 <= value.0 as int * dot as int <= 2147483647
            * 429496730) by (nonlinear_arith)
            requires
                i32::MIN <= value.0 <= i32::MAX,
                0 <= dot <= 429496730,
        ;
    }
    margin + value.0 as i64 * dot as i64
}

/// Maps a world size to the screen, in milli-pixels.
pub fn to_screen_scale(window: (u32, u32), size: (Unit, Unit)) -> (r: (i64, i64))
    ensures
        r.0 == size.0.spec_milli() * dot_of(window.0 as int, window.1 as int),
        r.1 == size.1.spec_milli() * dot_of(window.0 as int, window.1 as int),
{
    let dot = pixels_per_dot(window);
    proof {
        assert(dot <= 429496729);
        lemma_product_fits(size.0.0 as int, dot as int);
        lemma_product_fits(size.1.0 as int, dot as int);
    }
    (size.0.0 as i64 * dot as i64, size.1.0 as i64 * dot as i64)
}

proof fn lemma_product_fits(v: int, dot: int)
    requires
        i32::MIN <= v <= i32::MAX,
        0 <= dot <= 429496730,
    ensures
        i64::MIN <= v * dot <= i64::MAX,
{
    assert(-2147483648 * 429496730 <= v * dot <= 2147483647 * 429496730) by (nonlinear_arith)
        requires
            i32::MIN <= v <= i32::MAX,
            0 <= dot <= 429496730,
    ;
}

/// For a fixed window, the transform is affine: two world points that differ by
/// `(dx, dy)` land on screen points that differ by `(dx * dot, dy * dot)`.
pub proof fn lemma_screen_position_affine(
    window: (u32, u32),
    a: (Unit, Unit),
    b: (Unit, Unit),
)
    ensures
        ({
            let dot = dot_of(window.0 as int, window.1 as int);
            &&& screen_coord(window.0 as int, dot, b.0.spec_milli()) - screen_coord(
                window.0 as int,
                dot,
                a.0.spec_milli(),
            ) == (b.0.spec_milli() - a.0.spec_milli()) * dot
            &&& screen_coord(window.1 as int, dot, b.1.spec_milli()) - screen_coord(
                window.1 as int,
                dot,
                a.1.spec_milli(),
            ) == (b.1.spec_milli() - a.1.spec_milli()) * dot
        }),
{
    let dot = dot_of(window.0 as int, window.1 as int);
    assert((b.0.spec_milli() - a.0.spec_milli()) * dot == b.0.spec_milli() * dot
        - a.0.spec_milli() * dot) by (nonlinear_arith);
    assert((b.1.spec_milli() - a.1.spec_milli()) * dot == b.1.spec_milli() * dot
        - a.1.spec_milli() * dot) by (nonlinear_arith);
}

/// The four rectangles of the border around the centred room, as
/// (position, size) pairs in milli-pixels: left, top, bottom, right.
pub open spec fn border_spec(window: (u32, u32)) -> Seq<((int, int), (int, int))> {
    let dot = dot_of(window.0 as int, window.1 as int);
    let left = screen_coord(window.0 as int, dot, 0);
    let top = screen_coord(window.1 as int, dot, 0);
    let right = screen_coord(window.0 as int, dot, 10000);
    let bottom = screen_coord(window.1 as int, dot, 10000);
    let w = window.0 as int * 1000;
    let h = window.1 as int * 1000;
    seq![((0, 0), (left, h)), ((0, 0), (w, top)), ((0, bottom), (w, top)), ((right, 0), (left, h))]
}

} // verus!
