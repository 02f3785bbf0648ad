use vstd::prelude::*;

use crate::ctx::{sprite_view, with_drawn, Ctx, CtxView, ItemView};
use crate::logic::{ground_level, sat_add, Unit};
use crate::sprite::{Sprite, Tile};

verus! {

/// The command that draws `sprite` on one unit square at `position`.
pub open spec fn tile_view<S: Sprite>(window: (u32, u32), position: (Unit, Unit), sprite: S) -> ItemView {
    sprite_view(window, position, (Unit(1000), Unit(1000)), sprite)
}

/// Height of a collectible item this frame: on the ground, bobbing.
pub open spec fn item_height(bob: Unit) -> Unit {
    Unit(sat_add(5000, bob.0 as int) as i32)
}

/// The command that draws a collectible item at `x`.
pub open spec fn item_view<S: Sprite>(v: CtxView, sprite: S, x: Unit) -> ItemView {
    tile_view(v.window, (x, item_height(v.item_bob)), sprite)
}

/// The ground strip and the solid blocks beneath it.
pub open spec fn ground_picture(window: (u32, u32)) -> Seq<ItemView> {
    seq![
        sprite_view(window, (Unit(0), Unit(6000)), (Unit(10000), Unit(1000)), Tile::Ground),
        sprite_view(window, (Unit(0), Unit(7000)), (Unit(10000), Unit(3000)), Tile::Block),
    ]
}

/// The wall above the ground, column by column, rows 0 to 5 in each.
pub open spec fn wallpaper_picture<S: Sprite>(window: (u32, u32), sprite: S) -> Seq<ItemView> {
    Seq::new(
        60,
        |i: int| tile_view(window, (Unit((i / 6 * 1000) as i32), Unit((i % 6 * 1000) as i32)), sprite),
    )
}

/// A row of grass along the ground, left to right.
pub open spec fn grass_picture(window: (u32, u32)) -> Seq<ItemView> {
    Seq::new(10, |i: int| tile_view(window, (Unit((i * 1000) as i32), Unit(5000)), Tile::Grass))
}

/// `item` when `cond` holds, else nothing.
pub open spec fn draw_if(cond: bool, item: ItemView) -> Seq<ItemView> {
    if cond {
        seq![item]
    } else {
        Seq::empty()
    }
}

/// Queues a sprite one unit square in size.
pub fn enqueue_tile<S: Sprite>(ctx: &mut Ctx, position: (Unit, Unit), sprite: &S)
    ensures
        final(ctx)@ == with_drawn(old(ctx)@, seq![tile_view(old(ctx)@.window, position, *sprite)]),
{
    ctx.enqueue_sprite(position, (Unit(1000), Unit(1000)), sprite);
}

/// Queues a collectible item standing on the ground at `x`, bobbing by the
/// frame's item offset.
pub fn enqueue_item<S: Sprite>(ctx: &mut Ctx, sprite: &S, x: Unit)
    ensures
        final(ctx)@ == with_drawn(old(ctx)@, seq![item_view(old(ctx)@, *sprite, x)]),
{
    let y = ground_level().saturating_add(ctx.item_bob());
    enqueue_tile(ctx, (x, y), sprite);
}

/// Queues the ground strip and the solid blocks beneath it.
pub fn enqueue_ground(ctx: &mut Ctx)
    ensures
        final(ctx)@ == with_drawn(old(ctx)@, ground_picture(old(ctx)@.window)),
{
    ctx.enqueue_sprite((Unit(0), Unit(6000)), (Unit(10000), Unit(1000)), &Tile::Ground);
    ctx.enqueue_sprite((Unit(0), Unit(7000)), (Unit(10000), Unit(3000)), &Tile::Block);
    proof {
        assert(ctx@.queue =~= old(ctx)@.queue + ground_picture(old(ctx)@.window));
    }
}

/// Covers the wall above the ground, rows 0 to 5, with one sprite per unit.
pub fn enqueue_wallpaper<S: Sprite>(ctx: &mut Ctx, sprite: &S)
    ensures
        final(ctx)@ == with_drawn(old(ctx)@, wallpaper_picture(old(ctx)@.window, *sprite)),
{
    let ghost v = ctx@;
    let ghost pic = wallpaper_picture(v.window, *sprite);
    let mut x: i32 = 0;
    while x < 10
        invariant
            0 <= x <= 10,
            pic == wallpaper_picture(v.window, *sprite),
            ctx@ == with_drawn(v, pic.take(6 * x)),
        decreases 10 - x,
    {
        let mut y: i32 = 0;
        while y <= 5
            invariant
                0 <= x < 10,
                0 <= y <= 6,
                pic == wallpaper_picture(v.window, *sprite),
                ctx@ == with_drawn(v, pic.take(6 * x + y)),
            decreases 6 - y,
        {
            enqueue_tile(ctx, (Unit(x * 1000), Unit(y * 1000)), sprite);
            proof {
                let k = 6 * x + y;
                assert(k / 6 == x && k % 6 == y) by (nonlinear_arith)
                    requires
                        k == 6 * x + y,
                        0 <= y < 6,
                ;
                assert(pic[k] == tile_view(v.window, (Unit((x * 1000) as i32), Unit((y * 1000) as i32)), *sprite));
                assert((v.queue + pic.take(k)) + seq![pic[k]] =~= v.queue + pic.take(k + 1));
            }
            y = y + 1;
        }
        x = x + 1;
    }
    proof {
        assert(pic.take(60) =~= pic);
    }
}

/// Queues a row of grass along the ground.
pub fn enqueue_grass(ctx: &mut Ctx)
    ensures
        final(ctx)@ == with_drawn(old(ctx)@, grass_picture(old(ctx)@.window)),
{
    let ghost v = ctx@;
    let ghost pic = grass_picture(v.window);
    let mut x: i32 = 0;
    while x < 10
        invariant
            0 <= x <= 10,
            pic == grass_picture(v.window),
            ctx@ == with_drawn(v, pic.take(x as int)),
        decreases 10 - x,
    {
        enqueue_tile(ctx, (Unit(x * 1000), ground_level()), &Tile::Grass);
        proof {
            assert(pic[x as int] == tile_view(v.window, (Unit((x * 1000) as i32), Unit(5000)), Tile::Grass));
            assert((v.queue + pic.take(x as int)) + seq![pic[x as int]] =~= v.queue + pic.take(
                x + 1,
            ));
        }
        x = x + 1;
    }
    proof {
        assert(pic.take(10) =~= pic);
    }
}

} // verus!
