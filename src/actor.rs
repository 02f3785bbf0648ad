use vstd::prelude::*;

use crate::ctx::{sprite_view, with_drawn, Ctx};
use crate::logic::{mul_spec, Unit};
use crate::sprite::SpriteDesc;

verus! {

/// What a character is doing; it decides which pair of frames is shown.
#[derive(Clone, Copy, PartialEq, Eq, Structural, Debug)]
pub enum Motion {
    RunningLeft,
    RunningRight,
    Idle,
}

/// Length of one animation cycle, in milliseconds.
pub const ANIMATION_PERIOD_MS: u64 = 500;

/// Point in the cycle at which the second frame takes over, in milliseconds.
pub const ANIMATION_SWITCH_MS: u64 = 250;

/// A character that moves through a room and animates by its motion.
#[derive(Clone, Copy, Debug)]
pub struct Actor {
    pub position: (Unit, Unit),
    pub motion: Motion,
    pub asset: &'static str,
}

/// Horizontal pixel offset in the character sheet of the frame shown for a
/// motion at a point in time: two frames per motion, alternating every half
/// cycle, with idle, running right and running left side by side.
pub open spec fn frame_column_spec(motion: Motion, elapsed_ms: u64) -> u32 {
    let second = elapsed_ms % 500 >= 250;
    let base: u32 = match motion {
        Motion::Idle => 0,
        Motion::RunningRight => 64,
        Motion::RunningLeft => 128,
    };
    if second {
        (base + 32) as u32
    } else {
        base
    }
}

/// The frame shown for a motion at a point in time; it depends on nothing else.
pub fn frame_column(motion: Motion, elapsed_ms: u64) -> (r: u32)
    ensures
        r == frame_column_spec(motion, elapsed_ms),
{
    let first: u32 = if elapsed_ms % ANIMATION_PERIOD_MS < ANIMATION_SWITCH_MS {
        0
    } else {
        32
    };
    let base: u32 = match motion {
        Motion::Idle => 0,
        Motion::RunningRight => 64,
        Motion::RunningLeft => 128,
    };
    base + first
}

impl Actor {
    pub fn new(asset: &'static str) -> (r: Actor)
        ensures
            r.position == (Unit(0), Unit(0)),
            r.motion == Motion::Idle,
            r.asset == asset,
    {
        Actor { position: (Unit(0), Unit(0)), motion: Motion::Idle, asset }
    }

    pub fn x(&self) -> (r: Unit)
        ensures
            r == self.position.0,
    {
        self.position.0
    }

    pub fn idle(&mut self)
        ensures
            *final(self) == (Actor { motion: Motion::Idle, ..*old(self) }),
    {
        self.motion = Motion::Idle;
    }

    pub fn run_left(&mut self)
        ensures
            *final(self) == (Actor { motion: Motion::RunningLeft, ..*old(self) }),
    {
        self.motion = Motion::RunningLeft;
    }

    pub fn run_right(&mut self)
        ensures
            *final(self) == (Actor { motion: Motion::RunningRight, ..*old(self) }),
    {
        self.motion = Motion::RunningRight;
    }

    pub fn set_position(&mut self, x: Unit, y: Unit)
        ensures
            *final(self) == (Actor { position: (x, y), ..*old(self) }),
    {
        self.position = (x, y);
    }

    /// Moves by a velocity `(x, y)`, in units per second, for `delta_time`
    /// seconds.
    pub fn offset_position(&mut self, x: Unit, y: Unit, delta_time: Unit)
        requires
            i32::MIN <= mul_spec(x.0 as int, delta_time.0 as int) <= i32::MAX,
            i32::MIN <= mul_spec(y.0 as int, delta_time.0 as int) <= i32::MAX,
            i32::MIN <= old(self).position.0.0 + mul_spec(x.0 as int, delta_time.0 as int)
                <= i32::MAX,
            i32::MIN <= old(self).position.1.0 + mul_spec(y.0 as int, delta_time.0 as int)
                <= i32::MAX,
        ensures
            final(self).position.0.spec_milli() == old(self).position.0.spec_milli() + mul_spec(
                x.spec_milli(),
                delta_time.spec_milli(),
            ),
            final(self).position.1.spec_milli() == old(self).position.1.spec_milli() + mul_spec(
                y.spec_milli(),
                delta_time.spec_milli(),
            ),
            final(self).motion == old(self).motion,
            final(self).asset == old(self).asset,
    {
        let dx = x.mul(delta_time);
        let dy = y.mul(delta_time);
        self.position = (self.position.0.add(dx), self.position.1.add(dy));
    }

    /// The sprite shown at a point in time: a 32-pixel frame of the asset.
    pub fn sprite(&self, elapsed_ms: u64) -> (r: SpriteDesc)
        ensures
            r.path == self.asset,
            r.offset == (frame_column_spec(self.motion, elapsed_ms), 0u32),
            r.size == (32u32, 32u32),
    {
        SpriteDesc {
            path: self.asset,
            offset: (frame_column(self.motion, elapsed_ms), 0),
            size: (32, 32),
        }
    }

    /// Queues the character, one unit square at its position.
    pub fn draw(&self, ctx: &mut Ctx)
        ensures
            final(ctx)@ == with_drawn(
                old(ctx)@,
                seq![
                    sprite_view(
                        old(ctx)@.window,
                        self.position,
                        (Unit(1000), Unit(1000)),
                        self.sprite_spec(old(ctx)@.elapsed_ms),
                    ),
                ],
            ),
    {
        let sprite = self.sprite(ctx.millis_elapsed());
        ctx.enqueue_sprite(self.position, (Unit(1000), Unit(1000)), &sprite);
    }

    pub open spec fn sprite_spec(&self, elapsed_ms: u64) -> SpriteDesc {
        SpriteDesc {
            path: self.asset,
            offset: (frame_column_spec(self.motion, elapsed_ms), 0),
            size: (32, 32),
        }
    }
}

} // verus!
