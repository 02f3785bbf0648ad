use vstd::prelude::*;

verus! {

/// Number of milli-units in one world unit.
pub const MILLIS_PER_UNIT: i32 = 1000;

/// Height of the ground line of every room, in milli-units.
pub const GROUND_LEVEL_MILLIUNITS: i32 = 5000;

/// A world-space length or position, stored in fixed point as milli-units.
#[derive(PartialEq, Eq, Structural, Clone, Copy, Debug)]
pub struct Unit(pub i32);

/// Absolute value of an integer.
pub open spec fn abs_int(x: int) -> int {
    if x < 0 {
        -x
    } else {
        x
    }
}

impl Unit {
    /// The value in milli-units.
    pub open spec fn spec_milli(self) -> int {
        self.0 as int
    }

    pub fn milliunits(&self) -> (r: i32)
        ensures
            r == self.0,
    {
        self.0
    }

    /// A whole number of world units.
    pub fn new(value: i32) -> (r: Unit)
        requires
            -2147483 <= value <= 2147483,
        ensures
            r.spec_milli() == value * 1000,
    {
        Unit(value * MILLIS_PER_UNIT)
    }

    /// A value given directly in milli-units.
    pub fn from_milliunits(value: i32) -> (r: Unit)
        ensures
            r.0 == value,
    {
        Unit(value)
    }

    pub fn abs(&self) -> (r: Unit)
        requires
            self.0 > i32::MIN,
        ensures
            r.spec_milli() == abs_int(self.spec_milli()),
    {
        if self.0 < 0 {
            Unit(-self.0)
        } else {
            Unit(self.0)
        }
    }

    pub fn add(self, rhs: Unit) -> (r: Unit)
        requires
            i32::MIN <= self.0 + rhs.0 <= i32::MAX,
        ensures
            r.spec_milli() == self.spec_milli() + rhs.spec_milli(),
    {
        Unit(self.0 + rhs.0)
    }

    pub fn sub(self, rhs: Unit) -> (r: Unit)
        requires
            i32::MIN <= self.0 - rhs.0 <= i32::MAX,
        ensures
            r.spec_milli() == self.spec_milli() - rhs.spec_milli(),
    {
        Unit(self.0 - rhs.0)
    }

    /// Subtraction that stops at the smallest representable value.
    pub fn saturating_sub(self, rhs: Unit) -> (r: Unit)
        ensures
            r.spec_milli() == if self.spec_milli() - rhs.spec_milli() < i32::MIN {
                i32::MIN as int
            } else if self.spec_milli() - rhs.spec_milli() > i32::MAX {
                i32::MAX as int
            } else {
                self.spec_milli() - rhs.spec_milli()
            },
    {
        let d: i64 = self.0 as i64 - rhs.0 as i64;
        if d < i32::MIN as i64 {
            Unit(i32::MIN)
        } else if d > i32::MAX as i64 {
            Unit(i32::MAX)
        } else {
            Unit(d as i32)
        }
    }

    /// Addition that stops at the largest representable value.
    pub fn saturating_add(self, rhs: Unit) -> (r: Unit)
        ensures
            r.spec_milli() == if self.spec_milli() + rhs.spec_milli() < i32::MIN {
                i32::MIN as int
            } else if self.spec_milli() + rhs.spec_milli() > i32::MAX {
                i32::MAX as int
            } else {
                self.spec_milli() + rhs.spec_milli()
            },
    {
        let d: i64 = self.0 as i64 + rhs.0 as i64;
        if d < i32::MIN as i64 {
            Unit(i32::MIN)
        } else if d > i32::MAX as i64 {
            Unit(i32::MAX)
        } else {
            Unit(d as i32)
        }
    }

    /// Product of two world values, truncated toward zero to whole milli-units.
    pub fn mul(self, rhs: Unit) -> (r: Unit)
        requires
            i32::MIN <= mul_spec(self.0 as int, rhs.0 as int) <= i32::MAX,
        ensures
            r.spec_milli() == mul_spec(self.spec_milli(), rhs.spec_milli()),
    {
        let a: i64 = if self.0 < 0 {
            -(self.0 as i64)
        } else {
            self.0 as i64
        };
        let b: i64 = if rhs.0 < 0 {
            -(rhs.0 as i64)
        } else {
            rhs.0 as i64
        };
        proof {
            assert(a * b <= 2147483648 * 2147483648) by (nonlinear_arith)
                requires
                    0 <= a <= 2147483648,
                    0 <= b <= 2147483648,
            ;
            assert(0 <= a * b) by (nonlinear_arith)
                requires
                    0 <= a,
                    0 <= b,
            ;
        }
        let magnitude: i64 = a * b / 1000;
        if (self.0 < 0) != (rhs.0 < 0) {
            Unit((-magnitude) as i32)
        } else {
            Unit(magnitude as i32)
        }
    }
}

/// Product of two milli-unit values in milli-units, truncated toward zero.
pub open spec fn mul_spec(a: int, b: int) -> int {
    let magnitude = abs_int(a) * abs_int(b) / 1000;
    if (a < 0) != (b < 0) {
        -magnitude
    } else {
        magnitude
    }
}

/// `a - b`, saturating at the bounds of a world value.
pub open spec fn sat_sub(a: int, b: int) -> int {
    if a - b < i32::MIN {
        i32::MIN as int
    } else if a - b > i32::MAX {
        i32::MAX as int
    } else {
        a - b
    }
}

/// `a + b`, saturating at the bounds of a world value.
pub open spec fn sat_add(a: int, b: int) -> int {
    if a + b < i32::MIN {
        i32::MIN as int
    } else if a + b > i32::MAX {
        i32::MAX as int
    } else {
        a + b
    }
}

/// The ground line of every room.
pub fn ground_level() -> (r: Unit)
    ensures
        r.spec_milli() == 5000,
{
    Unit(GROUND_LEVEL_MILLIUNITS)
}

} // verus!
