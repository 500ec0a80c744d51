//! The length unit all geometry is measured in.
//!
//! A `SizeUnit` wraps a single signed integer count of pixels. Every
//! arithmetic operation saturates at `UNIT_MAX` / `UNIT_MIN`, so the
//! operations are total: no input makes them panic or wrap around.
use vstd::prelude::*;

verus! {

/// Largest value a `SizeUnit` can hold.
pub const UNIT_MAX: i64 = i64::MAX;

/// Smallest value a `SizeUnit` can hold.
pub const UNIT_MIN: i64 = i64::MIN;

/// Sizing units.
#[derive(Clone, Copy, Debug, PartialEq, Eq, Structural)]
pub enum SizeUnit {
    Pixel(i64),
}

/// Saturate a mathematical integer into the representable range.
pub open spec fn clip(x: int) -> int {
    if x > UNIT_MAX as int {
        UNIT_MAX as int
    } else if x < UNIT_MIN as int {
        UNIT_MIN as int
    } else {
        x
    }
}

/// Truncating division (rounds toward zero), defined for a nonzero divisor.
pub open spec fn div_trunc(x: int, d: int) -> int {
    if x == 0 {
        0
    } else if x > 0 && d > 0 {
        x / d
    } else if x < 0 && d < 0 {
        (x * -1) / (d * -1)
    } else if x < 0 {
        ((x * -1) / d) * -1
    } else {
        (x / (d * -1)) * -1
    }
}

impl SizeUnit {
    /// The pixel count as a mathematical integer.
    pub open spec fn as_int(self) -> int {
        match self {
            SizeUnit::Pixel(v) => v as int,
        }
    }

    /// The unit holding a given pixel count.
    pub open spec fn spec_of(v: int) -> SizeUnit {
        SizeUnit::Pixel(clip(v) as i64)
    }

    /// What `add` returns.
    pub open spec fn spec_add(self, rhs: SizeUnit) -> SizeUnit {
        SizeUnit::spec_of(self.as_int() + rhs.as_int())
    }

    /// What `sub` returns.
    pub open spec fn spec_sub(self, rhs: SizeUnit) -> SizeUnit {
        SizeUnit::spec_of(self.as_int() - rhs.as_int())
    }

    /// What `mul` returns.
    pub open spec fn spec_mul(self, rhs: SizeUnit) -> SizeUnit {
        SizeUnit::spec_of(self.as_int() * rhs.as_int())
    }

    /// What `div` returns.
    pub open spec fn spec_div(self, rhs: SizeUnit) -> SizeUnit {
        SizeUnit::spec_of(div_trunc(self.as_int(), rhs.as_int()))
    }

    /// What `abs` returns.
    pub open spec fn spec_abs(self) -> SizeUnit {
        if self.as_int() >= 0 {
            self
        } else {
            SizeUnit::spec_of(-self.as_int())
        }
    }

    /// Wrap a raw pixel count.
    pub fn of(v: i64) -> (r: SizeUnit)
        ensures
            r == SizeUnit::spec_of(v as int),
    {
        SizeUnit::Pixel(v)
    }

    /// The raw pixel count.
    pub fn value(self) -> (r: i64)
        ensures
            r as int == self.as_int(),
    {
        match self {
            SizeUnit::Pixel(v) => v,
        }
    }

    /// Saturating addition.
    pub fn add(self, rhs: SizeUnit) -> (r: SizeUnit)
        ensures
            r == self.spec_add(rhs),
    {
        let a = self.value();
        let b = rhs.value();
        match a.checked_add(b) {
            Some(v) => SizeUnit::Pixel(v),
            None => {
                if a > 0 {
                    SizeUnit::Pixel(UNIT_MAX)
                } else {
                    SizeUnit::Pixel(UNIT_MIN)
                }
            },
        }
    }

    /// Saturating subtraction.
    pub fn sub(self, rhs: SizeUnit) -> (r: SizeUnit)
        ensures
            r == self.spec_sub(rhs),
    {
        let a = self.value();
        let b = rhs.value();
        match a.checked_sub(b) {
            Some(v) => SizeUnit::Pixel(v),
            None => {
                if a >= 0 {
                    SizeUnit::Pixel(UNIT_MAX)
                } else {
                    SizeUnit::Pixel(UNIT_MIN)
                }
            },
        }
    }

    /// Saturating multiplication.
    pub fn mul(self, rhs: SizeUnit) -> (r: SizeUnit)
        ensures
            r == self.spec_mul(rhs),
    {
        let a = self.value();
        let b = rhs.value();
        match a.checked_mul(b) {
            Some(v) => SizeUnit::Pixel(v),
            None => {
                proof {
                    assert((a as int) * (b as int) > 0 ==> ((a > 0) == (b > 0)))
                        by (nonlinear_arith);
                    assert((a as int) * (b as int) < 0 ==> ((a > 0) != (b > 0)))
                        by (nonlinear_arith);
                }
                if (a > 0) == (b > 0) {
                    SizeUnit::Pixel(UNIT_MAX)
                } else {
                    SizeUnit::Pixel(UNIT_MIN)
                }
            },
        }
    }

    /// Truncating division by a nonzero unit.
    pub fn div(self, rhs: SizeUnit) -> (r: SizeUnit)
        requires
            rhs.as_int() != 0,
        ensures
            r == self.spec_div(rhs),
    {
        let a = self.value();
        let b = rhs.value();
        match a.checked_div(b) {
            Some(v) => SizeUnit::Pixel(v),
            None => SizeUnit::Pixel(UNIT_MAX),
        }
    }

    /// Saturating absolute value.
    pub fn abs(self) -> (r: SizeUnit)
        ensures
            r == self.spec_abs(),
    {
        let a = self.value();
        if a >= 0 {
            self
        } else if a == UNIT_MIN {
            SizeUnit::Pixel(UNIT_MAX)
        } else {
            SizeUnit::Pixel(-a)
        }
    }

    /// `self > rhs` on the pixel counts.
    pub fn gt(self, rhs: SizeUnit) -> (r: bool)
        ensures
            r == (self.as_int() > rhs.as_int()),
    {
        self.value() > rhs.value()
    }

    /// Whether the pixel count is zero.
    pub fn is_zero(self) -> (r: bool)
        ensures
            r == (self.as_int() == 0),
    {
        self.value() == 0
    }
}

} // verus!
