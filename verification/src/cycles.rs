//! Cycle accounting: a signed 32-bit scalar of elapsed or remaining
//! processor cycles, with saturating subtraction so that overshoot can be
//! tracked without overflow.

use vstd::prelude::*;

verus! {

/// `x` clamped to the range of `i32`.
pub open spec fn sat_i32(x: int) -> int {
    if x > i32::MAX as int {
        i32::MAX as int
    } else if x < i32::MIN as int {
        i32::MIN as int
    } else {
        x
    }
}

/// A count of processor cycles, elapsed or remaining.  A remaining count may
/// legitimately become negative when a handler consumes more cycles than the
/// budget held (overshoot).
#[derive(Clone, Copy, Debug, PartialEq, Eq, Structural)]
pub struct Cycles(pub i32);

impl Cycles {
    /// True exactly when strictly more than zero cycles remain.
    pub fn any(self) -> (r: bool)
        ensures
            r == (self.0 > 0),
    {
        self.0 > 0
    }

    /// Saturating subtraction: the mathematical difference clamped to `i32`.
    pub fn sub(self, other: Cycles) -> (r: Cycles)
        ensures
            r.0 as int == sat_i32(self.0 - other.0),
    {
        let d: i64 = self.0 as i64 - other.0 as i64;
        if d > i32::MAX as i64 {
            Cycles(i32::MAX)
        } else if d < i32::MIN as i64 {
            Cycles(i32::MIN)
        } else {
            Cycles(d as i32)
        }
    }

    /// In-place saturating subtraction.
    pub fn sub_assign(&mut self, other: Cycles)
        ensures
            final(self).0 as int == sat_i32(old(self).0 - other.0),
    {
        let v = *self;
        *self = v.sub(other);
    }
}

} // verus!
