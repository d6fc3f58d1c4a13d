//! Millisecond counts on the rolling 32-bit clock that tick-based timers
//! expose.

use vstd::prelude::*;

verus! {

/// A count of milliseconds on a rolling 32-bit millisecond clock.
#[derive(Clone, Copy, PartialEq, Eq, Structural, Debug)]
pub struct Milliseconds(pub u32);

/// Sugar for writing millisecond durations: `500.ms()`.
pub trait U32Ext {
    fn ms(self) -> (r: Milliseconds);
}

impl U32Ext for u32 {
    fn ms(self) -> (r: Milliseconds) {
        Milliseconds(self)
    }
}

/// The value `d` brought into `0 ..= u32::MAX` by one wrap of the 32-bit
/// clock, for differences `d` strictly between `-2^32` and `2^32`.
pub open spec fn wrap32(d: int) -> int {
    if d < 0 {
        d + 0x1_0000_0000
    } else {
        d
    }
}

impl Milliseconds {
    /// Rollover-safe comparison: true when `other` lies at or ahead of
    /// `self`, that is, when the wrapped distance from `self` to `other` is
    /// less than half the clock range.
    pub fn is_after(self, other: Milliseconds) -> (r: bool)
        ensures
            r == (wrap32(other.0 - self.0) < 0x8000_0000),
    {
        other.0.wrapping_sub(self.0) < 0x8000_0000
    }

    /// Sum of two millisecond counts.
    pub fn plus(self, other: Milliseconds) -> (r: Milliseconds)
        requires
            self.0 + other.0 <= u32::MAX,
        ensures
            r.0 == self.0 + other.0,
    {
        Milliseconds(self.0 + other.0)
    }
}

} // verus!
