//! The score tracker: a non-negative counter owned by the simulation,
//! reset on entering Playing and raised by collision resolution only.

use vstd::prelude::*;

verus! {

/// Unsigned saturating addition: the mathematical sum, capped at the
/// largest `u64`.
pub open spec fn sat_add_u64(a: int, b: int) -> int {
    if a + b > u64::MAX as int {
        u64::MAX as int
    } else {
        a + b
    }
}

/// The score counter.
#[derive(Clone, Copy, PartialEq, Eq, Structural, Debug)]
pub struct Score {
    pub value: u64,
}

impl Score {
    /// A counter standing at zero.
    pub fn new() -> (s: Score)
        ensures
            s.value == 0,
    {
        Score { value: 0 }
    }

    /// Resets the counter to zero.
    pub fn reset_to_zero(&mut self)
        ensures
            final(self).value == 0,
    {
        self.value = 0;
    }

    /// Adds one point, saturating at the largest `u64`.
    pub fn increment(&mut self)
        ensures
            final(self).value as int == sat_add_u64(old(self).value as int, 1),
    {
        self.add_points(1);
    }

    /// Adds `n` points, saturating at the largest `u64`.
    pub fn add_points(&mut self, n: u64)
        ensures
            final(self).value as int == sat_add_u64(old(self).value as int, n as int),
    {
        if self.value > u64::MAX - n {
            self.value = u64::MAX;
        } else {
            self.value = self.value + n;
        }
    }

    /// Reads the counter.
    pub fn read(&self) -> (v: u64)
        ensures
            v == self.value,
    {
        self.value
    }
}

} // verus!
