//! Elapsed time between two simulation ticks.

use vstd::prelude::*;

verus! {

/// A non-negative span of time in milliseconds, as handed to the
/// simulation once per tick by the frame clock.
#[derive(Clone, Copy, PartialEq, Eq, Structural, Debug)]
pub struct Duration {
    pub millis: i64,
}

impl Duration {
    pub fn from_millis(val: i64) -> (r: Duration)
        requires
            val >= 0,
        ensures
            r.millis == val,
    {
        Duration { millis: val }
    }

    pub fn as_millis(&self) -> (r: i64)
        ensures
            r == self.millis,
    {
        self.millis
    }
}

} // verus!
