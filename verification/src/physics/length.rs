//! Distance along one axis.

use vstd::prelude::*;

verus! {

/// A signed distance in millimeters.
#[derive(Clone, Copy, PartialEq, Eq, Structural, Debug)]
pub struct Length {
    pub millimeters: i64,
}

impl Length {
    pub fn from_millimeters(val: i64) -> (r: Length)
        ensures
            r.millimeters == val,
    {
        Length { millimeters: val }
    }

    pub fn as_millimeters(&self) -> (r: i64)
        ensures
            r == self.millimeters,
    {
        self.millimeters
    }

    /// The distance in whole centimeters, truncated toward zero.
    pub fn as_cm(&self) -> (r: i64)
        ensures
            r == crate::physics::div_trunc(self.millimeters as int, 10),
    {
        self.millimeters / 10
    }
}

} // verus!
