//! Rate of change of speed along one axis.

use vstd::prelude::*;

use crate::physics::duration::Duration;
use crate::physics::scaled_by_millis;
use crate::physics::velocity::Velocity;
use crate::physics::MILLIS_ON_SECOND;

verus! {

/// A signed acceleration in millimeters per second per second.
#[derive(Clone, Copy, PartialEq, Eq, Structural, Debug)]
pub struct Acceleration {
    pub millimeters_on_second_on_second: i64,
}

impl Acceleration {
    pub fn from_millimeters_on_second_on_second(val: i64) -> (r: Acceleration)
        ensures
            r.millimeters_on_second_on_second == val,
    {
        Acceleration { millimeters_on_second_on_second: val }
    }

    pub fn as_millimeters_on_second_on_second(&self) -> (r: i64)
        ensures
            r == self.millimeters_on_second_on_second,
    {
        self.millimeters_on_second_on_second
    }

    /// The acceleration scaled by an integer factor.
    pub fn scale(&self, k: i64) -> (r: Acceleration)
        requires
            i64::MIN <= self.millimeters_on_second_on_second * k <= i64::MAX,
        ensures
            r.millimeters_on_second_on_second == self.millimeters_on_second_on_second * k,
    {
        Acceleration {
            millimeters_on_second_on_second: self.millimeters_on_second_on_second * k,
        }
    }

    /// Speed gained at this acceleration over a duration: acceleration x
    /// time gives a velocity, truncated toward zero to whole millimeters
    /// per second.
    pub fn mul_duration(&self, rhs: Duration) -> (r: Velocity)
        requires
            rhs.millis >= 0,
            i64::MIN <= self.millimeters_on_second_on_second * rhs.millis <= i64::MAX,
        ensures
            r.millimeters_on_second == scaled_by_millis(
                self.millimeters_on_second_on_second as int,
                rhs.millis as int,
            ),
    {
        Velocity::from_millimeters_on_second(
            (self.millimeters_on_second_on_second * rhs.millis) / MILLIS_ON_SECOND,
        )
    }
}

} // verus!
