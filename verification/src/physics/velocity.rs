//! Speed along one axis.

use vstd::prelude::*;

use crate::physics::duration::Duration;
use crate::physics::length::Length;
use crate::physics::scaled_by_millis;
use crate::physics::MILLIS_ON_SECOND;

verus! {

/// A signed speed in millimeters per second.
#[derive(Default, Clone, Copy, PartialEq, Eq, Structural, Debug)]
pub struct Velocity {
    pub millimeters_on_second: i64,
}

impl Velocity {
    pub fn zero() -> (r: Velocity)
        ensures
            r.millimeters_on_second == 0,
    {
        Velocity { millimeters_on_second: 0 }
    }

    pub fn from_millimeters_on_second(val: i64) -> (r: Velocity)
        ensures
            r.millimeters_on_second == val,
    {
        Velocity { millimeters_on_second: val }
    }

    pub fn as_millimeters_on_second(&self) -> (r: i64)
        ensures
            r == self.millimeters_on_second,
    {
        self.millimeters_on_second
    }

    /// The smaller of the two speeds.
    pub fn min(&self, other: Velocity) -> (r: Velocity)
        ensures
            r.millimeters_on_second == crate::physics::spec_min(
                self.millimeters_on_second as int,
                other.millimeters_on_second as int,
            ),
    {
        if self.millimeters_on_second <= other.millimeters_on_second {
            *self
        } else {
            other
        }
    }

    /// The larger of the two speeds.
    pub fn max(&self, other: Velocity) -> (r: Velocity)
        ensures
            r.millimeters_on_second == crate::physics::spec_max(
                self.millimeters_on_second as int,
                other.millimeters_on_second as int,
            ),
    {
        if self.millimeters_on_second >= other.millimeters_on_second {
            *self
        } else {
            other
        }
    }

    /// The magnitude of the speed.
    pub fn abs(&self) -> (r: Velocity)
        requires
            self.millimeters_on_second != i64::MIN,
        ensures
            r.millimeters_on_second == if self.millimeters_on_second >= 0 {
                self.millimeters_on_second as int
            } else {
                -(self.millimeters_on_second as int)
            },
    {
        if self.millimeters_on_second >= 0 {
            *self
        } else {
            Velocity { millimeters_on_second: -self.millimeters_on_second }
        }
    }

    /// The sign of the speed: -1, 0 or 1.
    pub fn signum(&self) -> (r: i64)
        ensures
            self.millimeters_on_second > 0 ==> r == 1,
            self.millimeters_on_second == 0 ==> r == 0,
            self.millimeters_on_second < 0 ==> r == -1,
    {
        if self.millimeters_on_second > 0 {
            1
        } else if self.millimeters_on_second < 0 {
            -1
        } else {
            0
        }
    }

    /// Sum of two speeds.
    pub fn add(&self, rhs: Velocity) -> (r: Velocity)
        requires
            i64::MIN <= self.millimeters_on_second + rhs.millimeters_on_second <= i64::MAX,
        ensures
            r.millimeters_on_second
                == self.millimeters_on_second + rhs.millimeters_on_second,
    {
        Velocity { millimeters_on_second: self.millimeters_on_second + rhs.millimeters_on_second }
    }

    /// Difference of two speeds.
    pub fn sub(&self, rhs: Velocity) -> (r: Velocity)
        requires
            i64::MIN <= self.millimeters_on_second - rhs.millimeters_on_second <= i64::MAX,
        ensures
            r.millimeters_on_second
                == self.millimeters_on_second - rhs.millimeters_on_second,
    {
        Velocity { millimeters_on_second: self.millimeters_on_second - rhs.millimeters_on_second }
    }

    /// The speed with its direction reversed.
    pub fn neg(&self) -> (r: Velocity)
        requires
            self.millimeters_on_second != i64::MIN,
        ensures
            r.millimeters_on_second == -(self.millimeters_on_second as int),
    {
        Velocity { millimeters_on_second: -self.millimeters_on_second }
    }

    /// The speed scaled by an integer factor.
    pub fn scale(&self, k: i64) -> (r: Velocity)
        requires
            i64::MIN <= self.millimeters_on_second * k <= i64::MAX,
        ensures
            r.millimeters_on_second == self.millimeters_on_second * k,
    {
        Velocity { millimeters_on_second: self.millimeters_on_second * k }
    }

    /// The speed divided by a positive integer factor, truncating toward
    /// zero.
    pub fn div(&self, rhs: i64) -> (r: Velocity)
        requires
            rhs > 0,
        ensures
            r.millimeters_on_second == crate::physics::div_trunc(
                self.millimeters_on_second as int,
                rhs as int,
            ),
    {
        Velocity { millimeters_on_second: self.millimeters_on_second / rhs }
    }

    /// Distance covered at this speed over a duration: velocity x time
    /// gives a length, truncated toward zero to whole millimeters.
    pub fn mul_duration(&self, rhs: Duration) -> (r: Length)
        requires
            rhs.millis >= 0,
            i64::MIN <= self.millimeters_on_second * rhs.millis <= i64::MAX,
        ensures
            r.millimeters == scaled_by_millis(
                self.millimeters_on_second as int,
                rhs.millis as int,
            ),
    {
        Length::from_millimeters((self.millimeters_on_second * rhs.millis) / MILLIS_ON_SECOND)
    }
}

} // verus!
