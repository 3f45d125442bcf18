//! Integer 2D points and axis-aligned rectangles in world units.

use vstd::prelude::*;

verus! {

/// Largest magnitude of a world coordinate the library works with; keeps
/// all camera and motion arithmetic far inside `i64`.
pub const COORD_LIMIT: i64 = 0x4000_0000;

/// A pair of like quantities, one per axis.
#[derive(Clone, Copy, Debug)]
pub struct XY<T> {
    pub x: T,
    pub y: T,
}

/// A 2D point or size in integer world units.
#[derive(Clone, Copy, PartialEq, Eq, Structural, Debug)]
pub struct Vec2i {
    pub x: i64,
    pub y: i64,
}

impl Vec2i {
    pub fn new(x: i64, y: i64) -> (r: Vec2i)
        ensures
            r.x == x,
            r.y == y,
    {
        Vec2i { x, y }
    }
}

/// An axis-aligned rectangle: top-left corner plus size.
#[derive(Clone, Copy, PartialEq, Eq, Structural, Debug)]
pub struct Recti {
    pub x: i64,
    pub y: i64,
    pub w: i64,
    pub h: i64,
}

impl Recti {
    pub fn new(x: i64, y: i64, w: i64, h: i64) -> (r: Recti)
        ensures
            r.x == x,
            r.y == y,
            r.w == w,
            r.h == h,
    {
        Recti { x, y, w, h }
    }
}

} // verus!
