//! Smoothed-follow camera with viewport clamping.
//!
//! The camera consumes one focus point per tick (the character's center),
//! eases toward it through two fixed-capacity follow buffers — a slow
//! horizontal one and a faster vertical one — and exposes a viewport
//! rectangle that never extends past the map bounds whenever the map is
//! at least as large as the viewport.

pub mod follow_buffer;

use vstd::prelude::*;

use crate::camera::follow_buffer::mean_of;
use crate::camera::follow_buffer::window_push;
use crate::camera::follow_buffer::FollowBuffer;
use crate::geometry::Recti;
use crate::geometry::Vec2i;
use crate::geometry::COORD_LIMIT;
use crate::physics::div_trunc;
use crate::physics::spec_max;
use crate::physics::spec_min;

verus! {

/// Capacity of the horizontal follow buffer: many samples, so the camera
/// trails sideways movement slowly.
pub const FOLLOW_X_BUFFER_CAPACITY: usize = 75;

/// Capacity of the vertical follow buffer: few samples, so the camera
/// answers jumps and falls quickly.
pub const FOLLOW_Y_BUFFER_CAPACITY: usize = 25;

/// One axis of the viewport clamp: center the window of size `vp` on `c`,
/// then shift it back by any overhang past `map` and forward by any
/// underhang past the origin, in that order. When the map is smaller than
/// the viewport on an axis the two shifts conflict; both still apply, so
/// the origin-side correction, added last, wins.
pub open spec fn clamp_axis(c: int, vp: int, map: int) -> int {
    let start = c - vp / 2;
    let end = start + vp;
    start + spec_min(map - end, 0) + spec_max(-start, 0)
}

/// A viewport no larger than the map is clamped fully inside it: the
/// clamped start is never negative and the far edge never passes the map
/// edge, whatever center was requested.
pub proof fn lemma_clamp_axis_in_bounds(c: int, vp: int, map: int)
    requires
        0 <= vp <= map,
    ensures
        0 <= clamp_axis(c, vp, map),
        clamp_axis(c, vp, map) + vp <= map,
{
}

/// The camera: map and viewport sizes fixed at construction, the two
/// follow buffers fed each tick, and the most recently computed viewport.
pub struct Camera {
    pub map_size: Vec2i,
    pub viewport_size: Vec2i,
    pub viewport: Recti,
    pub x_follow_buffer: FollowBuffer,
    pub y_follow_buffer: FollowBuffer,
}

/// The horizontal follow window after feeding it one focus sample: a
/// sample equal to the most recent one is not pushed again.
pub open spec fn updated_x_window(cam: Camera, fx: i64) -> Seq<i64> {
    if cam.x_follow_buffer.last_spec() == Some(fx) {
        cam.x_follow_buffer.samples@
    } else {
        window_push(cam.x_follow_buffer.samples@, cam.x_follow_buffer.capacity as int, fx)
    }
}

/// The vertical follow window after feeding it one focus sample: always
/// pushed.
pub open spec fn updated_y_window(cam: Camera, fy: i64) -> Seq<i64> {
    window_push(cam.y_follow_buffer.samples@, cam.y_follow_buffer.capacity as int, fy)
}

/// Where the viewport is centered for a focus point: the focus eased away
/// from the buffer means, with the vertical easing halved.
pub open spec fn viewport_center_spec(cam: Camera, focus: Vec2i) -> (int, int) {
    let x_offset = focus.x - mean_of(updated_x_window(cam, focus.x));
    let y_offset = div_trunc(mean_of(updated_y_window(cam, focus.y)) - focus.y, 2);
    (focus.x + x_offset, focus.y + y_offset)
}

impl Camera {
    /// Well-formed: sizes are bounded non-negative world units and both
    /// follow buffers are within capacity.
    pub open spec fn wf(&self) -> bool {
        &&& 0 <= self.map_size.x <= COORD_LIMIT
        &&& 0 <= self.map_size.y <= COORD_LIMIT
        &&& 0 <= self.viewport_size.x <= COORD_LIMIT
        &&& 0 <= self.viewport_size.y <= COORD_LIMIT
        &&& self.x_follow_buffer.wf()
        &&& self.y_follow_buffer.wf()
    }

    pub fn new(map_size: Vec2i, viewport_size: Vec2i) -> (r: Camera)
        requires
            0 <= map_size.x <= COORD_LIMIT,
            0 <= map_size.y <= COORD_LIMIT,
            0 <= viewport_size.x <= COORD_LIMIT,
            0 <= viewport_size.y <= COORD_LIMIT,
        ensures
            r.wf(),
            r.map_size == map_size,
            r.viewport_size == viewport_size,
            r.viewport == (Recti { x: 0, y: 0, w: 0, h: 0 }),
            r.x_follow_buffer.samples@ == Seq::<i64>::empty(),
            r.y_follow_buffer.samples@ == Seq::<i64>::empty(),
            r.x_follow_buffer.capacity == FOLLOW_X_BUFFER_CAPACITY,
            r.y_follow_buffer.capacity == FOLLOW_Y_BUFFER_CAPACITY,
    {
        Camera {
            map_size,
            viewport_size,
            x_follow_buffer: FollowBuffer::new(FOLLOW_X_BUFFER_CAPACITY),
            y_follow_buffer: FollowBuffer::new(FOLLOW_Y_BUFFER_CAPACITY),
            viewport: Recti::new(0, 0, 0, 0),
        }
    }

    /// The most recently computed viewport rectangle. Reading it does not
    /// change the camera, so two reads without an intervening `update`
    /// return the same rectangle.
    pub fn viewport(&self) -> (r: Recti)
        ensures
            r == self.viewport,
    {
        self.viewport
    }

    /// One camera tick: feed the focus point to the follow buffers, then
    /// recompute the viewport, clamped to the map bounds.
    pub fn update(&mut self, focus_position: Vec2i)
        requires
            old(self).wf(),
            -COORD_LIMIT <= focus_position.x <= COORD_LIMIT,
            -COORD_LIMIT <= focus_position.y <= COORD_LIMIT,
        ensures
            final(self).wf(),
            final(self).map_size == old(self).map_size,
            final(self).viewport_size == old(self).viewport_size,
            final(self).x_follow_buffer.samples@ == updated_x_window(*old(self), focus_position.x),
            final(self).y_follow_buffer.samples@ == updated_y_window(*old(self), focus_position.y),
            final(self).x_follow_buffer.capacity == old(self).x_follow_buffer.capacity,
            final(self).y_follow_buffer.capacity == old(self).y_follow_buffer.capacity,
            final(self).viewport.x == clamp_axis(
                viewport_center_spec(*old(self), focus_position).0,
                old(self).viewport_size.x as int,
                old(self).map_size.x as int,
            ),
            final(self).viewport.y == clamp_axis(
                viewport_center_spec(*old(self), focus_position).1,
                old(self).viewport_size.y as int,
                old(self).map_size.y as int,
            ),
            final(self).viewport.w == old(self).viewport_size.x,
            final(self).viewport.h == old(self).viewport_size.y,
            old(self).viewport_size.x <= old(self).map_size.x ==> 0 <= final(self).viewport.x
                && final(self).viewport.x + final(self).viewport.w <= old(self).map_size.x,
            old(self).viewport_size.y <= old(self).map_size.y ==> 0 <= final(self).viewport.y
                && final(self).viewport.y + final(self).viewport.h <= old(self).map_size.y,
    {
        self.update_follow_buffers(focus_position);
        self.update_viewport(focus_position);
        proof {
            if old(self).viewport_size.x <= old(self).map_size.x {
                lemma_clamp_axis_in_bounds(
                    viewport_center_spec(*old(self), focus_position).0,
                    old(self).viewport_size.x as int,
                    old(self).map_size.x as int,
                );
            }
            if old(self).viewport_size.y <= old(self).map_size.y {
                lemma_clamp_axis_in_bounds(
                    viewport_center_spec(*old(self), focus_position).1,
                    old(self).viewport_size.y as int,
                    old(self).map_size.y as int,
                );
            }
        }
    }

    /// Feed one focus point into the follow buffers: the horizontal
    /// sample only when it differs from the most recent one (damping
    /// redundant samples while standing still), the vertical sample
    /// always.
    fn update_follow_buffers(&mut self, focus_position: Vec2i)
        requires
            old(self).wf(),
            -COORD_LIMIT <= focus_position.x <= COORD_LIMIT,
            -COORD_LIMIT <= focus_position.y <= COORD_LIMIT,
        ensures
            final(self).wf(),
            final(self).map_size == old(self).map_size,
            final(self).viewport_size == old(self).viewport_size,
            final(self).viewport == old(self).viewport,
            final(self).x_follow_buffer.samples@ == updated_x_window(*old(self), focus_position.x),
            final(self).y_follow_buffer.samples@ == updated_y_window(*old(self), focus_position.y),
            final(self).x_follow_buffer.capacity == old(self).x_follow_buffer.capacity,
            final(self).y_follow_buffer.capacity == old(self).y_follow_buffer.capacity,
            final(self).x_follow_buffer.samples@.len() >= 1,
            final(self).y_follow_buffer.samples@.len() >= 1,
    {
        let last = self.x_follow_buffer.last();
        let push_x = match last {
            Some(v) => v != focus_position.x,
            None => true,
        };
        if push_x {
            self.x_follow_buffer.push(focus_position.x);
        }
        self.y_follow_buffer.push(focus_position.y);
    }

    /// Recompute the viewport from the current follow windows: ease the
    /// center away from the focus point, then clamp to the map.
    fn update_viewport(&mut self, focus_position: Vec2i)
        requires
            old(self).wf(),
            old(self).x_follow_buffer.samples@.len() >= 1,
            old(self).y_follow_buffer.samples@.len() >= 1,
            -COORD_LIMIT <= focus_position.x <= COORD_LIMIT,
            -COORD_LIMIT <= focus_position.y <= COORD_LIMIT,
        ensures
            final(self).wf(),
            *final(self) == (Camera { viewport: final(self).viewport, ..*old(self) }),
            final(self).viewport.x == clamp_axis(
                focus_position.x + (focus_position.x - old(self).x_follow_buffer.mean_spec()),
                old(self).viewport_size.x as int,
                old(self).map_size.x as int,
            ),
            final(self).viewport.y == clamp_axis(
                focus_position.y + div_trunc(
                    old(self).y_follow_buffer.mean_spec() - focus_position.y,
                    2,
                ),
                old(self).viewport_size.y as int,
                old(self).map_size.y as int,
            ),
            final(self).viewport.w == old(self).viewport_size.x,
            final(self).viewport.h == old(self).viewport_size.y,
    {
        let x_offset = focus_position.x - self.x_follow_buffer.mean();
        let y_offset = (self.y_follow_buffer.mean() - focus_position.y) / 2;
        let viewport_center = Vec2i::new(focus_position.x + x_offset, focus_position.y + y_offset);
        self.viewport = self.get_viewport_bounded_by_window_size(viewport_center);
    }

    /// The viewport of the configured size centered as close to
    /// `viewport_center` as the map bounds allow: any overhang past the
    /// far map edge shifts it back, then any underhang past the origin
    /// shifts it forward. Whenever the viewport fits in the map, the
    /// result lies fully inside `[0, map_size]` on that axis.
    pub fn get_viewport_bounded_by_window_size(&self, viewport_center: Vec2i) -> (r: Recti)
        requires
            self.wf(),
            -4 * COORD_LIMIT <= viewport_center.x <= 4 * COORD_LIMIT,
            -4 * COORD_LIMIT <= viewport_center.y <= 4 * COORD_LIMIT,
        ensures
            r.x == clamp_axis(
                viewport_center.x as int,
                self.viewport_size.x as int,
                self.map_size.x as int,
            ),
            r.y == clamp_axis(
                viewport_center.y as int,
                self.viewport_size.y as int,
                self.map_size.y as int,
            ),
            r.w == self.viewport_size.x,
            r.h == self.viewport_size.y,
            self.viewport_size.x <= self.map_size.x ==> 0 <= r.x && r.x + r.w
                <= self.map_size.x,
            self.viewport_size.y <= self.map_size.y ==> 0 <= r.y && r.y + r.h
                <= self.map_size.y,
    {
        let x = clamp_axis_exec(viewport_center.x, self.viewport_size.x, self.map_size.x);
        let y = clamp_axis_exec(viewport_center.y, self.viewport_size.y, self.map_size.y);
        Recti::new(x, y, self.viewport_size.x, self.viewport_size.y)
    }
}

/// Executable form of [`clamp_axis`].
fn clamp_axis_exec(c: i64, vp: i64, map: i64) -> (r: i64)
    requires
        0 <= vp <= COORD_LIMIT,
        0 <= map <= COORD_LIMIT,
        -4 * COORD_LIMIT <= c <= 4 * COORD_LIMIT,
    ensures
        r == clamp_axis(c as int, vp as int, map as int),
{
    let start = c - vp / 2;
    let end = start + vp;
    let back_shift = min64(map - end, 0);
    let forward_shift = max64(-start, 0);
    start + back_shift + forward_shift
}

fn min64(a: i64, b: i64) -> (r: i64)
    ensures
        r == spec_min(a as int, b as int),
{
    if a <= b {
        a
    } else {
        b
    }
}

fn max64(a: i64, b: i64) -> (r: i64)
    ensures
        r == spec_max(a as int, b as int),
{
    if a >= b {
        a
    } else {
        b
    }
}

} // verus!
