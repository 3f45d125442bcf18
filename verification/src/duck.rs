//! The character controller: the per-tick motion state machine.
//!
//! Each tick runs four phases in a fixed order — gravity, horizontal
//! movement, jump handling, position resolution — over the character's
//! velocity and facing direction. The collision world and the input
//! source are external collaborators: their answers for this tick arrive
//! as plain values in a [`TickContext`], and the resolved positional
//! deltas leave as plain lengths in a [`TickMove`] for the world's move
//! primitives to apply.

use vstd::prelude::*;

use crate::geometry::XY;
use crate::physics::div_trunc;
use crate::physics::scaled_by_millis;
use crate::physics::spec_max;
use crate::physics::spec_min;
use crate::physics::Acceleration;
use crate::physics::Duration;
use crate::physics::Length;
use crate::physics::Velocity;
use crate::physics::EARTH_G_MMPS2;

verus! {

/// How high a jump may carry the character, in millimeters.
pub const MAX_JUMP_HEIGHT_MM: i64 = 1600;

/// Cap on upward speed while the jump input is held, in millimeters per
/// second.
pub const HOVER_VELOCITY_MMPS: i64 = 1600;

/// Gravity used by the simulation: twice standard gravity, in millimeters
/// per second per second.
pub const GRAVITY_MMPS2: i64 = 2 * EARTH_G_MMPS2;

/// Extra gravity applied when a jump is cut short, in millimeters per
/// second per second.
pub const ADDITIONAL_GRAVITY_MMPS2: i64 = GRAVITY_MMPS2;

/// Terminal fall speed, in millimeters per second.
pub const MAX_FALL_VELOCITY_MMPS: i64 = 10_000;

/// Top running speed, in millimeters per second.
pub const MAX_MOVE_VELOCITY_MMPS: i64 = 3_200;

/// How fast held input speeds the character up, in millimeters per second
/// per second.
pub const MOVE_ACCELERATION_MMPS2: i64 = 12_000;

/// How fast the character coasts to a stop, in millimeters per second per
/// second.
pub const MOVE_DECELERATION_MMPS2: i64 = 6_000;

/// Bound on any velocity component the controller ever holds, in
/// millimeters per second; keeps every tick's arithmetic inside `i64`.
pub const VELOCITY_LIMIT_MMPS: i64 = 100_000_000;

/// Bound on one frame's duration, in milliseconds.
pub const FRAME_MILLIS_LIMIT: i64 = 1_000_000;

/// Which way the character faces.
#[derive(Clone, Copy, PartialEq, Eq, Structural, Debug)]
pub enum HorizontalDirection {
    Left,
    Right,
}

/// The character state the controller owns: one velocity per axis and
/// the facing direction. The position itself is owned by the collision
/// world.
#[derive(Clone, Copy, Debug)]
pub struct Duck {
    pub velocity: XY<Velocity>,
    pub direction_h: HorizontalDirection,
}

impl Duck {
    /// Well-formed: both velocity components stay inside the global
    /// velocity bound.
    pub open spec fn wf(&self) -> bool {
        &&& -VELOCITY_LIMIT_MMPS <= self.velocity.x.millimeters_on_second <= VELOCITY_LIMIT_MMPS
        &&& -VELOCITY_LIMIT_MMPS <= self.velocity.y.millimeters_on_second <= VELOCITY_LIMIT_MMPS
    }

    /// A freshly spawned character: at rest, facing right.
    pub fn create() -> (r: Duck)
        ensures
            r.wf(),
            r.velocity.x.millimeters_on_second == 0,
            r.velocity.y.millimeters_on_second == 0,
            r.direction_h == HorizontalDirection::Right,
    {
        Duck {
            velocity: XY { x: Velocity::zero(), y: Velocity::zero() },
            direction_h: HorizontalDirection::Right,
        }
    }
}

/// The discrete input state read once per tick.
#[derive(Clone, Copy, Debug)]
pub struct InputState {
    pub right_down: bool,
    pub left_down: bool,
    pub space_down: bool,
    pub space_pressed: bool,
    pub down_down: bool,
}

impl InputState {
    /// No key held or pressed.
    pub fn idle() -> (r: InputState)
        ensures
            !r.right_down,
            !r.left_down,
            !r.space_down,
            !r.space_pressed,
            !r.down_down,
    {
        InputState {
            right_down: false,
            left_down: false,
            space_down: false,
            space_pressed: false,
            down_down: false,
        }
    }
}

/// Everything a tick consumes from the outside world: the frame time,
/// the collision world's answers to the two one-unit probes around the
/// character's footprint, and the input state.
#[derive(Clone, Copy, Debug)]
pub struct TickContext {
    /// Time elapsed since the previous tick.
    pub frame_time: Duration,
    /// The probe one unit below the footprint hit a collider.
    pub bottom_collides: bool,
    /// The probe one unit above the footprint hit a collider.
    pub top_collides: bool,
    /// A fully solid tile (not a jump-through) overlaps the probe above.
    pub top_solid: bool,
    pub input: InputState,
}

impl TickContext {
    /// Well-formed: the frame time is non-negative and bounded.
    pub open spec fn wf(&self) -> bool {
        0 <= self.frame_time.millis <= FRAME_MILLIS_LIMIT
    }
}

/// What a tick asks of the collision world: drop through a jump-through
/// platform first, then sweep by the two positional deltas.
#[derive(Clone, Copy, Debug)]
pub struct TickMove {
    pub descend: bool,
    pub dx: Length,
    pub dy: Length,
}

/// Horizontal deceleration while no input is held: the speed moves
/// toward zero by at most `dv`, sign-preserving and never overshooting.
pub open spec fn decelerated(vx: int, dv: int) -> int {
    if vx > 0 {
        spec_max(vx - dv, 0)
    } else if vx < 0 {
        -spec_max(-vx - dv, 0)
    } else {
        0
    }
}

/// Deceleration never overshoots zero or flips the sign within a single
/// tick, and brings the speed exactly to zero once one tick's worth of
/// deceleration reaches the current magnitude.
pub proof fn lemma_deceleration_no_overshoot(vx: int, dv: int)
    requires
        dv >= 0,
    ensures
        vx > 0 ==> 0 <= decelerated(vx, dv) <= vx,
        vx < 0 ==> vx <= decelerated(vx, dv) <= 0,
        vx == 0 ==> decelerated(vx, dv) == 0,
        dv >= (if vx >= 0 { vx } else { -vx }) ==> decelerated(vx, dv) == 0,
{
}

/// Floor of `sqrt(2 * g * h)` for the configured gravity and jump
/// height, in millimeters per second: the takeoff speed that carries the
/// character exactly to the maximum jump height.
pub open spec fn jump_takeoff_mmps() -> int {
    7919
}

/// The takeoff speed is the square root of `2 * g * h` (rounded down to
/// whole millimeters per second): its square is at most `2 * g * h`,
/// which the next speed's square already exceeds.
pub proof fn lemma_jump_takeoff_is_sqrt()
    ensures
        jump_takeoff_mmps() * jump_takeoff_mmps() <= 2 * GRAVITY_MMPS2 * MAX_JUMP_HEIGHT_MM,
        2 * GRAVITY_MMPS2 * MAX_JUMP_HEIGHT_MM < (jump_takeoff_mmps() + 1) * (jump_takeoff_mmps()
            + 1),
{
    assert(7919int * 7919 == 62710561);
    assert(7920int * 7920 == 62726400);
}

/// Takeoff speed from the projectile-motion energy equation
/// `v = sqrt(2 * g * h)`, so designers tune the jump height rather than
/// the launch speed. The result does not depend on the frame time.
pub fn jump_velocity() -> (r: Velocity)
    ensures
        r.millimeters_on_second == jump_takeoff_mmps(),
{
    let n: u64 = (2 * GRAVITY_MMPS2 * MAX_JUMP_HEIGHT_MM) as u64;
    let root = crate::physics::isqrt64(n);
    proof {
        lemma_jump_takeoff_is_sqrt();
        crate::physics::lemma_isqrt_unique(n as int, root as int, jump_takeoff_mmps());
    }
    Velocity::from_millimeters_on_second(root as i64)
}

/// The tick's phases, applied in order to the character state it was
/// created with. Bundles the state with the tick's context so each phase
/// reads the probes and input alongside the velocity it rewrites.
pub struct DuckUpdateAction {
    pub duck: Duck,
    pub ctx: TickContext,
    pub descend: bool,
}

impl DuckUpdateAction {
    pub open spec fn wf(&self) -> bool {
        self.duck.wf() && self.ctx.wf()
    }

    /// Grounded: the probe below hit something and the character is not
    /// on its way up (so a jump that just started does not stick to the
    /// ground).
    pub open spec fn is_on_ground_spec(&self) -> bool {
        self.ctx.bottom_collides && !self.is_moving_up_spec()
    }

    /// Moving up: negative vertical velocity (the y axis points down).
    pub open spec fn is_moving_up_spec(&self) -> bool {
        self.duck.velocity.y.millimeters_on_second < 0
    }

    /// A fully solid ceiling directly above: the probe above hit, and
    /// what it hit is solid rather than a jump-through platform.
    pub open spec fn is_top_at_solid_spec(&self) -> bool {
        self.ctx.top_collides && self.ctx.top_solid
    }

    pub open spec fn is_descent_spec(&self) -> bool {
        self.ctx.input.down_down && self.ctx.input.space_pressed && self.is_on_ground_spec()
    }

    pub open spec fn is_jump_start_spec(&self) -> bool {
        self.ctx.input.space_pressed && self.is_on_ground_spec()
    }

    pub open spec fn is_jump_end_spec(&self) -> bool {
        !self.ctx.input.space_down && self.duck.velocity.y.millimeters_on_second < 0
    }

    pub open spec fn is_hover_spec(&self) -> bool {
        self.ctx.input.space_down && self.duck.velocity.y.millimeters_on_second > 0
    }

    /// The vertical velocity after the gravity phase: snapped to zero on
    /// the ground, halved and inverted under a solid ceiling (a soft
    /// bounce), otherwise accumulating gravity up to the terminal fall
    /// speed.
    pub open spec fn gravity_velocity_y(&self) -> int {
        let vy = self.duck.velocity.y.millimeters_on_second as int;
        if self.is_on_ground_spec() {
            0
        } else if self.is_top_at_solid_spec() {
            div_trunc(-vy, 2)
        } else {
            spec_min(
                vy + scaled_by_millis(GRAVITY_MMPS2 as int, self.frame_millis()),
                MAX_FALL_VELOCITY_MMPS as int,
            )
        }
    }

    /// The horizontal velocity after the movement phase: accelerating
    /// toward the held direction's top speed (right taking precedence
    /// over left), or decaying toward zero with no input held.
    pub open spec fn move_velocity_x(&self) -> int {
        let vx = self.duck.velocity.x.millimeters_on_second as int;
        if self.ctx.input.right_down {
            spec_min(
                vx + scaled_by_millis(MOVE_ACCELERATION_MMPS2 as int, self.frame_millis()),
                MAX_MOVE_VELOCITY_MMPS as int,
            )
        } else if self.ctx.input.left_down {
            spec_max(
                vx - scaled_by_millis(MOVE_ACCELERATION_MMPS2 as int, self.frame_millis()),
                -MAX_MOVE_VELOCITY_MMPS as int,
            )
        } else {
            decelerated(vx, scaled_by_millis(MOVE_DECELERATION_MMPS2 as int, self.frame_millis()))
        }
    }

    /// The facing direction after the movement phase: matching the last
    /// active horizontal input, retained otherwise.
    pub open spec fn move_direction_h(&self) -> HorizontalDirection {
        if self.ctx.input.right_down {
            HorizontalDirection::Right
        } else if self.ctx.input.left_down {
            HorizontalDirection::Left
        } else {
            self.duck.direction_h
        }
    }

    /// The vertical velocity after the jump phase, given the velocity
    /// the earlier phases left: a descent through a platform gets a small
    /// downward push, a fresh jump gets the takeoff burst, a released
    /// jump is cut short by extra gravity, and a held jump caps upward
    /// speed at the hover velocity.
    pub open spec fn jump_velocity_y(&self) -> int {
        let vy = self.duck.velocity.y.millimeters_on_second as int;
        if self.is_descent_spec() {
            scaled_by_millis(2 * GRAVITY_MMPS2, self.frame_millis())
        } else if self.is_jump_start_spec() {
            -jump_takeoff_mmps()
        } else if self.is_jump_end_spec() {
            vy + scaled_by_millis(ADDITIONAL_GRAVITY_MMPS2 as int, self.frame_millis())
        } else if self.is_hover_spec() {
            spec_min(vy, HOVER_VELOCITY_MMPS as int)
        } else {
            vy
        }
    }

    /// Whether the jump phase asks the world to drop through the
    /// platform below.
    pub open spec fn jump_descend(&self) -> bool {
        self.descend || self.is_descent_spec()
    }

    pub open spec fn frame_millis(&self) -> int {
        self.ctx.frame_time.millis as int
    }

    pub fn new(duck: Duck, ctx: TickContext) -> (r: DuckUpdateAction)
        ensures
            r.duck == duck,
            r.ctx == ctx,
            !r.descend,
    {
        DuckUpdateAction { duck, ctx, descend: false }
    }

    pub fn is_on_ground(&self) -> (r: bool)
        ensures
            r == self.is_on_ground_spec(),
    {
        self.ctx.bottom_collides && !self.is_moving_up()
    }

    pub fn is_moving_up(&self) -> (r: bool)
        ensures
            r == self.is_moving_up_spec(),
    {
        self.duck.velocity.y.as_millimeters_on_second() < 0
    }

    pub fn is_top_at_solid(&self) -> (r: bool)
        ensures
            r == self.is_top_at_solid_spec(),
    {
        self.ctx.top_collides && self.ctx.top_solid
    }

    pub fn is_descent(&self) -> (r: bool)
        ensures
            r == self.is_descent_spec(),
    {
        self.ctx.input.down_down && self.ctx.input.space_pressed && self.is_on_ground()
    }

    pub fn is_jump_start(&self) -> (r: bool)
        ensures
            r == self.is_jump_start_spec(),
    {
        self.ctx.input.space_pressed && self.is_on_ground()
    }

    pub fn is_jump_end(&self) -> (r: bool)
        ensures
            r == self.is_jump_end_spec(),
    {
        !self.ctx.input.space_down && self.duck.velocity.y.as_millimeters_on_second() < 0
    }

    pub fn is_hover(&self) -> (r: bool)
        ensures
            r == self.is_hover_spec(),
    {
        self.ctx.input.space_down && self.duck.velocity.y.as_millimeters_on_second() > 0
    }

    /// Gravity phase.
    pub fn handle_gravity(&mut self)
        requires
            old(self).wf(),
        ensures
            final(self).wf(),
            final(self).duck.velocity.y.millimeters_on_second == old(self).gravity_velocity_y(),
            final(self).duck.velocity.x == old(self).duck.velocity.x,
            final(self).duck.direction_h == old(self).duck.direction_h,
            final(self).ctx == old(self).ctx,
            final(self).descend == old(self).descend,
    {
        if self.is_on_ground() {
            self.duck.velocity.y = Velocity::zero();
        } else if self.is_top_at_solid() {
            self.duck.velocity.y = self.duck.velocity.y.neg().div(2);
        } else {
            let g = Acceleration::from_millimeters_on_second_on_second(GRAVITY_MMPS2);
            let dv = g.mul_duration(self.ctx.frame_time);
            proof {
                crate::physics::lemma_scaled_by_millis_bounds(
                    GRAVITY_MMPS2 as int,
                    self.frame_millis(),
                );
            }
            self.duck.velocity.y = self.duck.velocity.y.add(dv).min(
                Velocity::from_millimeters_on_second(MAX_FALL_VELOCITY_MMPS),
            );
        }
    }

    /// Movement phase.
    pub fn handle_move(&mut self)
        requires
            old(self).wf(),
        ensures
            final(self).wf(),
            final(self).duck.velocity.x.millimeters_on_second == old(self).move_velocity_x(),
            final(self).duck.direction_h == old(self).move_direction_h(),
            final(self).duck.velocity.y == old(self).duck.velocity.y,
            final(self).ctx == old(self).ctx,
            final(self).descend == old(self).descend,
    {
        proof {
            crate::physics::lemma_scaled_by_millis_bounds(
                MOVE_ACCELERATION_MMPS2 as int,
                self.frame_millis(),
            );
            crate::physics::lemma_scaled_by_millis_bounds(
                MOVE_DECELERATION_MMPS2 as int,
                self.frame_millis(),
            );
        }
        if self.ctx.input.right_down {
            let dv = Acceleration::from_millimeters_on_second_on_second(
                MOVE_ACCELERATION_MMPS2,
            ).mul_duration(self.ctx.frame_time);
            self.duck.velocity.x = self.duck.velocity.x.add(dv).min(
                Velocity::from_millimeters_on_second(MAX_MOVE_VELOCITY_MMPS),
            );
            self.duck.direction_h = HorizontalDirection::Right;
        } else if self.ctx.input.left_down {
            let dv = Acceleration::from_millimeters_on_second_on_second(
                MOVE_ACCELERATION_MMPS2,
            ).mul_duration(self.ctx.frame_time);
            self.duck.velocity.x = self.duck.velocity.x.sub(dv).max(
                Velocity::from_millimeters_on_second(-MAX_MOVE_VELOCITY_MMPS),
            );
            self.duck.direction_h = HorizontalDirection::Left;
        } else {
            let dv = Acceleration::from_millimeters_on_second_on_second(
                MOVE_DECELERATION_MMPS2,
            ).mul_duration(self.ctx.frame_time);
            let sign = self.duck.velocity.x.signum();
            self.duck.velocity.x = self.duck.velocity.x.abs().sub(dv).max(
                Velocity::zero(),
            ).scale(sign);
        }
    }

    /// Jump phase.
    pub fn handle_jump(&mut self)
        requires
            old(self).wf(),
        ensures
            final(self).wf(),
            final(self).duck.velocity.y.millimeters_on_second == old(self).jump_velocity_y(),
            final(self).descend == old(self).jump_descend(),
            final(self).duck.velocity.x == old(self).duck.velocity.x,
            final(self).duck.direction_h == old(self).duck.direction_h,
            final(self).ctx == old(self).ctx,
    {
        proof {
            crate::physics::lemma_scaled_by_millis_bounds(
                2 * GRAVITY_MMPS2 as int,
                self.frame_millis(),
            );
            crate::physics::lemma_scaled_by_millis_bounds(
                ADDITIONAL_GRAVITY_MMPS2 as int,
                self.frame_millis(),
            );
        }
        if self.is_descent() {
            self.descend = true;
            let g2 = Acceleration::from_millimeters_on_second_on_second(GRAVITY_MMPS2).scale(2);
            self.duck.velocity.y = g2.mul_duration(self.ctx.frame_time);
        } else if self.is_jump_start() {
            self.duck.velocity.y = jump_velocity().neg();
        } else if self.is_jump_end() {
            let dv = Acceleration::from_millimeters_on_second_on_second(
                ADDITIONAL_GRAVITY_MMPS2,
            ).mul_duration(self.ctx.frame_time);
            self.duck.velocity.y = self.duck.velocity.y.add(dv);
        } else if self.is_hover() {
            self.duck.velocity.y = self.duck.velocity.y.min(
                Velocity::from_millimeters_on_second(HOVER_VELOCITY_MMPS),
            );
        }
    }

    /// Position resolution: both axis velocities over the frame time
    /// become positional deltas for the collision world's sweeps.
    pub fn update_position(&self) -> (r: (Length, Length))
        requires
            self.wf(),
        ensures
            r.0.millimeters == scaled_by_millis(
                self.duck.velocity.x.millimeters_on_second as int,
                self.frame_millis(),
            ),
            r.1.millimeters == scaled_by_millis(
                self.duck.velocity.y.millimeters_on_second as int,
                self.frame_millis(),
            ),
    {
        proof {
            crate::physics::lemma_mul_magnitude_bounded(
                self.duck.velocity.x.millimeters_on_second as int,
                self.frame_millis(),
                VELOCITY_LIMIT_MMPS as int,
                FRAME_MILLIS_LIMIT as int,
            );
            crate::physics::lemma_mul_magnitude_bounded(
                self.duck.velocity.y.millimeters_on_second as int,
                self.frame_millis(),
                VELOCITY_LIMIT_MMPS as int,
                FRAME_MILLIS_LIMIT as int,
            );
        }
        let dx = self.duck.velocity.x.mul_duration(self.ctx.frame_time);
        let dy = self.duck.velocity.y.mul_duration(self.ctx.frame_time);
        (dx, dy)
    }

    /// Run the whole tick: gravity, movement, jump, position resolution,
    /// in that order. Returns the new character state and the requests
    /// for the collision world. Every phase is total: no input can fail.
    pub fn apply(self) -> (r: (Duck, TickMove))
        requires
            self.wf(),
        ensures
            r.0.wf(),
            ({
                let a1 = self.spec_after_gravity();
                let a2 = a1.spec_after_move();
                let a3 = a2.spec_after_jump();
                &&& r.0 == a3.duck
                &&& r.1.descend == a3.descend
                &&& r.1.dx.millimeters == scaled_by_millis(
                    a3.duck.velocity.x.millimeters_on_second as int,
                    self.frame_millis(),
                )
                &&& r.1.dy.millimeters == scaled_by_millis(
                    a3.duck.velocity.y.millimeters_on_second as int,
                    self.frame_millis(),
                )
            }),
    {
        let mut action = self;
        action.handle_gravity();
        action.handle_move();
        action.handle_jump();
        let (dx, dy) = action.update_position();
        (action.duck, TickMove { descend: action.descend, dx, dy })
    }

    /// The action state after the gravity phase.
    pub open spec fn spec_after_gravity(self) -> DuckUpdateAction {
        DuckUpdateAction {
            duck: Duck {
                velocity: XY {
                    x: self.duck.velocity.x,
                    y: Velocity { millimeters_on_second: self.gravity_velocity_y() as i64 },
                },
                ..self.duck
            },
            ..self
        }
    }

    /// The action state after the movement phase.
    pub open spec fn spec_after_move(self) -> DuckUpdateAction {
        DuckUpdateAction {
            duck: Duck {
                velocity: XY {
                    x: Velocity { millimeters_on_second: self.move_velocity_x() as i64 },
                    y: self.duck.velocity.y,
                },
                direction_h: self.move_direction_h(),
            },
            ..self
        }
    }

    /// The action state after the jump phase.
    pub open spec fn spec_after_jump(self) -> DuckUpdateAction {
        DuckUpdateAction {
            duck: Duck {
                velocity: XY {
                    x: self.duck.velocity.x,
                    y: Velocity { millimeters_on_second: self.jump_velocity_y() as i64 },
                },
                ..self.duck
            },
            descend: self.jump_descend(),
            ..self
        }
    }
}

/// A character at rest on the ground with no input held stays exactly
/// where it is: after one tick of any length, both velocity components
/// are zero, no descent is requested, and both positional deltas are
/// zero.
pub proof fn lemma_rest_tick_is_still(action: DuckUpdateAction)
    requires
        action.wf(),
        !action.descend,
        action.duck.velocity.x.millimeters_on_second == 0,
        action.duck.velocity.y.millimeters_on_second == 0,
        action.ctx.bottom_collides,
        !action.ctx.input.right_down,
        !action.ctx.input.left_down,
        !action.ctx.input.space_down,
        !action.ctx.input.space_pressed,
        !action.ctx.input.down_down,
    ensures
        ({
            let a3 = action.spec_after_gravity().spec_after_move().spec_after_jump();
            &&& a3.duck.velocity.x.millimeters_on_second == 0
            &&& a3.duck.velocity.y.millimeters_on_second == 0
            &&& a3.duck.direction_h == action.duck.direction_h
            &&& !a3.descend
            &&& scaled_by_millis(
                a3.duck.velocity.x.millimeters_on_second as int,
                action.frame_millis(),
            ) == 0
            &&& scaled_by_millis(
                a3.duck.velocity.y.millimeters_on_second as int,
                action.frame_millis(),
            ) == 0
        }),
{
}

} // verus!
