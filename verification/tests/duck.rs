use duck_platformer::duck::jump_velocity;
use duck_platformer::duck::Duck;
use duck_platformer::duck::DuckUpdateAction;
use duck_platformer::duck::HorizontalDirection;
use duck_platformer::duck::InputState;
use duck_platformer::duck::TickContext;
use duck_platformer::physics::Duration;
use duck_platformer::physics::Velocity;

fn airborne_ctx(frame_millis: i64, input: InputState) -> TickContext {
    TickContext {
        frame_time: Duration::from_millis(frame_millis),
        bottom_collides: false,
        top_collides: false,
        top_solid: false,
        input,
    }
}

fn grounded_ctx(frame_millis: i64, input: InputState) -> TickContext {
    TickContext {
        frame_time: Duration::from_millis(frame_millis),
        bottom_collides: true,
        top_collides: false,
        top_solid: false,
        input,
    }
}

#[test]
fn takeoff_velocity_is_sqrt_of_twice_gravity_times_height() {
    // floor(sqrt(2 * 19600 * 1600)) == floor(sqrt(62720000)) == 7919
    assert_eq!(jump_velocity().as_millimeters_on_second(), 7919);
}

#[test]
fn rest_on_ground_with_no_input_stays_still() {
    let duck = Duck::create();
    let action = DuckUpdateAction::new(duck, grounded_ctx(16, InputState::idle()));
    let (after, tick_move) = action.apply();
    assert_eq!(after.velocity.x.as_millimeters_on_second(), 0);
    assert_eq!(after.velocity.y.as_millimeters_on_second(), 0);
    assert!(!tick_move.descend);
    assert_eq!(tick_move.dx.as_millimeters(), 0);
    assert_eq!(tick_move.dy.as_millimeters(), 0);
}

#[test]
fn gravity_accumulates_while_airborne() {
    let duck = Duck::create();
    let action = DuckUpdateAction::new(duck, airborne_ctx(16, InputState::idle()));
    let (after, _) = action.apply();
    // 19600 mm/s^2 over 16 ms: 19600 * 16 / 1000 == 313 mm/s
    assert_eq!(after.velocity.y.as_millimeters_on_second(), 313);
}

#[test]
fn fall_speed_is_clamped_at_terminal_velocity() {
    let mut duck = Duck::create();
    duck.velocity.y = Velocity::from_millimeters_on_second(9950);
    let action = DuckUpdateAction::new(duck, airborne_ctx(1000, InputState::idle()));
    let (after, _) = action.apply();
    assert_eq!(after.velocity.y.as_millimeters_on_second(), 10000);
}

#[test]
fn ceiling_bounce_halves_and_inverts_upward_velocity() {
    let mut duck = Duck::create();
    duck.velocity.y = Velocity::from_millimeters_on_second(-1000);
    let ctx = TickContext {
        frame_time: Duration::from_millis(16),
        bottom_collides: false,
        top_collides: true,
        top_solid: true,
        input: InputState::idle(),
    };
    let (after, _) = DuckUpdateAction::new(duck, ctx).apply();
    assert_eq!(after.velocity.y.as_millimeters_on_second(), 500);
}

#[test]
fn jump_start_sets_takeoff_velocity() {
    let duck = Duck::create();
    let input = InputState { space_pressed: true, ..InputState::idle() };
    let (after, tick_move) = DuckUpdateAction::new(duck, grounded_ctx(16, input)).apply();
    assert_eq!(after.velocity.y.as_millimeters_on_second(), -7919);
    assert!(!tick_move.descend);
    // -7919 mm/s over 16 ms: -7919 * 16 / 1000 truncates to -126 mm
    assert_eq!(tick_move.dy.as_millimeters(), -126);
}

#[test]
fn descent_drops_through_platform_with_downward_push() {
    let duck = Duck::create();
    let input = InputState { space_pressed: true, down_down: true, ..InputState::idle() };
    let (after, tick_move) = DuckUpdateAction::new(duck, grounded_ctx(16, input)).apply();
    assert!(tick_move.descend);
    // 2 * 19600 mm/s^2 over 16 ms: 39200 * 16 / 1000 == 627 mm/s
    assert_eq!(after.velocity.y.as_millimeters_on_second(), 627);
}

#[test]
fn releasing_jump_early_adds_extra_gravity() {
    let mut duck = Duck::create();
    duck.velocity.y = Velocity::from_millimeters_on_second(-3000);
    let (after, _) = DuckUpdateAction::new(duck, airborne_ctx(16, InputState::idle())).apply();
    // gravity phase: -3000 + 313; jump-end phase: + 313 more
    assert_eq!(after.velocity.y.as_millimeters_on_second(), -2374);
}

#[test]
fn held_jump_caps_upward_speed_at_hover_velocity() {
    let mut duck = Duck::create();
    duck.velocity.y = Velocity::from_millimeters_on_second(2000);
    let input = InputState { space_down: true, ..InputState::idle() };
    let (after, _) = DuckUpdateAction::new(duck, airborne_ctx(16, input)).apply();
    // gravity phase: 2000 + 313 == 2313; hover clamp: min(2313, 1600)
    assert_eq!(after.velocity.y.as_millimeters_on_second(), 1600);
}

#[test]
fn held_right_input_accelerates_up_to_max_move_velocity() {
    let duck = Duck::create();
    let input = InputState { right_down: true, ..InputState::idle() };
    let (after, tick_move) = DuckUpdateAction::new(duck, grounded_ctx(100, input)).apply();
    // 12000 mm/s^2 over 100 ms: 1200 mm/s
    assert_eq!(after.velocity.x.as_millimeters_on_second(), 1200);
    assert_eq!(after.direction_h, HorizontalDirection::Right);
    // 1200 mm/s over 100 ms: 120 mm
    assert_eq!(tick_move.dx.as_millimeters(), 120);

    let input_held = InputState { right_down: true, ..InputState::idle() };
    let (clamped, _) = DuckUpdateAction::new(after, grounded_ctx(1000, input_held)).apply();
    assert_eq!(clamped.velocity.x.as_millimeters_on_second(), 3200);
}

#[test]
fn held_left_input_accelerates_toward_negative_max() {
    let duck = Duck::create();
    let input = InputState { left_down: true, ..InputState::idle() };
    let (after, _) = DuckUpdateAction::new(duck, grounded_ctx(1000, input)).apply();
    assert_eq!(after.velocity.x.as_millimeters_on_second(), -3200);
    assert_eq!(after.direction_h, HorizontalDirection::Left);
}

#[test]
fn right_input_takes_precedence_over_left() {
    let duck = Duck::create();
    let input = InputState { right_down: true, left_down: true, ..InputState::idle() };
    let (after, _) = DuckUpdateAction::new(duck, grounded_ctx(100, input)).apply();
    assert_eq!(after.velocity.x.as_millimeters_on_second(), 1200);
    assert_eq!(after.direction_h, HorizontalDirection::Right);
}

#[test]
fn deceleration_stops_exactly_at_zero_without_flipping_sign() {
    let mut duck = Duck::create();
    duck.velocity.x = Velocity::from_millimeters_on_second(100);
    // 6000 mm/s^2 over 1000 ms removes far more than the 100 mm/s held
    let (after, _) = DuckUpdateAction::new(duck, grounded_ctx(1000, InputState::idle())).apply();
    assert_eq!(after.velocity.x.as_millimeters_on_second(), 0);

    let mut leftward = Duck::create();
    leftward.velocity.x = Velocity::from_millimeters_on_second(-100);
    let (after_left, _) =
        DuckUpdateAction::new(leftward, grounded_ctx(1000, InputState::idle())).apply();
    assert_eq!(after_left.velocity.x.as_millimeters_on_second(), 0);
}

#[test]
fn deceleration_is_sign_preserving_while_slowing() {
    let mut duck = Duck::create();
    duck.velocity.x = Velocity::from_millimeters_on_second(3200);
    // 6000 mm/s^2 over 100 ms removes 600 mm/s
    let (after, _) = DuckUpdateAction::new(duck, grounded_ctx(100, InputState::idle())).apply();
    assert_eq!(after.velocity.x.as_millimeters_on_second(), 2600);
    assert_eq!(after.direction_h, HorizontalDirection::Right);
}

#[test]
fn facing_direction_is_retained_without_input() {
    let duck = Duck::create();
    let input = InputState { left_down: true, ..InputState::idle() };
    let (after, _) = DuckUpdateAction::new(duck, grounded_ctx(100, input)).apply();
    let (coasting, _) = DuckUpdateAction::new(after, grounded_ctx(100, InputState::idle())).apply();
    assert_eq!(coasting.direction_h, HorizontalDirection::Left);
}

#[test]
fn fresh_jump_does_not_stick_to_ground_next_tick() {
    let duck = Duck::create();
    let input = InputState { space_pressed: true, ..InputState::idle() };
    let (jumped, _) = DuckUpdateAction::new(duck, grounded_ctx(16, input)).apply();
    // still overlapping the ground probe, but moving up: gravity must not
    // snap the velocity back to zero
    let (next, _) = DuckUpdateAction::new(jumped, grounded_ctx(16, InputState::idle())).apply();
    assert!(next.velocity.y.as_millimeters_on_second() < 0);
}
