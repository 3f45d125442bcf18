use duck_platformer::camera::follow_buffer::FollowBuffer;
use duck_platformer::camera::Camera;
use duck_platformer::geometry::Recti;
use duck_platformer::geometry::Vec2i;

fn camera_100_50() -> Camera {
    Camera::new(Vec2i::new(100, 100), Vec2i::new(50, 50))
}

#[test]
fn mod_should_be_in_bound_on_move_to_bottom_left() {
    let bound = Vec2i::new(100, 100);
    let viewport = Vec2i::new(50, 50);
    let camera = Camera::new(bound, viewport);
    assert_eq!(
        camera.get_viewport_bounded_by_window_size(Vec2i::new(0, 100)),
        Recti::new(0, 50, 50, 50)
    );
}

#[test]
fn mod_should_be_in_bound_on_move_to_bottom_right() {
    let camera = camera_100_50();
    assert_eq!(
        camera.get_viewport_bounded_by_window_size(Vec2i::new(100, 100)),
        Recti::new(50, 50, 50, 50)
    );
}

#[test]
fn mod_should_be_in_bound_on_move_to_right() {
    let camera = camera_100_50();
    assert_eq!(
        camera.get_viewport_bounded_by_window_size(Vec2i::new(100, 25)),
        Recti::new(50, 0, 50, 50)
    );
}

#[test]
fn mod_should_be_in_bound_on_move_to_top_right() {
    let camera = camera_100_50();
    assert_eq!(
        camera.get_viewport_bounded_by_window_size(Vec2i::new(100, 0)),
        Recti::new(50, 0, 50, 50)
    );
}

#[test]
fn mod_should_be_in_bound_on_move_to_top_left() {
    let camera = camera_100_50();
    assert_eq!(
        camera.get_viewport_bounded_by_window_size(Vec2i::new(0, 0)),
        Recti::new(0, 0, 50, 50)
    );
}

#[test]
fn camera_should_be_in_bound_on_move_to_bottom_left() {
    let bound = Vec2i::new(100, 100);
    let viewport = Vec2i::new(50, 50);
    let camera = Camera::new(bound, viewport);
    assert_eq!(
        camera.get_viewport_bounded_by_window_size(Vec2i::new(0, 100)),
        Recti::new(0, 50, 50, 50)
    );
}

#[test]
fn camera_should_be_in_bound_on_move_to_bottom_right() {
    let camera = camera_100_50();
    assert_eq!(
        camera.get_viewport_bounded_by_window_size(Vec2i::new(100, 100)),
        Recti::new(50, 50, 50, 50)
    );
}

#[test]
fn camera_should_be_in_bound_on_move_to_right() {
    let camera = camera_100_50();
    assert_eq!(
        camera.get_viewport_bounded_by_window_size(Vec2i::new(100, 25)),
        Recti::new(50, 0, 50, 50)
    );
}

#[test]
fn camera_should_be_in_bound_on_move_to_top_right() {
    let camera = camera_100_50();
    assert_eq!(
        camera.get_viewport_bounded_by_window_size(Vec2i::new(100, 0)),
        Recti::new(50, 0, 50, 50)
    );
}

#[test]
fn camera_should_be_in_bound_on_move_to_top_left() {
    let camera = camera_100_50();
    assert_eq!(
        camera.get_viewport_bounded_by_window_size(Vec2i::new(0, 0)),
        Recti::new(0, 0, 50, 50)
    );
}

#[test]
fn should_snap_flush_at_each_edge_midpoint() {
    let camera = camera_100_50();
    assert_eq!(
        camera.get_viewport_bounded_by_window_size(Vec2i::new(50, 0)),
        Recti::new(25, 0, 50, 50)
    );
    assert_eq!(
        camera.get_viewport_bounded_by_window_size(Vec2i::new(50, 100)),
        Recti::new(25, 50, 50, 50)
    );
    assert_eq!(
        camera.get_viewport_bounded_by_window_size(Vec2i::new(0, 50)),
        Recti::new(0, 25, 50, 50)
    );
    assert_eq!(
        camera.get_viewport_bounded_by_window_size(Vec2i::new(100, 50)),
        Recti::new(50, 25, 50, 50)
    );
}

#[test]
fn should_keep_interior_center_where_requested() {
    let camera = camera_100_50();
    assert_eq!(
        camera.get_viewport_bounded_by_window_size(Vec2i::new(50, 50)),
        Recti::new(25, 25, 50, 50)
    );
}

#[test]
fn update_should_ease_toward_focus_and_clamp() {
    let mut camera = camera_100_50();
    camera.update(Vec2i::new(10, 20));
    assert_eq!(camera.viewport(), Recti::new(0, 0, 50, 50));
    camera.update(Vec2i::new(30, 40));
    // x window [10, 30] has mean 20, so the center eases to 40;
    // y window [20, 40] has mean 30, easing the center back to 35.
    assert_eq!(camera.viewport(), Recti::new(15, 10, 50, 50));
}

#[test]
fn update_should_not_push_repeated_horizontal_samples() {
    let mut camera = camera_100_50();
    camera.update(Vec2i::new(10, 20));
    camera.update(Vec2i::new(10, 30));
    camera.update(Vec2i::new(10, 40));
    assert_eq!(camera.x_follow_buffer.samples.len(), 1);
    assert_eq!(camera.y_follow_buffer.samples.len(), 3);
}

#[test]
fn viewport_should_be_idempotent_between_updates() {
    let mut camera = camera_100_50();
    camera.update(Vec2i::new(73, 12));
    let first = camera.viewport();
    let second = camera.viewport();
    assert_eq!(first, second);
}

#[test]
fn follow_buffer_should_evict_oldest_beyond_capacity() {
    let mut buffer = FollowBuffer::new(3);
    buffer.push(1);
    buffer.push(2);
    buffer.push(3);
    buffer.push(4);
    buffer.push(5);
    assert_eq!(buffer.samples, vec![3, 4, 5]);
    assert_eq!(buffer.last(), Some(5));
    assert_eq!(buffer.mean(), 4);
}

#[test]
fn follow_buffer_mean_is_mean_of_retained_window() {
    let mut buffer = FollowBuffer::new(25);
    let mut i: i64 = 1;
    while i <= 30 {
        buffer.push(i);
        i += 1;
    }
    assert_eq!(buffer.samples.len(), 25);
    assert_eq!(buffer.samples[0], 6);
    assert_eq!(buffer.samples[24], 30);
    // (6 + 7 + ... + 30) / 25 == 450 / 25
    assert_eq!(buffer.mean(), 18);
}

#[test]
fn follow_buffer_mean_truncates_toward_zero() {
    let mut buffer = FollowBuffer::new(4);
    buffer.push(-1);
    buffer.push(-2);
    assert_eq!(buffer.mean(), -1);
    let mut positive = FollowBuffer::new(4);
    positive.push(1);
    positive.push(2);
    assert_eq!(positive.mean(), 1);
}
