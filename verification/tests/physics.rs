use pong_core::components::Position;
use pong_core::config::{FIELD_HEIGHT, PADDLE_HEIGHT, TICK_MICROS, UNIT};
use pong_core::physics::{accelerate, clamp_paddle_y, move_coord, overlaps};

#[test]
fn motion_is_position_plus_velocity_times_time() {
    // 180 units/s for one 16670 microsecond tick is exactly 3.0006 units.
    assert_eq!(move_coord(150 * UNIT, 180, TICK_MICROS as i64), 153_000_600);
    assert_eq!(move_coord(150 * UNIT, 225, TICK_MICROS as i64), 153_750_750);
    assert_eq!(move_coord(40 * UNIT, -480, TICK_MICROS as i64), 31_998_400);
    assert_eq!(move_coord(7, 0, 1), 7);
}

#[test]
fn motion_over_two_intervals_equals_one_combined_interval() {
    let dt1: i64 = 16670;
    let dt2: i64 = 33340;
    let split = move_coord(move_coord(150 * UNIT, 225, dt1), 225, dt2);
    let joined = move_coord(150 * UNIT, 225, dt1 + dt2);
    assert_eq!(split, joined);
}

#[test]
fn clamp_confines_to_the_field() {
    // Below the top: pinned to 0.
    assert_eq!(clamp_paddle_y(-5 * UNIT, PADDLE_HEIGHT, FIELD_HEIGHT), 0);
    // Past the bottom: pinned to field height minus paddle height.
    assert_eq!(
        clamp_paddle_y(440 * UNIT, PADDLE_HEIGHT, FIELD_HEIGHT),
        FIELD_HEIGHT - PADDLE_HEIGHT
    );
    // Inside: untouched.
    assert_eq!(clamp_paddle_y(40 * UNIT, PADDLE_HEIGHT, FIELD_HEIGHT), 40 * UNIT);
}

#[test]
fn clamp_is_idempotent() {
    let once = clamp_paddle_y(-123 * UNIT, PADDLE_HEIGHT, FIELD_HEIGHT);
    let twice = clamp_paddle_y(once, PADDLE_HEIGHT, FIELD_HEIGHT);
    assert_eq!(once, twice);
    let once_low = clamp_paddle_y(999 * UNIT, PADDLE_HEIGHT, FIELD_HEIGHT);
    assert_eq!(clamp_paddle_y(once_low, PADDLE_HEIGHT, FIELD_HEIGHT), once_low);
}

#[test]
fn accelerate_pushes_away_from_zero() {
    assert_eq!(accelerate(225, 12), 237);
    assert_eq!(accelerate(-225, 12), -237);
    assert_eq!(accelerate(0, 12), 12);
}

#[test]
fn overlap_is_strict() {
    let a = Position { x: 0, y: 0, width: 10, height: 10 };
    let b = Position { x: 5, y: 5, width: 10, height: 10 };
    let apart = Position { x: 50, y: 0, width: 10, height: 10 };
    let touching = Position { x: 10, y: 0, width: 10, height: 10 };
    assert!(overlaps(&a, &b));
    assert!(overlaps(&b, &a));
    assert!(!overlaps(&a, &apart));
    // Rectangles sharing only an edge do not overlap.
    assert!(!overlaps(&a, &touching));
}
