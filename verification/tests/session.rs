use pong_core::components::{Position, Role, Score, Velocity};
use pong_core::config::{
    BALL_HEIGHT, BALL_START_DX, BALL_START_DY, BALL_START_X, BALL_START_Y, BALL_WIDTH,
    PADDLE1_START_X, PADDLE2_START_X, PADDLE_HEIGHT, PADDLE_START_Y, PADDLE_WIDTH, POS_LIMIT,
    TICK_MICROS, UNIT,
};
use pong_core::input::{Action, InputEvent};
use pong_core::session::{RunState, Session, StepResult};

fn tick_n(s: &mut Session, n: usize) {
    let no_events: Vec<InputEvent> = Vec::new();
    for _ in 0..n {
        let r = s.step(&no_events, TICK_MICROS);
        assert_eq!(r, StepResult::Advanced);
    }
}

#[test]
fn a_new_session_holds_the_fixed_initial_state() {
    let s = Session::new();
    assert_eq!(
        s.store.get_position(s.ball),
        Some(Position { x: BALL_START_X, y: BALL_START_Y, width: BALL_WIDTH, height: BALL_HEIGHT })
    );
    assert_eq!(
        s.store.get_velocity(s.ball),
        Some(Velocity { dx: BALL_START_DX, dy: BALL_START_DY })
    );
    assert_eq!(
        s.store.get_position(s.pad1),
        Some(Position {
            x: PADDLE1_START_X,
            y: PADDLE_START_Y,
            width: PADDLE_WIDTH,
            height: PADDLE_HEIGHT,
        })
    );
    assert_eq!(
        s.store.get_position(s.pad2),
        Some(Position {
            x: PADDLE2_START_X,
            y: PADDLE_START_Y,
            width: PADDLE_WIDTH,
            height: PADDLE_HEIGHT,
        })
    );
    assert_eq!(s.store.get_score(s.score_board), Some(Score { p1: 0, p2: 0 }));
    assert_eq!(s.state, RunState::Running);
    // The paddles come back in creation order: player one's paddle first.
    let paddles = s.store.iterate(Some(Role::Paddle));
    assert_eq!(paddles.len(), 2);
    assert_eq!(paddles[0], s.pad1);
    assert_eq!(paddles[1], s.pad2);
}

#[test]
fn one_tick_moves_the_ball_by_velocity_times_dt() {
    let mut s = Session::new();
    tick_n(&mut s, 1);
    let bp = s.store.get_position(s.ball).unwrap();
    assert_eq!(bp.x, 153_000_600);
    assert_eq!(bp.y, 153_750_750);
    // No collision on the first tick: the velocity is untouched.
    assert_eq!(
        s.store.get_velocity(s.ball),
        Some(Velocity { dx: BALL_START_DX, dy: BALL_START_DY })
    );
}

#[test]
fn bottom_wall_bounce_inverts_and_escalates_dy() {
    let mut s = Session::new();
    // After 75 unattended ticks the ball has crossed the bottom boundary
    // once: dy == 225 turns into -(225 + 12).
    tick_n(&mut s, 75);
    assert_eq!(s.store.get_velocity(s.ball), Some(Velocity { dx: 180, dy: -237 }));
    // The next bounce (off the top wall) escalates the new baseline again.
    tick_n(&mut s, 110);
    assert_eq!(s.store.get_velocity(s.ball), Some(Velocity { dx: -192, dy: 249 }));
}

#[test]
fn left_crossing_scores_for_player_two_and_resets_the_ball() {
    let mut s = Session::new();
    // Unattended, the ball bounces off the right paddle, misses the left one
    // and leaves the field on the left after 377 ticks.
    tick_n(&mut s, 377);
    assert_eq!(s.store.get_score(s.score_board), Some(Score { p1: 0, p2: 1 }));
    let bp = s.store.get_position(s.ball).unwrap();
    assert_eq!((bp.x, bp.y), (BALL_START_X, BALL_START_Y));
    // The reset discards the escalated speed: back to the fixed start vector.
    assert_eq!(
        s.store.get_velocity(s.ball),
        Some(Velocity { dx: BALL_START_DX, dy: BALL_START_DY })
    );
}

#[test]
fn right_crossing_scores_for_player_one_and_resets_the_ball() {
    let mut s = Session::new();
    // Hold player two's down key so the right paddle leaves the ball's path.
    let press = vec![InputEvent::Press(Action::P2Down)];
    assert_eq!(s.step(&press, TICK_MICROS), StepResult::Advanced);
    tick_n(&mut s, 209);
    // At tick 210 the ball's right edge has passed the right wall.
    assert_eq!(s.store.get_score(s.score_board), Some(Score { p1: 1, p2: 0 }));
    let bp = s.store.get_position(s.ball).unwrap();
    assert_eq!((bp.x, bp.y), (BALL_START_X, BALL_START_Y));
    assert_eq!(
        s.store.get_velocity(s.ball),
        Some(Velocity { dx: BALL_START_DX, dy: BALL_START_DY })
    );
}

#[test]
fn paddles_are_clamped_at_the_field_edge() {
    let mut s = Session::new();
    let press = vec![InputEvent::Press(Action::P1Up)];
    assert_eq!(s.step(&press, TICK_MICROS), StepResult::Advanced);
    // Driven upwards long past the wall, the paddle sits exactly at 0.
    tick_n(&mut s, 20);
    let p1 = s.store.get_position(s.pad1).unwrap();
    assert_eq!(p1.y, 0);
    // Its velocity is untouched by the clamp: still moving "up".
    assert_eq!(s.store.get_velocity(s.pad1).unwrap().dy, -480);
}

#[test]
fn vertical_wall_bounce_takes_precedence_over_a_paddle_bounce() {
    let mut s = Session::new();
    // Put the left paddle at the bottom edge and the ball overlapping it
    // while also crossing the bottom boundary.
    s.store
        .set_position(
            s.pad1,
            Position {
                x: PADDLE1_START_X,
                y: 370 * UNIT,
                width: PADDLE_WIDTH,
                height: PADDLE_HEIGHT,
            },
        )
        .unwrap();
    s.store
        .set_position(
            s.ball,
            Position { x: 85 * UNIT, y: 435 * UNIT, width: BALL_WIDTH, height: BALL_HEIGHT },
        )
        .unwrap();
    let no_events: Vec<InputEvent> = Vec::new();
    assert_eq!(s.step(&no_events, 1), StepResult::Advanced);
    let v = s.store.get_velocity(s.ball).unwrap();
    // Only the vertical bounce fired: dy inverted and escalated, dx untouched.
    assert_eq!(v.dy, -237);
    assert_eq!(v.dx, 180);
}

#[test]
fn quit_stops_the_session_and_skips_the_rest_of_the_tick() {
    let mut s = Session::new();
    let events = vec![InputEvent::Press(Action::P1Down), InputEvent::Quit];
    let r = s.step(&events, TICK_MICROS);
    assert_eq!(r, StepResult::Quit);
    assert_eq!(s.state, RunState::Stopped);
    // The press before the quit was applied, but nothing moved this tick.
    assert_eq!(s.store.get_velocity(s.pad1).unwrap().dy, 480);
    assert_eq!(s.store.get_position(s.ball).unwrap().x, BALL_START_X);
}

#[test]
fn a_state_outside_the_numeric_range_is_refused_unchanged() {
    let mut s = Session::new();
    s.store
        .set_position(
            s.ball,
            Position { x: POS_LIMIT + 1, y: BALL_START_Y, width: BALL_WIDTH, height: BALL_HEIGHT },
        )
        .unwrap();
    let no_events: Vec<InputEvent> = Vec::new();
    assert_eq!(s.step(&no_events, TICK_MICROS), StepResult::OutOfRange);
    assert_eq!(s.store.get_position(s.ball).unwrap().x, POS_LIMIT + 1);
    assert_eq!(s.state, RunState::Running);
}
