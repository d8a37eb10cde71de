use pong_core::components::{Position, Role, Score, Velocity};
use pong_core::store::{Handle, Store, StoreError};

fn body(x: i64, y: i64) -> Position {
    Position { x, y, width: 10, height: 10 }
}

#[test]
fn create_returns_handles_in_creation_order() {
    let mut st = Store::new();
    assert_eq!(st.num_entities(), 0);
    let a = st.create(Some(Role::Ball), Some(body(1, 2)), Some(Velocity { dx: 3, dy: 4 }), None);
    let b = st.create(Some(Role::Paddle), Some(body(5, 6)), None, None);
    let c = st.create(None, None, None, Some(Score { p1: 0, p2: 0 }));
    assert_eq!(a.id, 0);
    assert_eq!(b.id, 1);
    assert_eq!(c.id, 2);
    assert_eq!(st.num_entities(), 3);
}

#[test]
fn get_returns_the_stored_components() {
    let mut st = Store::new();
    let a = st.create(Some(Role::Ball), Some(body(1, 2)), Some(Velocity { dx: 3, dy: 4 }), None);
    assert_eq!(st.get_role(a), Some(Role::Ball));
    assert_eq!(st.get_position(a), Some(body(1, 2)));
    assert_eq!(st.get_velocity(a), Some(Velocity { dx: 3, dy: 4 }));
    assert_eq!(st.get_score(a), None);
}

#[test]
fn get_on_a_stale_handle_is_none_not_a_default() {
    let mut st = Store::new();
    let _ = st.create(Some(Role::Ball), Some(body(1, 2)), None, None);
    let stale = Handle { id: 7 };
    assert_eq!(st.get_role(stale), None);
    assert_eq!(st.get_position(stale), None);
    assert_eq!(st.get_velocity(stale), None);
    assert_eq!(st.get_score(stale), None);
}

#[test]
fn set_overwrites_in_place() {
    let mut st = Store::new();
    let a = st.create(Some(Role::Ball), Some(body(1, 2)), Some(Velocity { dx: 3, dy: 4 }), None);
    assert_eq!(st.set_position(a, body(9, 9)), Ok(()));
    assert_eq!(st.set_velocity(a, Velocity { dx: -1, dy: -2 }), Ok(()));
    assert_eq!(st.get_position(a), Some(body(9, 9)));
    assert_eq!(st.get_velocity(a), Some(Velocity { dx: -1, dy: -2 }));
}

#[test]
fn set_fails_on_stale_handle_or_absent_component() {
    let mut st = Store::new();
    let a = st.create(Some(Role::Paddle), Some(body(1, 2)), None, None);
    let stale = Handle { id: 3 };
    assert_eq!(st.set_position(stale, body(0, 0)), Err(StoreError::NotFound));
    // `a` has no velocity component, so a velocity write is refused.
    assert_eq!(st.set_velocity(a, Velocity { dx: 1, dy: 1 }), Err(StoreError::NotFound));
    assert_eq!(st.set_score(a, Score { p1: 1, p2: 1 }), Err(StoreError::NotFound));
    assert_eq!(st.get_position(a), Some(body(1, 2)));
}

#[test]
fn iterate_filters_by_role_in_creation_order() {
    let mut st = Store::new();
    let ball = st.create(Some(Role::Ball), None, None, None);
    let pad_a = st.create(Some(Role::Paddle), None, None, None);
    let pad_b = st.create(Some(Role::Paddle), None, None, None);
    let plain = st.create(None, None, None, None);

    let paddles = st.iterate(Some(Role::Paddle));
    assert_eq!(paddles.len(), 2);
    assert_eq!(paddles[0], pad_a);
    assert_eq!(paddles[1], pad_b);

    let balls = st.iterate(Some(Role::Ball));
    assert_eq!(balls.len(), 1);
    assert_eq!(balls[0], ball);

    let all = st.iterate(None);
    assert_eq!(all.len(), 4);
    assert_eq!(all[3], plain);
}
