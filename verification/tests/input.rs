use pong_core::config::PADDLE_SPEED;
use pong_core::input::{Action, InputEvent, InputMapper};

#[test]
fn press_sets_velocity_and_release_of_same_key_resets_it() {
    let mut m = InputMapper::new();
    let (d1, d2) = m.apply(InputEvent::Press(Action::P1Down), 0, 0);
    assert_eq!(d1, PADDLE_SPEED);
    assert_eq!(d2, 0);
    let (d1, d2) = m.apply(InputEvent::Release(Action::P1Down), d1, d2);
    assert_eq!(d1, 0);
    assert_eq!(d2, 0);
}

#[test]
fn releasing_the_never_pressed_opposite_key_changes_nothing() {
    let mut m = InputMapper::new();
    let (d1, _) = m.apply(InputEvent::Press(Action::P1Down), 0, 0);
    assert_eq!(d1, PADDLE_SPEED);
    // The up key was never pressed; releasing it must not zero the velocity.
    let (d1, _) = m.apply(InputEvent::Release(Action::P1Up), d1, 0);
    assert_eq!(d1, PADDLE_SPEED);
    // Releasing the key that did set the velocity still works afterwards.
    let (d1, _) = m.apply(InputEvent::Release(Action::P1Down), d1, 0);
    assert_eq!(d1, 0);
}

#[test]
fn most_recent_press_wins_between_opposite_keys() {
    let mut m = InputMapper::new();
    let (d1, _) = m.apply(InputEvent::Press(Action::P1Up), 0, 0);
    assert_eq!(d1, -PADDLE_SPEED);
    let (d1, _) = m.apply(InputEvent::Press(Action::P1Down), d1, 0);
    assert_eq!(d1, PADDLE_SPEED);
    // The earlier up key no longer owns the velocity: releasing it is a no-op.
    let (d1, _) = m.apply(InputEvent::Release(Action::P1Up), d1, 0);
    assert_eq!(d1, PADDLE_SPEED);
}

#[test]
fn the_two_paddles_are_independent() {
    let mut m = InputMapper::new();
    let (d1, d2) = m.apply(InputEvent::Press(Action::P2Up), 0, 0);
    assert_eq!(d1, 0);
    assert_eq!(d2, -PADDLE_SPEED);
    let (d1, d2) = m.apply(InputEvent::Press(Action::P1Down), d1, d2);
    assert_eq!(d1, PADDLE_SPEED);
    assert_eq!(d2, -PADDLE_SPEED);
    let (d1, d2) = m.apply(InputEvent::Release(Action::P2Up), d1, d2);
    assert_eq!(d1, PADDLE_SPEED);
    assert_eq!(d2, 0);
}

#[test]
fn apply_all_stops_at_the_first_quit() {
    let mut m = InputMapper::new();
    let events = vec![
        InputEvent::Press(Action::P1Down),
        InputEvent::Quit,
        InputEvent::Press(Action::P2Down),
    ];
    let (d1, d2, quit) = m.apply_all(&events, 0, 0);
    assert!(quit);
    // The press before the quit signal was applied, the one after was not.
    assert_eq!(d1, PADDLE_SPEED);
    assert_eq!(d2, 0);
}

#[test]
fn apply_all_without_quit_applies_everything() {
    let mut m = InputMapper::new();
    let events = vec![
        InputEvent::Press(Action::P1Up),
        InputEvent::Press(Action::P2Down),
        InputEvent::Release(Action::P2Down),
    ];
    let (d1, d2, quit) = m.apply_all(&events, 0, 0);
    assert!(!quit);
    assert_eq!(d1, -PADDLE_SPEED);
    assert_eq!(d2, 0);
}
