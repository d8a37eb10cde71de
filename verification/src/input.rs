//! The input mapper: translates discrete key press/release events for the
//! four paddle actions into vertical-velocity assignments, and surfaces the
//! quit signal to the frame driver.
//!
//! A press sets the paddle's velocity; opposite keys of one paddle override
//! each other, the most recent press winning.  A release resets the velocity
//! to zero only when it releases the key whose press last set that velocity;
//! releasing the other key is a no-op.

use vstd::prelude::*;
use crate::config::PADDLE_SPEED;

verus! {

/// The four logical paddle actions.
#[derive(Clone, Copy, Debug, PartialEq, Eq, Structural)]
pub enum Action {
    P1Up,
    P1Down,
    P2Up,
    P2Down,
}

/// A vertical movement direction, remembered per paddle as "the key that
/// last set the velocity".
#[derive(Clone, Copy, Debug, PartialEq, Eq, Structural)]
pub enum Dir {
    Up,
    Down,
}

/// One discrete event handed in by the input collaborator each tick.
#[derive(Clone, Copy, Debug, PartialEq, Eq, Structural)]
pub enum InputEvent {
    Quit,
    Press(Action),
    Release(Action),
}

/// The state the input mapper drives, as one mathematical value: which key
/// (if any) last set each paddle's vertical velocity, and the two vertical
/// velocities in units per second.
pub struct PadModel {
    pub hold1: Option<Dir>,
    pub hold2: Option<Dir>,
    pub dy1: int,
    pub dy2: int,
}

/// The mapper state after one event.  A press sets the paddle's velocity and
/// records its key; a release resets the velocity to zero only when it
/// matches the recorded key.  A quit event changes nothing here.
pub open spec fn pad_step(m: PadModel, ev: InputEvent) -> PadModel {
    match ev {
        InputEvent::Quit => m,
        InputEvent::Press(Action::P1Up) => PadModel {
            hold1: Some(Dir::Up),
            dy1: -PADDLE_SPEED as int,
            ..m
        },
        InputEvent::Press(Action::P1Down) => PadModel {
            hold1: Some(Dir::Down),
            dy1: PADDLE_SPEED as int,
            ..m
        },
        InputEvent::Press(Action::P2Up) => PadModel {
            hold2: Some(Dir::Up),
            dy2: -PADDLE_SPEED as int,
            ..m
        },
        InputEvent::Press(Action::P2Down) => PadModel {
            hold2: Some(Dir::Down),
            dy2: PADDLE_SPEED as int,
            ..m
        },
        InputEvent::Release(Action::P1Up) => if m.hold1 == Some(Dir::Up) {
            PadModel { hold1: None, dy1: 0, ..m }
        } else {
            m
        },
        InputEvent::Release(Action::P1Down) => if m.hold1 == Some(Dir::Down) {
            PadModel { hold1: None, dy1: 0, ..m }
        } else {
            m
        },
        InputEvent::Release(Action::P2Up) => if m.hold2 == Some(Dir::Up) {
            PadModel { hold2: None, dy2: 0, ..m }
        } else {
            m
        },
        InputEvent::Release(Action::P2Down) => if m.hold2 == Some(Dir::Down) {
            PadModel { hold2: None, dy2: 0, ..m }
        } else {
            m
        },
    }
}

/// Whether the tick's event sequence carries a quit signal.
pub open spec fn has_quit(evs: Seq<InputEvent>) -> bool
    decreases evs.len(),
{
    if evs.len() == 0 {
        false
    } else if evs[0] is Quit {
        true
    } else {
        has_quit(evs.drop_first())
    }
}

/// The mapper state after a tick's events, applied in order up to (and not
/// past) the first quit signal.
pub open spec fn pad_run(m: PadModel, evs: Seq<InputEvent>) -> PadModel
    decreases evs.len(),
{
    if evs.len() == 0 {
        m
    } else if evs[0] is Quit {
        m
    } else {
        pad_run(pad_step(m, evs[0]), evs.drop_first())
    }
}

/// Law: pressing the down key of paddle one sets that paddle's velocity to
/// `PADDLE_SPEED`; releasing the same key immediately afterwards resets it to
/// zero; releasing the opposite, never-pressed key instead leaves the
/// velocity untouched.  This holds from any prior mapper state.
pub proof fn lemma_press_release(m: PadModel)
    ensures
        pad_step(m, InputEvent::Press(Action::P1Down)).dy1 == PADDLE_SPEED as int,
        pad_step(
            pad_step(m, InputEvent::Press(Action::P1Down)),
            InputEvent::Release(Action::P1Down),
        ).dy1 == 0,
        pad_step(
            pad_step(m, InputEvent::Press(Action::P1Down)),
            InputEvent::Release(Action::P1Up),
        ).dy1 == PADDLE_SPEED as int,
{
}

/// The input mapper: remembers, per paddle, which key's press last set the
/// paddle's velocity, so that only that key's release resets it.
pub struct InputMapper {
    pub hold1: Option<Dir>,
    pub hold2: Option<Dir>,
}

impl InputMapper {
    /// This mapper's state as one mathematical value, joined with the two
    /// paddle velocities it drives.
    pub open spec fn model(self, dy1: int, dy2: int) -> PadModel {
        PadModel { hold1: self.hold1, hold2: self.hold2, dy1: dy1, dy2: dy2 }
    }

    /// A mapper with no key held.
    pub fn new() -> (m: InputMapper)
        ensures
            m.hold1 is None,
            m.hold2 is None,
    {
        InputMapper { hold1: None, hold2: None }
    }

    /// Applies one event to the given paddle velocities and returns the new
    /// velocities `(dy1, dy2)`.  A quit event changes nothing; the caller
    /// detects it separately.
    pub fn apply(&mut self, ev: InputEvent, dy1: i64, dy2: i64) -> (r: (i64, i64))
        ensures
            ({
                let m = pad_step(old(self).model(dy1 as int, dy2 as int), ev);
                &&& final(self).hold1 == m.hold1
                &&& final(self).hold2 == m.hold2
                &&& r.0 == m.dy1
                &&& r.1 == m.dy2
            }),
    {
        match ev {
            InputEvent::Quit => (dy1, dy2),
            InputEvent::Press(Action::P1Up) => {
                self.hold1 = Some(Dir::Up);
                (-PADDLE_SPEED, dy2)
            },
            InputEvent::Press(Action::P1Down) => {
                self.hold1 = Some(Dir::Down);
                (PADDLE_SPEED, dy2)
            },
            InputEvent::Press(Action::P2Up) => {
                self.hold2 = Some(Dir::Up);
                (dy1, -PADDLE_SPEED)
            },
            InputEvent::Press(Action::P2Down) => {
                self.hold2 = Some(Dir::Down);
                (dy1, PADDLE_SPEED)
            },
            InputEvent::Release(a) => {
                let (held, down_key) = match a {
                    Action::P1Up | Action::P1Down => (self.hold1, matches!(a, Action::P1Down)),
                    Action::P2Up | Action::P2Down => (self.hold2, matches!(a, Action::P2Down)),
                };
                let released_dir = if down_key {
                    Dir::Down
                } else {
                    Dir::Up
                };
                let matches_held = match held {
                    Some(d) => matches!(
                        (d, released_dir),
                        (Dir::Up, Dir::Up) | (Dir::Down, Dir::Down)
                    ),
                    None => false,
                };
                if matches_held {
                    match a {
                        Action::P1Up | Action::P1Down => {
                            self.hold1 = None;
                            (0, dy2)
                        },
                        Action::P2Up | Action::P2Down => {
                            self.hold2 = None;
                            (dy1, 0)
                        },
                    }
                } else {
                    (dy1, dy2)
                }
            },
        }
    }

    /// Applies the tick's events in order, stopping at the first quit signal
    /// (events after it are not applied).  Returns the final paddle
    /// velocities and whether quit was seen.
    pub fn apply_all(&mut self, events: &Vec<InputEvent>, dy1: i64, dy2: i64) -> (r: (
        i64,
        i64,
        bool,
    ))
        ensures
            ({
                let m = pad_run(old(self).model(dy1 as int, dy2 as int), events@);
                &&& final(self).hold1 == m.hold1
                &&& final(self).hold2 == m.hold2
                &&& r.0 == m.dy1
                &&& r.1 == m.dy2
                &&& r.2 == has_quit(events@)
            }),
    {
        let ghost m0 = self.model(dy1 as int, dy2 as int);
        proof {
            assert(events@.skip(0) =~= events@);
        }
        let mut d1 = dy1;
        let mut d2 = dy2;
        let mut i: usize = 0;
        while i < events.len()
            invariant
                i <= events@.len(),
                m0 == old(self).model(dy1 as int, dy2 as int),
                pad_run(m0, events@) == pad_run(
                    self.model(d1 as int, d2 as int),
                    events@.skip(i as int),
                ),
                has_quit(events@) == has_quit(events@.skip(i as int)),
            decreases events@.len() - i,
        {
            let ev = events[i];
            proof {
                assert(events@.skip(i as int)[0] == events@[i as int]);
                assert(events@.skip(i as int).drop_first() =~= events@.skip(i as int + 1));
            }
            if matches!(ev, InputEvent::Quit) {
                proof {
                    assert(events@.skip(i as int)[0] is Quit);
                    assert(has_quit(events@.skip(i as int)));
                    assert(pad_run(self.model(d1 as int, d2 as int), events@.skip(i as int))
                        == self.model(d1 as int, d2 as int));
                }
                return (d1, d2, true);
            }
            let next = self.apply(ev, d1, d2);
            d1 = next.0;
            d2 = next.1;
            i = i + 1;
        }
        proof {
            assert(events@.skip(i as int) =~= Seq::<InputEvent>::empty());
        }
        (d1, d2, false)
    }
}

} // verus!
