//! The collision and scoring resolver.  Once per tick, after integration, it
//! works in a fixed priority order: paddle confinement, then the ball's
//! horizontal boundaries (scoring with ball reset), then its vertical
//! boundaries (bounce), then ball-paddle overlap (bounce).  A vertical-wall
//! bounce and a paddle bounce are mutually exclusive in one tick, and at
//! most one scoring event can happen per tick.

use vstd::prelude::*;
use crate::components::{Position, Score, Velocity};
use crate::config::{
    BALL_START_DX, BALL_START_DY, BALL_START_X, BALL_START_Y, FIELD_HEIGHT, FIELD_WIDTH,
    SPEED_BOOST,
};
use crate::physics::{
    accelerate, bounced, clamp_paddle_y, clamp_spec, magnitude, overlaps, overlaps_spec,
};
use crate::store::{Handle, Store};

verus! {

/// The axis of a bounce: `Horizontal` inverts `dx` (paddle hit), `Vertical`
/// inverts `dy` (top or bottom wall).
#[derive(Clone, Copy, Debug, PartialEq, Eq, Structural)]
pub enum Bounce {
    Horizontal,
    Vertical,
}

/// The player a scoring event credits.
#[derive(Clone, Copy, Debug, PartialEq, Eq, Structural)]
pub enum Player {
    First,
    Second,
}

/// What the resolver found for the ball this tick.
#[derive(Clone, Copy, Debug, PartialEq, Eq, Structural)]
pub enum Collision {
    Bounce(Bounce),
    ScoreWall(Player),
}

/// A paddle after confinement: its y coordinate clamped so the whole paddle
/// lies inside the field; everything else, its velocity included, is kept.
pub open spec fn confined(p: Position) -> Position {
    Position { y: clamp_spec(p.y as int, p.height as int, FIELD_HEIGHT as int) as i64, ..p }
}

/// The resolver's detection, in its fixed priority order, against already
/// confined paddles.  Crossing the left boundary scores for player two,
/// crossing the right one for player one; the left check is evaluated first,
/// so at most one scoring event per tick.  The vertical-wall check comes
/// before the paddle overlap check, and the first overlapping paddle in
/// creation order wins, so at most one bounce per tick.
pub open spec fn detect_spec(ball: Position, pad1: Position, pad2: Position) -> Option<Collision> {
    if ball.x < 0 {
        Some(Collision::ScoreWall(Player::Second))
    } else if ball.x + ball.width > FIELD_WIDTH {
        Some(Collision::ScoreWall(Player::First))
    } else if ball.y < 0 || ball.y + ball.height > FIELD_HEIGHT {
        Some(Collision::Bounce(Bounce::Vertical))
    } else if overlaps_spec(ball, pad1) || overlaps_spec(ball, pad2) {
        Some(Collision::Bounce(Bounce::Horizontal))
    } else {
        None
    }
}

/// The ball's velocity after resolution: the fixed start vector on a score
/// (escalation is discarded), one sign-inverted and escalated component on a
/// bounce, unchanged otherwise.
pub open spec fn resolved_ball_vel(c: Option<Collision>, v: Velocity) -> Velocity {
    match c {
        None => v,
        Some(Collision::ScoreWall(_)) => Velocity { dx: BALL_START_DX, dy: BALL_START_DY },
        Some(Collision::Bounce(Bounce::Horizontal)) => Velocity {
            dx: bounced(v.dx as int, SPEED_BOOST as int) as i64,
            dy: v.dy,
        },
        Some(Collision::Bounce(Bounce::Vertical)) => Velocity {
            dx: v.dx,
            dy: bounced(v.dy as int, SPEED_BOOST as int) as i64,
        },
    }
}

/// The ball's position after resolution: the fixed start coordinates on a
/// score, unchanged otherwise.  Width and height never change.
pub open spec fn resolved_ball_pos(c: Option<Collision>, p: Position) -> Position {
    match c {
        Some(Collision::ScoreWall(_)) => Position { x: BALL_START_X, y: BALL_START_Y, ..p },
        _ => p,
    }
}

/// The score counters after resolution: the credited player's counter rises
/// by one on a score; nothing else ever changes them.
pub open spec fn resolved_score(c: Option<Collision>, s: Score) -> Score {
    match c {
        Some(Collision::ScoreWall(Player::First)) => Score { p1: (s.p1 + 1) as u16, p2: s.p2 },
        Some(Collision::ScoreWall(Player::Second)) => Score { p1: s.p1, p2: (s.p2 + 1) as u16 },
        _ => s,
    }
}

/// Law: a ball crossing the left boundary scores for player two: `p2` rises
/// by exactly one, `p1` is unchanged, and the ball is reset to the fixed
/// start coordinates and the fixed start velocity, whatever speed it had
/// escalated to before.
pub proof fn lemma_left_crossing_scores(
    ball: Position,
    pad1: Position,
    pad2: Position,
    v: Velocity,
    s: Score,
)
    requires
        ball.x < 0,
        s.p2 < u16::MAX,
    ensures
        ({
            let c = detect_spec(ball, pad1, pad2);
            &&& resolved_score(c, s).p2 == s.p2 + 1
            &&& resolved_score(c, s).p1 == s.p1
            &&& resolved_ball_pos(c, ball) == Position { x: BALL_START_X, y: BALL_START_Y, ..ball }
            &&& resolved_ball_vel(c, v) == Velocity { dx: BALL_START_DX, dy: BALL_START_DY }
        }),
{
}

/// Law: a ball that stays inside the side walls but crosses the top or
/// bottom boundary emerges with `dy` sign-inverted and, through escalation,
/// with its magnitude grown by exactly `SPEED_BOOST`; `dx` and the scores
/// are untouched.
pub proof fn lemma_wall_bounce(
    ball: Position,
    pad1: Position,
    pad2: Position,
    v: Velocity,
    s: Score,
)
    requires
        0 <= ball.x,
        ball.x + ball.width <= FIELD_WIDTH,
        ball.y < 0 || ball.y + ball.height > FIELD_HEIGHT,
        magnitude(v.dy as int) + SPEED_BOOST <= i64::MAX,
    ensures
        ({
            let c = detect_spec(ball, pad1, pad2);
            let rv = resolved_ball_vel(c, v);
            &&& rv.dx == v.dx
            &&& rv.dy == bounced(v.dy as int, SPEED_BOOST as int)
            &&& magnitude(rv.dy as int) == magnitude(v.dy as int) + SPEED_BOOST
            &&& v.dy > 0 ==> rv.dy < 0
            &&& v.dy < 0 ==> rv.dy > 0
            &&& resolved_score(c, s) == s
            &&& resolved_ball_pos(c, ball) == ball
        }),
{
}

/// Law: the vertical-wall bounce takes precedence over a paddle bounce.  A
/// ball that simultaneously sits at a horizontal wall and overlaps a paddle
/// bounces only vertically that tick: no horizontal inversion happens.
pub proof fn lemma_vertical_bounce_precedence(
    ball: Position,
    pad1: Position,
    pad2: Position,
    v: Velocity,
)
    requires
        0 <= ball.x,
        ball.x + ball.width <= FIELD_WIDTH,
        ball.y < 0 || ball.y + ball.height > FIELD_HEIGHT,
        overlaps_spec(ball, pad1) || overlaps_spec(ball, pad2),
    ensures
        detect_spec(ball, pad1, pad2) == Some(Collision::Bounce(Bounce::Vertical)),
        resolved_ball_vel(detect_spec(ball, pad1, pad2), v).dx == v.dx,
{
}

/// Resolves collisions and scoring for one tick, in the fixed priority
/// order: both paddles are clamped into the field, then the ball is tested
/// against the scoring walls, the horizontal walls and the (already clamped)
/// paddles, and the single detected event is applied.
pub fn resolve(store: &mut Store, ball: Handle, pad1: Handle, pad2: Handle, score_board: Handle)
    requires
        old(store).wf(),
        old(store).valid(ball),
        old(store).valid(pad1),
        old(store).valid(pad2),
        old(store).valid(score_board),
        ball.id != pad1.id && ball.id != pad2.id && ball.id != score_board.id,
        pad1.id != pad2.id && pad1.id != score_board.id && pad2.id != score_board.id,
        old(store).positions()[ball.id as int] is Some,
        old(store).velocities()[ball.id as int] is Some,
        old(store).positions()[pad1.id as int] is Some,
        old(store).positions()[pad2.id as int] is Some,
        old(store).scores()[score_board.id as int] is Some,
        0 < old(store).pos_at(ball).width,
        0 < old(store).pos_at(ball).height,
        0 < old(store).pos_at(pad1).width,
        0 < old(store).pos_at(pad1).height <= FIELD_HEIGHT,
        0 < old(store).pos_at(pad2).width,
        0 < old(store).pos_at(pad2).height <= FIELD_HEIGHT,
        old(store).pos_at(ball).x + old(store).pos_at(ball).width <= i64::MAX,
        old(store).pos_at(ball).y + old(store).pos_at(ball).height <= i64::MAX,
        old(store).pos_at(pad1).x + old(store).pos_at(pad1).width <= i64::MAX,
        old(store).pos_at(pad2).x + old(store).pos_at(pad2).width <= i64::MAX,
        magnitude(old(store).vel_at(ball).dx as int) + SPEED_BOOST <= i64::MAX,
        magnitude(old(store).vel_at(ball).dy as int) + SPEED_BOOST <= i64::MAX,
        old(store).score_at(score_board).p1 < u16::MAX,
        old(store).score_at(score_board).p2 < u16::MAX,
    ensures
        final(store).wf(),
        final(store).len() == old(store).len(),
        final(store).roles() == old(store).roles(),
        ({
            let p1c = confined(old(store).pos_at(pad1));
            let p2c = confined(old(store).pos_at(pad2));
            let c = detect_spec(old(store).pos_at(ball), p1c, p2c);
            &&& final(store).positions() == old(store).positions().update(
                pad1.id as int,
                Some(p1c),
            ).update(pad2.id as int, Some(p2c)).update(
                ball.id as int,
                Some(resolved_ball_pos(c, old(store).pos_at(ball))),
            )
            &&& final(store).velocities() == old(store).velocities().update(
                ball.id as int,
                Some(resolved_ball_vel(c, old(store).vel_at(ball))),
            )
            &&& final(store).scores() == old(store).scores().update(
                score_board.id as int,
                Some(resolved_score(c, old(store).score_at(score_board))),
            )
        }),
{
    // Paddle confinement: a hard clamp; paddle velocities are untouched, so
    // a paddle driven into a wall simply stops until its direction reverses.
    let p1 = store.get_position(pad1).unwrap();
    let p1c = Position {
        x: p1.x,
        y: clamp_paddle_y(p1.y, p1.height, FIELD_HEIGHT),
        width: p1.width,
        height: p1.height,
    };
    let r1 = store.set_position(pad1, p1c);
    proof {
        assert(r1 is Ok);
    }
    let p2 = store.get_position(pad2).unwrap();
    let p2c = Position {
        x: p2.x,
        y: clamp_paddle_y(p2.y, p2.height, FIELD_HEIGHT),
        width: p2.width,
        height: p2.height,
    };
    let r2 = store.set_position(pad2, p2c);
    proof {
        assert(r2 is Ok);
        assert(p1c == confined(p1));
        assert(p2c == confined(p2));
    }
    let bp = store.get_position(ball).unwrap();
    let bv = store.get_velocity(ball).unwrap();
    let collision: Option<Collision> = if bp.x < 0 {
        Some(Collision::ScoreWall(Player::Second))
    } else if bp.x > FIELD_WIDTH - bp.width {
        Some(Collision::ScoreWall(Player::First))
    } else if bp.y < 0 || bp.y > FIELD_HEIGHT - bp.height {
        Some(Collision::Bounce(Bounce::Vertical))
    } else if overlaps(&bp, &p1c) || overlaps(&bp, &p2c) {
        Some(Collision::Bounce(Bounce::Horizontal))
    } else {
        None
    };
    proof {
        assert(collision == detect_spec(bp, p1c, p2c));
    }
    match collision {
        None => {},
        Some(Collision::ScoreWall(p)) => {
            let s = store.get_score(score_board).unwrap();
            let ns = match p {
                Player::First => Score { p1: s.p1 + 1, p2: s.p2 },
                Player::Second => Score { p1: s.p1, p2: s.p2 + 1 },
            };
            let rs = store.set_score(score_board, ns);
            let rp = store.set_position(
                ball,
                Position { x: BALL_START_X, y: BALL_START_Y, width: bp.width, height: bp.height },
            );
            let rv = store.set_velocity(ball, Velocity { dx: BALL_START_DX, dy: BALL_START_DY });
            proof {
                assert(rs is Ok);
                assert(rp is Ok);
                assert(rv is Ok);
            }
        },
        Some(Collision::Bounce(b)) => {
            let nv = match b {
                Bounce::Horizontal => Velocity {
                    dx: accelerate(-bv.dx, SPEED_BOOST),
                    dy: bv.dy,
                },
                Bounce::Vertical => Velocity {
                    dx: bv.dx,
                    dy: accelerate(-bv.dy, SPEED_BOOST),
                },
            };
            let rv = store.set_velocity(ball, nv);
            proof {
                assert(rv is Ok);
            }
        },
    }
    proof {
        let p1cs = confined(old(store).pos_at(pad1));
        let p2cs = confined(old(store).pos_at(pad2));
        let c = detect_spec(old(store).pos_at(ball), p1cs, p2cs);
        assert(store.positions() =~= old(store).positions().update(
            pad1.id as int,
            Some(p1cs),
        ).update(pad2.id as int, Some(p2cs)).update(
            ball.id as int,
            Some(resolved_ball_pos(c, old(store).pos_at(ball))),
        ));
        assert(store.velocities() =~= old(store).velocities().update(
            ball.id as int,
            Some(resolved_ball_vel(c, old(store).vel_at(ball))),
        ));
        assert(store.scores() =~= old(store).scores().update(
            score_board.id as int,
            Some(resolved_score(c, old(store).score_at(score_board))),
        ));
    }
}

} // verus!
