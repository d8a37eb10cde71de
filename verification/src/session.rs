//! The session and its frame driver.  A session owns the entity store with
//! the fixed population of one ball, two paddles (first-created = left =
//! player one) and one score board, plus the input mapper state and the
//! running flag.  While running, each tick applies the input events, then
//! the integrator, then the collision resolver, in that fixed order; a quit
//! signal stops the session for good.

use vstd::prelude::*;
use crate::collide::{
    confined, detect_spec, resolve, resolved_ball_pos, resolved_ball_vel, resolved_score,
};
use crate::components::{Position, Role, Score, Velocity};
use crate::config::{
    BALL_HEIGHT, BALL_START_DX, BALL_START_DY, BALL_START_X, BALL_START_Y, BALL_WIDTH, DT_LIMIT,
    FIELD_HEIGHT, PADDLE1_START_X, PADDLE2_START_X, PADDLE_HEIGHT, PADDLE_START_Y,
    PADDLE_WIDTH, POS_LIMIT, SPEED_BOOST, VEL_LIMIT,
};
use crate::input::{has_quit, pad_run, pad_step, Dir, InputEvent, InputMapper, PadModel};
use crate::integrate::{entity_motion_fits, integrate, store_motion_fits};
use crate::physics::{lemma_clamp_confines, lemma_motion_additive, magnitude, motion_fits, moved};
use crate::store::{Handle, Store};

verus! {

/// The frame driver's two states.  `Stopped` is terminal: it is entered only
/// on a quit signal and never left.
#[derive(Clone, Copy, Debug, PartialEq, Eq, Structural)]
pub enum RunState {
    Running,
    Stopped,
}

/// What one call of `Session::step` did.
#[derive(Clone, Copy, Debug, PartialEq, Eq, Structural)]
pub enum StepResult {
    /// The tick ran: input, integration and resolution were applied.
    Advanced,
    /// A quit signal arrived; events before it were applied, the rest of the
    /// tick was skipped and the session stopped.
    Quit,
    /// A coordinate, velocity or counter sat outside the accepted numeric
    /// range; the session is unchanged.
    OutOfRange,
}

/// The whole mutable state of a session as one mathematical value: the
/// ball's position and velocity, the paddles' vertical positions and
/// velocities, the two score counters and the input mapper's held keys.
/// Everything else about a session (sizes, paddle x coordinates) is fixed
/// at session start.
pub struct GameModel {
    pub ball_x: int,
    pub ball_y: int,
    pub ball_dx: int,
    pub ball_dy: int,
    pub pad1_y: int,
    pub pad1_dy: int,
    pub pad2_y: int,
    pub pad2_dy: int,
    pub score1: int,
    pub score2: int,
    pub hold1: Option<Dir>,
    pub hold2: Option<Dir>,
}

/// The fixed state every session starts in.
pub open spec fn initial_model() -> GameModel {
    GameModel {
        ball_x: BALL_START_X as int,
        ball_y: BALL_START_Y as int,
        ball_dx: BALL_START_DX as int,
        ball_dy: BALL_START_DY as int,
        pad1_y: PADDLE_START_Y as int,
        pad1_dy: 0,
        pad2_y: PADDLE_START_Y as int,
        pad2_dy: 0,
        score1: 0,
        score2: 0,
        hold1: None,
        hold2: None,
    }
}

/// The model after the input mapper has applied a tick's events (up to the
/// first quit signal): only the paddle velocities and the held keys change.
pub open spec fn model_after_input(m: GameModel, evs: Seq<InputEvent>) -> GameModel {
    let p = pad_run(
        PadModel { hold1: m.hold1, hold2: m.hold2, dy1: m.pad1_dy, dy2: m.pad2_dy },
        evs,
    );
    GameModel { hold1: p.hold1, hold2: p.hold2, pad1_dy: p.dy1, pad2_dy: p.dy2, ..m }
}

/// The model after the integrator has advanced every body by
/// `velocity * dt`; `dt` is in microseconds.  The paddles' horizontal
/// velocity is always zero, so only their y coordinates move.
pub open spec fn model_after_motion(m: GameModel, dt: int) -> GameModel {
    GameModel {
        ball_x: moved(m.ball_x, m.ball_dx, dt),
        ball_y: moved(m.ball_y, m.ball_dy, dt),
        pad1_y: moved(m.pad1_y, m.pad1_dy, dt),
        pad2_y: moved(m.pad2_y, m.pad2_dy, dt),
        ..m
    }
}

/// Law: integrating for `dt1` and then for `dt2` yields the same model as a
/// single integration for `dt1 + dt2`.
pub proof fn lemma_motion_composes(m: GameModel, dt1: int, dt2: int)
    requires
        dt1 > 0,
        dt2 > 0,
    ensures
        model_after_motion(model_after_motion(m, dt1), dt2) == model_after_motion(m, dt1 + dt2),
{
    lemma_motion_additive(m.ball_x, m.ball_dx, dt1, dt2);
    lemma_motion_additive(m.ball_y, m.ball_dy, dt1, dt2);
    lemma_motion_additive(m.pad1_y, m.pad1_dy, dt1, dt2);
    lemma_motion_additive(m.pad2_y, m.pad2_dy, dt1, dt2);
}

/// The model after the collision and scoring resolver has run.
pub open spec fn model_after_resolve(m: GameModel) -> GameModel {
    let ballp = Position {
        x: m.ball_x as i64,
        y: m.ball_y as i64,
        width: BALL_WIDTH,
        height: BALL_HEIGHT,
    };
    let ballv = Velocity { dx: m.ball_dx as i64, dy: m.ball_dy as i64 };
    let pad1 = Position {
        x: PADDLE1_START_X,
        y: m.pad1_y as i64,
        width: PADDLE_WIDTH,
        height: PADDLE_HEIGHT,
    };
    let pad2 = Position {
        x: PADDLE2_START_X,
        y: m.pad2_y as i64,
        width: PADDLE_WIDTH,
        height: PADDLE_HEIGHT,
    };
    let s = Score { p1: m.score1 as u16, p2: m.score2 as u16 };
    let p1c = confined(pad1);
    let p2c = confined(pad2);
    let c = detect_spec(ballp, p1c, p2c);
    let nbp = resolved_ball_pos(c, ballp);
    let nbv = resolved_ball_vel(c, ballv);
    let ns = resolved_score(c, s);
    GameModel {
        ball_x: nbp.x as int,
        ball_y: nbp.y as int,
        ball_dx: nbv.dx as int,
        ball_dy: nbv.dy as int,
        pad1_y: p1c.y as int,
        pad2_y: p2c.y as int,
        score1: ns.p1 as int,
        score2: ns.p2 as int,
        ..m
    }
}

/// One full tick while running: input, then integration, then resolution,
/// in that fixed order, once each.
pub open spec fn model_tick(m: GameModel, evs: Seq<InputEvent>, dt: int) -> GameModel {
    model_after_resolve(model_after_motion(model_after_input(m, evs), dt))
}

/// Law: after resolution both paddles lie wholly inside the field, whatever
/// state they were driven into before.
pub proof fn lemma_resolve_confines_paddles(m: GameModel)
    ensures
        0 <= model_after_resolve(m).pad1_y <= FIELD_HEIGHT - PADDLE_HEIGHT,
        0 <= model_after_resolve(m).pad2_y <= FIELD_HEIGHT - PADDLE_HEIGHT,
{
    lemma_clamp_confines(
        (m.pad1_y as i64) as int,
        PADDLE_HEIGHT as int,
        FIELD_HEIGHT as int,
    );
    lemma_clamp_confines(
        (m.pad2_y as i64) as int,
        PADDLE_HEIGHT as int,
        FIELD_HEIGHT as int,
    );
}

/// Law: the score counters never go down, a tick raises each by at most one,
/// and at most one scoring event happens per tick.
pub proof fn lemma_scores_only_grow(m: GameModel, evs: Seq<InputEvent>, dt: int)
    requires
        0 <= m.score1 < u16::MAX,
        0 <= m.score2 < u16::MAX,
    ensures
        m.score1 <= model_tick(m, evs, dt).score1 <= m.score1 + 1,
        m.score2 <= model_tick(m, evs, dt).score2 <= m.score2 + 1,
        model_tick(m, evs, dt).score1 + model_tick(m, evs, dt).score2 <= m.score1 + m.score2
            + 1,
{
}

/// One game session: the entity store with its fixed population, the handles
/// of the four entities, the input mapper and the running flag.
pub struct Session {
    pub store: Store,
    pub ball: Handle,
    pub pad1: Handle,
    pub pad2: Handle,
    pub score_board: Handle,
    pub mapper: InputMapper,
    pub state: RunState,
}

impl Session {
    /// The structural invariant of a session: exactly one ball, two paddles
    /// in creation order and one score board, each with exactly the
    /// components its role calls for, with the fixed session geometry
    /// (sizes and paddle x coordinates constant, paddles never moving
    /// horizontally).
    pub open spec fn wf(self) -> bool {
        &&& self.store.wf()
        &&& self.store.len() == 4
        &&& self.ball.id == 0
        &&& self.pad1.id == 1
        &&& self.pad2.id == 2
        &&& self.score_board.id == 3
        &&& self.store.roles()[0] == Some(Role::Ball)
        &&& self.store.roles()[1] == Some(Role::Paddle)
        &&& self.store.roles()[2] == Some(Role::Paddle)
        &&& self.store.roles()[3] is None
        &&& self.store.positions()[0] is Some
        &&& self.store.positions()[1] is Some
        &&& self.store.positions()[2] is Some
        &&& self.store.positions()[3] is None
        &&& self.store.velocities()[0] is Some
        &&& self.store.velocities()[1] is Some
        &&& self.store.velocities()[2] is Some
        &&& self.store.velocities()[3] is None
        &&& self.store.scores()[0] is None
        &&& self.store.scores()[1] is None
        &&& self.store.scores()[2] is None
        &&& self.store.scores()[3] is Some
        &&& self.store.pos_at(self.ball).width == BALL_WIDTH
        &&& self.store.pos_at(self.ball).height == BALL_HEIGHT
        &&& self.store.pos_at(self.pad1).x == PADDLE1_START_X
        &&& self.store.pos_at(self.pad1).width == PADDLE_WIDTH
        &&& self.store.pos_at(self.pad1).height == PADDLE_HEIGHT
        &&& self.store.pos_at(self.pad2).x == PADDLE2_START_X
        &&& self.store.pos_at(self.pad2).width == PADDLE_WIDTH
        &&& self.store.pos_at(self.pad2).height == PADDLE_HEIGHT
        &&& self.store.vel_at(self.pad1).dx == 0
        &&& self.store.vel_at(self.pad2).dx == 0
    }

    /// Whether the session is still running.
    pub open spec fn running(self) -> bool {
        self.state is Running
    }

    /// This session's mutable state as one mathematical value.
    pub open spec fn model(self) -> GameModel {
        GameModel {
            ball_x: self.store.pos_at(self.ball).x as int,
            ball_y: self.store.pos_at(self.ball).y as int,
            ball_dx: self.store.vel_at(self.ball).dx as int,
            ball_dy: self.store.vel_at(self.ball).dy as int,
            pad1_y: self.store.pos_at(self.pad1).y as int,
            pad1_dy: self.store.vel_at(self.pad1).dy as int,
            pad2_y: self.store.pos_at(self.pad2).y as int,
            pad2_dy: self.store.vel_at(self.pad2).dy as int,
            score1: self.store.score_at(self.score_board).p1 as int,
            score2: self.store.score_at(self.score_board).p2 as int,
            hold1: self.mapper.hold1,
            hold2: self.mapper.hold2,
        }
    }

    /// Whether every coordinate, velocity and counter lies inside the range
    /// the engine accepts for one tick.  The limits are far beyond anything
    /// reachable in play; they only keep every product and sum of a tick
    /// inside `i64` and the counters below their ceiling.
    pub open spec fn bounded(self) -> bool {
        let m = self.model();
        &&& magnitude(m.ball_x) <= POS_LIMIT
        &&& magnitude(m.ball_y) <= POS_LIMIT
        &&& magnitude(m.pad1_y) <= POS_LIMIT
        &&& magnitude(m.pad2_y) <= POS_LIMIT
        &&& magnitude(m.ball_dx) <= VEL_LIMIT
        &&& magnitude(m.ball_dy) <= VEL_LIMIT
        &&& magnitude(m.pad1_dy) <= VEL_LIMIT
        &&& magnitude(m.pad2_dy) <= VEL_LIMIT
        &&& m.score1 < u16::MAX
        &&& m.score2 < u16::MAX
    }

    /// Starts a session: creates the ball, the two paddles (player one's
    /// first) and the score board with the fixed initial components, with
    /// no key held and the driver running.
    pub fn new() -> (s: Session)
        ensures
            s.wf(),
            s.bounded(),
            s.running(),
            s.model() == initial_model(),
    {
        let mut store = Store::new();
        let ball = store.create(
            Some(Role::Ball),
            Some(
                Position {
                    x: BALL_START_X,
                    y: BALL_START_Y,
                    width: BALL_WIDTH,
                    height: BALL_HEIGHT,
                },
            ),
            Some(Velocity { dx: BALL_START_DX, dy: BALL_START_DY }),
            None,
        );
        let pad1 = store.create(
            Some(Role::Paddle),
            Some(
                Position {
                    x: PADDLE1_START_X,
                    y: PADDLE_START_Y,
                    width: PADDLE_WIDTH,
                    height: PADDLE_HEIGHT,
                },
            ),
            Some(Velocity { dx: 0, dy: 0 }),
            None,
        );
        let pad2 = store.create(
            Some(Role::Paddle),
            Some(
                Position {
                    x: PADDLE2_START_X,
                    y: PADDLE_START_Y,
                    width: PADDLE_WIDTH,
                    height: PADDLE_HEIGHT,
                },
            ),
            Some(Velocity { dx: 0, dy: 0 }),
            None,
        );
        let score_board = store.create(None, None, None, Some(Score { p1: 0, p2: 0 }));
        Session {
            store,
            ball,
            pad1,
            pad2,
            score_board,
            mapper: InputMapper::new(),
            state: RunState::Running,
        }
    }

    /// Whether the session's state is inside the accepted numeric range.
    pub fn in_range(&self) -> (b: bool)
        requires
            self.wf(),
        ensures
            b == self.bounded(),
    {
        let bp = self.store.get_position(self.ball).unwrap();
        let bv = self.store.get_velocity(self.ball).unwrap();
        let p1p = self.store.get_position(self.pad1).unwrap();
        let p1v = self.store.get_velocity(self.pad1).unwrap();
        let p2p = self.store.get_position(self.pad2).unwrap();
        let p2v = self.store.get_velocity(self.pad2).unwrap();
        let s = self.store.get_score(self.score_board).unwrap();
        -POS_LIMIT <= bp.x && bp.x <= POS_LIMIT && -POS_LIMIT <= bp.y && bp.y <= POS_LIMIT
            && -POS_LIMIT <= p1p.y && p1p.y <= POS_LIMIT && -POS_LIMIT <= p2p.y && p2p.y
            <= POS_LIMIT && -VEL_LIMIT <= bv.dx && bv.dx <= VEL_LIMIT && -VEL_LIMIT <= bv.dy
            && bv.dy <= VEL_LIMIT && -VEL_LIMIT <= p1v.dy && p1v.dy <= VEL_LIMIT && -VEL_LIMIT
            <= p2v.dy && p2v.dy <= VEL_LIMIT && s.p1 < u16::MAX && s.p2 < u16::MAX
    }

    /// One tick of the frame driver.  If any value sits outside the accepted
    /// numeric range the tick is refused and nothing changes.  Otherwise the
    /// tick's events are applied in order; a quit signal stops the session
    /// there, and without one the integrator and the resolver run, in that
    /// fixed order, once.
    pub fn step(&mut self, events: &Vec<InputEvent>, dt: u64) -> (r: StepResult)
        requires
            old(self).wf(),
            old(self).running(),
            1 <= dt <= DT_LIMIT,
        ensures
            final(self).wf(),
            r is OutOfRange <==> !old(self).bounded(),
            r is OutOfRange ==> *final(self) == *old(self),
            old(self).bounded() && has_quit(events@) ==> r is Quit && !final(self).running()
                && final(self).model() == model_after_input(old(self).model(), events@),
            old(self).bounded() && !has_quit(events@) ==> r is Advanced && final(self).running()
                && final(self).model() == model_tick(old(self).model(), events@, dt as int),
    {
        if !self.in_range() {
            return StepResult::OutOfRange;
        }
        let ghost m0 = self.model();
        // Input: drain the tick's events into the paddle velocities.
        let v1 = self.store.get_velocity(self.pad1).unwrap();
        let v2 = self.store.get_velocity(self.pad2).unwrap();
        let applied = self.mapper.apply_all(events, v1.dy, v2.dy);
        let rv1 = self.store.set_velocity(self.pad1, Velocity { dx: v1.dx, dy: applied.0 });
        let rv2 = self.store.set_velocity(self.pad2, Velocity { dx: v2.dx, dy: applied.1 });
        proof {
            assert(rv1 is Ok);
            assert(rv2 is Ok);
            assert(self.model() == model_after_input(m0, events@));
        }
        if applied.2 {
            self.state = RunState::Stopped;
            return StepResult::Quit;
        }
        let ghost m1 = self.model();
        proof {
            lemma_pad_run_keeps_bound(
                PadModel { hold1: m0.hold1, hold2: m0.hold2, dy1: m0.pad1_dy, dy2: m0.pad2_dy },
                events@,
            );
            lemma_step_motion_fits(*self, dt);
        }
        integrate(&mut self.store, dt);
        proof {
            assert(self.model() == model_after_motion(m1, dt as int));
            lemma_step_resolve_fits(*self, m1, dt as int);
        }
        resolve(&mut self.store, self.ball, self.pad1, self.pad2, self.score_board);
        proof {
            assert(self.model() == model_after_resolve(model_after_motion(m1, dt as int)));
        }
        StepResult::Advanced
    }
}

/// After any run of the input mapper both paddle velocities are zero, the
/// paddle speed, or a velocity that was already there before.
proof fn lemma_pad_run_keeps_bound(m: PadModel, evs: Seq<InputEvent>)
    requires
        magnitude(m.dy1) <= VEL_LIMIT,
        magnitude(m.dy2) <= VEL_LIMIT,
    ensures
        magnitude(pad_run(m, evs).dy1) <= VEL_LIMIT,
        magnitude(pad_run(m, evs).dy2) <= VEL_LIMIT,
    decreases evs.len(),
{
    if evs.len() == 0 {
    } else if evs[0] is Quit {
    } else {
        lemma_pad_run_keeps_bound(pad_step(m, evs[0]), evs.drop_first());
    }
}

/// A product of a bounded velocity and an accepted elapsed time stays within
/// ten quadrillion microunits.
proof fn lemma_mul_magnitude_bound(d: int, t: int)
    requires
        -VEL_LIMIT <= d <= VEL_LIMIT,
        0 <= t <= DT_LIMIT,
    ensures
        -10_000_000_000_000_000 <= d * t <= 10_000_000_000_000_000,
{
    assert(-10_000_000_000_000_000 <= d * t <= 10_000_000_000_000_000) by (nonlinear_arith)
        requires
            -1_000_000_000 <= d <= 1_000_000_000,
            0 <= t <= 10_000_000,
    ;
}

/// One bounded coordinate's motion arithmetic fits `i64` for any accepted
/// elapsed time.
proof fn lemma_coord_motion_fits(x: int, d: int, t: int)
    requires
        magnitude(x) <= POS_LIMIT,
        magnitude(d) <= VEL_LIMIT,
        0 <= t <= DT_LIMIT,
    ensures
        motion_fits(x, d, t),
{
    lemma_mul_magnitude_bound(d, t);
}

/// A bounded session's motion arithmetic fits `i64` for any accepted `dt`.
proof fn lemma_step_motion_fits(s: Session, dt: u64)
    requires
        s.wf(),
        1 <= dt <= DT_LIMIT,
        magnitude(s.model().ball_x) <= POS_LIMIT,
        magnitude(s.model().ball_y) <= POS_LIMIT,
        magnitude(s.model().pad1_y) <= POS_LIMIT,
        magnitude(s.model().pad2_y) <= POS_LIMIT,
        magnitude(s.model().ball_dx) <= VEL_LIMIT,
        magnitude(s.model().ball_dy) <= VEL_LIMIT,
        magnitude(s.model().pad1_dy) <= VEL_LIMIT,
        magnitude(s.model().pad2_dy) <= VEL_LIMIT,
        magnitude(s.store.pos_at(s.pad1).x as int) <= POS_LIMIT,
        magnitude(s.store.pos_at(s.pad2).x as int) <= POS_LIMIT,
    ensures
        store_motion_fits(s.store, dt as int),
{
    let t = dt as int;
    assert forall|i: int|
        0 <= i < s.store.len() implies entity_motion_fits(
        #[trigger] s.store.positions()[i],
        s.store.velocities()[i],
        t,
    ) by {
        if i == 0 {
            lemma_coord_motion_fits(s.model().ball_x, s.model().ball_dx, t);
            lemma_coord_motion_fits(s.model().ball_y, s.model().ball_dy, t);
        } else if i == 1 {
            lemma_coord_motion_fits(s.store.pos_at(s.pad1).x as int, 0, t);
            lemma_coord_motion_fits(s.model().pad1_y, s.model().pad1_dy, t);
        } else if i == 2 {
            lemma_coord_motion_fits(s.store.pos_at(s.pad2).x as int, 0, t);
            lemma_coord_motion_fits(s.model().pad2_y, s.model().pad2_dy, t);
        }
    }
}

/// After integration of a bounded session the resolver's own arithmetic
/// requirements hold.
proof fn lemma_step_resolve_fits(s: Session, m1: GameModel, dt: int)
    requires
        s.wf(),
        1 <= dt <= DT_LIMIT as int,
        magnitude(m1.ball_x) <= POS_LIMIT,
        magnitude(m1.ball_y) <= POS_LIMIT,
        magnitude(m1.ball_dx) <= VEL_LIMIT,
        magnitude(m1.ball_dy) <= VEL_LIMIT,
        magnitude(m1.pad1_y) <= POS_LIMIT,
        magnitude(m1.pad2_y) <= POS_LIMIT,
        magnitude(m1.pad1_dy) <= VEL_LIMIT,
        magnitude(m1.pad2_dy) <= VEL_LIMIT,
        m1.score1 < u16::MAX,
        m1.score2 < u16::MAX,
        s.model() == model_after_motion(m1, dt),
    ensures
        s.store.pos_at(s.ball).x + s.store.pos_at(s.ball).width <= i64::MAX,
        s.store.pos_at(s.ball).y + s.store.pos_at(s.ball).height <= i64::MAX,
        s.store.pos_at(s.pad1).x + s.store.pos_at(s.pad1).width <= i64::MAX,
        s.store.pos_at(s.pad2).x + s.store.pos_at(s.pad2).width <= i64::MAX,
        magnitude(s.store.vel_at(s.ball).dx as int) + SPEED_BOOST <= i64::MAX,
        magnitude(s.store.vel_at(s.ball).dy as int) + SPEED_BOOST <= i64::MAX,
        s.store.score_at(s.score_board).p1 < u16::MAX,
        s.store.score_at(s.score_board).p2 < u16::MAX,
{
    lemma_mul_magnitude_bound(m1.ball_dx, dt);
    lemma_mul_magnitude_bound(m1.ball_dy, dt);
    lemma_mul_magnitude_bound(m1.pad1_dy, dt);
    lemma_mul_magnitude_bound(m1.pad2_dy, dt);
}

} // verus!
