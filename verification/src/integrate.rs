//! The integrator: once per tick it advances every entity that has both a
//! position and a velocity by `velocity * dt`.  Each entity's update reads
//! only that entity's own state, so the order of entities cannot affect the
//! outcome.

use vstd::prelude::*;
use crate::components::{Position, Velocity};
use crate::physics::{motion_fits, move_coord, moved};
use crate::store::{Handle, Store};

verus! {

/// Whether one entity's motion arithmetic stays inside `i64` for elapsed
/// time `dt`.  An entity missing either component is not moved, so it always
/// fits.
pub open spec fn entity_motion_fits(
    pos: Option<Position>,
    vel: Option<Velocity>,
    dt: int,
) -> bool {
    match (pos, vel) {
        (Some(p), Some(v)) => motion_fits(p.x as int, v.dx as int, dt) && motion_fits(
            p.y as int,
            v.dy as int,
            dt,
        ),
        _ => true,
    }
}

/// Whether every entity of `s` fits for elapsed time `dt`.
pub open spec fn store_motion_fits(s: Store, dt: int) -> bool {
    forall|i: int|
        0 <= i < s.len() ==> entity_motion_fits(
            #[trigger] s.positions()[i],
            s.velocities()[i],
            dt,
        )
}

/// One entity's position after integration: moved by `velocity * dt` when the
/// entity has both components, unchanged otherwise.  Width and height never
/// change.
pub open spec fn integrated(pos: Option<Position>, vel: Option<Velocity>, dt: int) -> Option<
    Position,
> {
    match (pos, vel) {
        (Some(p), Some(v)) => Some(
            Position {
                x: moved(p.x as int, v.dx as int, dt) as i64,
                y: moved(p.y as int, v.dy as int, dt) as i64,
                width: p.width,
                height: p.height,
            },
        ),
        _ => pos,
    }
}

/// Advances every entity possessing both a position and a velocity:
/// `x += dx * dt` and `y += dy * dt`, with `dt` in microseconds.  Every
/// other component, and the position of every entity missing a velocity,
/// is untouched.
pub fn integrate(store: &mut Store, dt: u64)
    requires
        old(store).wf(),
        1 <= dt <= i64::MAX,
        store_motion_fits(*old(store), dt as int),
    ensures
        final(store).wf(),
        final(store).len() == old(store).len(),
        final(store).roles() == old(store).roles(),
        final(store).velocities() == old(store).velocities(),
        final(store).scores() == old(store).scores(),
        final(store).positions().len() == old(store).positions().len(),
        forall|i: int|
            0 <= i < old(store).len() ==> final(store).positions()[i] == integrated(
                old(store).positions()[i],
                old(store).velocities()[i],
                dt as int,
            ),
{
    let ghost orig = *store;
    let n = store.num_entities();
    let dt_i = dt as i64;
    let mut i: usize = 0;
    while i < n
        invariant
            store.wf(),
            i <= n,
            n == orig.len(),
            1 <= dt <= i64::MAX,
            dt_i == dt,
            store_motion_fits(orig, dt as int),
            store.len() == orig.len(),
            store.roles() == orig.roles(),
            store.velocities() == orig.velocities(),
            store.scores() == orig.scores(),
            store.positions().len() == orig.positions().len(),
            forall|j: int|
                0 <= j < i ==> #[trigger] store.positions()[j] == integrated(
                    orig.positions()[j],
                    orig.velocities()[j],
                    dt as int,
                ),
            forall|j: int|
                i <= j < orig.len() ==> #[trigger] store.positions()[j] == orig.positions()[j],
        decreases n - i,
    {
        let h = Handle { id: i };
        let pos_opt = store.get_position(h);
        let vel_opt = store.get_velocity(h);
        match (pos_opt, vel_opt) {
            (Some(p), Some(v)) => {
                let nx = move_coord(p.x, v.dx, dt_i);
                let ny = move_coord(p.y, v.dy, dt_i);
                let np = Position { x: nx, y: ny, width: p.width, height: p.height };
                let set_r = store.set_position(h, np);
                proof {
                    assert(set_r is Ok);
                }
            },
            _ => {},
        }
        i = i + 1;
    }
}

} // verus!
