//! The entity store: parallel component arenas keyed by a stable index
//! handle.  It holds the entities and their components and has no game logic
//! of its own.

use vstd::prelude::*;
use crate::components::{Position, Role, Score, Velocity};

verus! {

/// Stable, opaque identifier of one entity in a `Store`: the index the
/// entity was created at.  A session never destroys entities, so a handle
/// handed out by `create` stays valid for the store's whole lifetime.
#[derive(Clone, Copy, Debug, PartialEq, Eq, Structural)]
pub struct Handle {
    pub id: usize,
}

/// The store's explicit not-found signal: the handle is stale or the
/// asked-for component is absent on that entity.  The store never silently
/// returns a default.
#[derive(Clone, Copy, Debug, PartialEq, Eq, Structural)]
pub enum StoreError {
    NotFound,
}

/// Entities and their components, stored as parallel arenas indexed by the
/// entity's handle.  An absent component is `None`; `set_*` overwrites a
/// component in place but never adds or removes one.
pub struct Store {
    roles: Vec<Option<Role>>,
    positions: Vec<Option<Position>>,
    velocities: Vec<Option<Velocity>>,
    scores: Vec<Option<Score>>,
}

impl Store {
    /// Role tags by entity index.
    pub closed spec fn roles(self) -> Seq<Option<Role>> {
        self.roles@
    }

    /// Position components by entity index.
    pub closed spec fn positions(self) -> Seq<Option<Position>> {
        self.positions@
    }

    /// Velocity components by entity index.
    pub closed spec fn velocities(self) -> Seq<Option<Velocity>> {
        self.velocities@
    }

    /// Score components by entity index.
    pub closed spec fn scores(self) -> Seq<Option<Score>> {
        self.scores@
    }

    /// Number of entities ever created in this store.
    pub open spec fn len(self) -> nat {
        self.roles().len()
    }

    /// The arenas run in parallel: one slot per entity in each of them.
    pub open spec fn wf(self) -> bool {
        &&& self.positions().len() == self.len()
        &&& self.velocities().len() == self.len()
        &&& self.scores().len() == self.len()
    }

    /// Whether `h` names an entity of this store.
    pub open spec fn valid(self, h: Handle) -> bool {
        h.id < self.len()
    }

    /// The position component of `h`'s entity; meaningful when the entity
    /// has one.
    pub open spec fn pos_at(self, h: Handle) -> Position {
        self.positions()[h.id as int]->Some_0
    }

    /// The velocity component of `h`'s entity; meaningful when the entity
    /// has one.
    pub open spec fn vel_at(self, h: Handle) -> Velocity {
        self.velocities()[h.id as int]->Some_0
    }

    /// The score component of `h`'s entity; meaningful when the entity has
    /// one.
    pub open spec fn score_at(self, h: Handle) -> Score {
        self.scores()[h.id as int]->Some_0
    }

    /// Whether role `role` passes the iteration filter `filter`; a `None`
    /// filter takes every entity.
    pub open spec fn passes(role: Option<Role>, filter: Option<Role>) -> bool {
        match filter {
            None => true,
            Some(f) => role == Some(f),
        }
    }

    /// An empty store.
    pub fn new() -> (s: Store)
        ensures
            s.wf(),
            s.len() == 0,
    {
        Store {
            roles: Vec::new(),
            positions: Vec::new(),
            velocities: Vec::new(),
            scores: Vec::new(),
        }
    }

    /// Number of entities in the store.
    pub fn num_entities(&self) -> (n: usize)
        requires
            self.wf(),
        ensures
            n == self.len(),
    {
        self.roles.len()
    }

    /// Creates one entity with the given components and returns its handle.
    /// Handles are indices in creation order, so the first-created entity of
    /// a role is also the first that `iterate` yields for that role.
    pub fn create(
        &mut self,
        role: Option<Role>,
        pos: Option<Position>,
        vel: Option<Velocity>,
        score: Option<Score>,
    ) -> (h: Handle)
        requires
            old(self).wf(),
            old(self).len() < usize::MAX,
        ensures
            final(self).wf(),
            h.id == old(self).len(),
            final(self).roles() == old(self).roles().push(role),
            final(self).positions() == old(self).positions().push(pos),
            final(self).velocities() == old(self).velocities().push(vel),
            final(self).scores() == old(self).scores().push(score),
    {
        let id = self.roles.len();
        self.roles.push(role);
        self.positions.push(pos);
        self.velocities.push(vel);
        self.scores.push(score);
        Handle { id }
    }

    /// The entity's role tag, or `None` when the handle is stale or the
    /// entity carries no tag.
    pub fn get_role(&self, h: Handle) -> (r: Option<Role>)
        requires
            self.wf(),
        ensures
            r == if self.valid(h) {
                self.roles()[h.id as int]
            } else {
                None::<Role>
            },
    {
        if h.id < self.roles.len() {
            self.roles[h.id]
        } else {
            None
        }
    }

    /// The entity's position, or `None` when the handle is stale or the
    /// component is absent.
    pub fn get_position(&self, h: Handle) -> (r: Option<Position>)
        requires
            self.wf(),
        ensures
            r == if self.valid(h) {
                self.positions()[h.id as int]
            } else {
                None::<Position>
            },
    {
        if h.id < self.positions.len() {
            self.positions[h.id]
        } else {
            None
        }
    }

    /// The entity's velocity, or `None` when the handle is stale or the
    /// component is absent.
    pub fn get_velocity(&self, h: Handle) -> (r: Option<Velocity>)
        requires
            self.wf(),
        ensures
            r == if self.valid(h) {
                self.velocities()[h.id as int]
            } else {
                None::<Velocity>
            },
    {
        if h.id < self.velocities.len() {
            self.velocities[h.id]
        } else {
            None
        }
    }

    /// The entity's score counters, or `None` when the handle is stale or the
    /// component is absent.
    pub fn get_score(&self, h: Handle) -> (r: Option<Score>)
        requires
            self.wf(),
        ensures
            r == if self.valid(h) {
                self.scores()[h.id as int]
            } else {
                None::<Score>
            },
    {
        if h.id < self.scores.len() {
            self.scores[h.id]
        } else {
            None
        }
    }

    /// Overwrites the entity's position.  Fails with the not-found signal,
    /// changing nothing, when the handle is stale or the entity has no
    /// position component.
    pub fn set_position(&mut self, h: Handle, p: Position) -> (r: Result<(), StoreError>)
        requires
            old(self).wf(),
        ensures
            final(self).wf(),
            r is Ok <==> old(self).valid(h) && old(self).positions()[h.id as int] is Some,
            r is Ok ==> final(self).positions() == old(self).positions().update(
                h.id as int,
                Some(p),
            ),
            r is Err ==> r == Err::<(), StoreError>(StoreError::NotFound) && final(self).positions()
                == old(self).positions(),
            final(self).roles() == old(self).roles(),
            final(self).velocities() == old(self).velocities(),
            final(self).scores() == old(self).scores(),
    {
        if h.id < self.positions.len() && self.positions[h.id].is_some() {
            vstd::std_specs::core::index_set(&mut self.positions, h.id, Some(p));
            Ok(())
        } else {
            Err(StoreError::NotFound)
        }
    }

    /// Overwrites the entity's velocity.  Fails with the not-found signal,
    /// changing nothing, when the handle is stale or the entity has no
    /// velocity component.
    pub fn set_velocity(&mut self, h: Handle, v: Velocity) -> (r: Result<(), StoreError>)
        requires
            old(self).wf(),
        ensures
            final(self).wf(),
            r is Ok <==> old(self).valid(h) && old(self).velocities()[h.id as int] is Some,
            r is Ok ==> final(self).velocities() == old(self).velocities().update(
                h.id as int,
                Some(v),
            ),
            r is Err ==> r == Err::<(), StoreError>(StoreError::NotFound)
                && final(self).velocities() == old(self).velocities(),
            final(self).roles() == old(self).roles(),
            final(self).positions() == old(self).positions(),
            final(self).scores() == old(self).scores(),
    {
        if h.id < self.velocities.len() && self.velocities[h.id].is_some() {
            vstd::std_specs::core::index_set(&mut self.velocities, h.id, Some(v));
            Ok(())
        } else {
            Err(StoreError::NotFound)
        }
    }

    /// Overwrites the entity's score counters.  Fails with the not-found
    /// signal, changing nothing, when the handle is stale or the entity has
    /// no score component.
    pub fn set_score(&mut self, h: Handle, s: Score) -> (r: Result<(), StoreError>)
        requires
            old(self).wf(),
        ensures
            final(self).wf(),
            r is Ok <==> old(self).valid(h) && old(self).scores()[h.id as int] is Some,
            r is Ok ==> final(self).scores() == old(self).scores().update(h.id as int, Some(s)),
            r is Err ==> r == Err::<(), StoreError>(StoreError::NotFound) && final(self).scores()
                == old(self).scores(),
            final(self).roles() == old(self).roles(),
            final(self).positions() == old(self).positions(),
            final(self).velocities() == old(self).velocities(),
    {
        if h.id < self.scores.len() && self.scores[h.id].is_some() {
            vstd::std_specs::core::index_set(&mut self.scores, h.id, Some(s));
            Ok(())
        } else {
            Err(StoreError::NotFound)
        }
    }

    /// Handles of every entity whose role passes `filter`, in creation order
    /// (strictly increasing indices, no entity missing, none repeated).
    pub fn iterate(&self, filter: Option<Role>) -> (hs: Vec<Handle>)
        requires
            self.wf(),
        ensures
            forall|k: int|
                0 <= k < hs@.len() ==> (#[trigger] hs@[k]).id < self.len() && Self::passes(
                    self.roles()[hs@[k].id as int],
                    filter,
                ),
            forall|k1: int, k2: int| 0 <= k1 < k2 < hs@.len() ==> hs@[k1].id < hs@[k2].id,
            forall|i: int|
                0 <= i < self.len() && Self::passes(#[trigger] self.roles()[i], filter)
                    ==> exists|k: int| 0 <= k < hs@.len() && (#[trigger] hs@[k]).id == i,
    {
        let mut hs: Vec<Handle> = Vec::new();
        let mut i: usize = 0;
        while i < self.roles.len()
            invariant
                self.wf(),
                i <= self.len(),
                forall|k: int|
                    0 <= k < hs@.len() ==> (#[trigger] hs@[k]).id < i && Self::passes(
                        self.roles()[hs@[k].id as int],
                        filter,
                    ),
                forall|k1: int, k2: int| 0 <= k1 < k2 < hs@.len() ==> hs@[k1].id < hs@[k2].id,
                forall|j: int|
                    0 <= j < i && Self::passes(#[trigger] self.roles()[j], filter)
                        ==> exists|k: int| 0 <= k < hs@.len() && (#[trigger] hs@[k]).id == j,
            decreases self.roles@.len() - i,
        {
            let take = match (&filter, &self.roles[i]) {
                (None, _) => true,
                (Some(f), Some(r)) => *f == *r,
                (Some(_), None) => false,
            };
            let ghost prev = hs@;
            if take {
                hs.push(Handle { id: i });
            }
            proof {
                assert(take == Self::passes(self.roles()[i as int], filter));
                assert forall|j: int|
                    0 <= j < i + 1 && Self::passes(self.roles()[j], filter) implies exists|k: int|
                    0 <= k < hs@.len() && (#[trigger] hs@[k]).id == j by {
                    if j == i {
                        assert(hs@[hs@.len() - 1].id == j);
                    } else {
                        let k = choose|k: int| 0 <= k < prev.len() && (#[trigger] prev[k]).id == j;
                        assert(hs@[k].id == j);
                    }
                }
            }
            i = i + 1;
        }
        hs
    }
}

} // verus!
