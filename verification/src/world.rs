//! The entity registry: a table of entities keyed by stable integer handles.
//! Despawning clears an alive flag and keeps the slot, so stale handles held
//! by queued events resolve to a harmless miss.

use vstd::prelude::*;
use crate::components::{Spatial, ThrustEngine, Weapon};
use crate::fixed::{in_box, Vec2};
use crate::{ANG_MAX, VEL_MAX};

verus! {

/// One entity: an alive flag, optional components, and tag markers.
#[derive(Clone, Debug)]
pub struct Entity {
    pub alive: bool,
    pub spatial: Option<Spatial>,
    pub velocity: Option<Vec2>,
    /// Angular rate in tenth-degrees per second.
    pub angular_velocity: Option<i64>,
    /// Cap on velocity magnitude, in milli-pixels per second.
    pub speed_limit: Option<i64>,
    /// Per-sub-step velocity retention factor, in milli-units of one.
    pub damping: Option<i64>,
    pub thrust: Option<ThrustEngine>,
    /// Maximum turn rate in tenth-degrees per second.
    pub steering: Option<i64>,
    pub weapon: Option<Weapon>,
    /// Silhouette vertices relative to the position, for presentation.
    pub shape: Option<Vec<Vec2>>,
    pub is_ship: bool,
    pub is_bullet: bool,
    pub is_asteroid: bool,
    pub boundary_wrap: bool,
    pub boundary_removal: bool,
}

impl Entity {
    /// Every present component within the simulation's tracked ranges.
    pub open spec fn wf(self) -> bool {
        &&& (self.spatial matches Some(s) ==> s.wf())
        &&& (self.velocity matches Some(v) ==> in_box(v, VEL_MAX as int))
        &&& (self.angular_velocity matches Some(a) ==> -ANG_MAX <= a <= ANG_MAX)
        &&& (self.speed_limit matches Some(l) ==> 0 <= l <= VEL_MAX)
        &&& (self.damping matches Some(d) ==> 0 < d <= 1000)
        &&& (self.thrust matches Some(t) ==> t.wf())
        &&& (self.steering matches Some(s) ==> 0 <= s <= ANG_MAX)
        &&& (self.weapon matches Some(w) ==> w.wf())
    }

    /// An entity with no components, alive, untagged.
    pub fn empty() -> (r: Entity)
        ensures
            r == Entity::spec_empty(),
    {
        Entity {
            alive: true,
            spatial: None,
            velocity: None,
            angular_velocity: None,
            speed_limit: None,
            damping: None,
            thrust: None,
            steering: None,
            weapon: None,
            shape: None,
            is_ship: false,
            is_bullet: false,
            is_asteroid: false,
            boundary_wrap: false,
            boundary_removal: false,
        }
    }

    pub open spec fn spec_empty() -> Entity {
        Entity {
            alive: true,
            spatial: None,
            velocity: None,
            angular_velocity: None,
            speed_limit: None,
            damping: None,
            thrust: None,
            steering: None,
            weapon: None,
            shape: None,
            is_ship: false,
            is_bullet: false,
            is_asteroid: false,
            boundary_wrap: false,
            boundary_removal: false,
        }
    }
}

/// `e` with its alive flag cleared and everything else kept.
pub open spec fn kill(e: Entity) -> Entity {
    Entity { alive: false, ..e }
}

/// The registry of all entities; a handle is an index into the table.
pub struct World {
    pub entities: Vec<Entity>,
}

impl World {
    pub open spec fn wf(self) -> bool {
        forall|i: int| 0 <= i < self.entities@.len() ==> #[trigger] self.entities@[i].wf()
    }

    pub fn new() -> (r: World)
        ensures
            r.entities@.len() == 0,
            r.wf(),
    {
        World { entities: Vec::new() }
    }

    /// Create an entity; returns its handle.
    pub fn spawn(&mut self, e: Entity) -> (id: usize)
        requires
            e.wf(),
        ensures
            final(self).entities@ == old(self).entities@.push(e),
            id == old(self).entities@.len(),
            old(self).wf() ==> final(self).wf(),
    {
        let id = self.entities.len();
        self.entities.push(e);
        proof {
            if old(self).wf() {
                assert forall|i: int| 0 <= i < self.entities@.len() implies #[trigger] self
                    .entities@[i].wf() by {
                    if i < old(self).entities@.len() {
                        assert(self.entities@[i] == old(self).entities@[i]);
                    }
                }
            }
        }
        id
    }

    /// Clear the alive flag of a (possibly already dead or stale) handle;
    /// a handle past the table is a no-op.
    pub fn despawn(&mut self, id: usize)
        ensures
            final(self).entities@.len() == old(self).entities@.len(),
            id < old(self).entities@.len() ==> final(self).entities@ == old(
                self,
            ).entities@.update(id as int, kill(old(self).entities@[id as int])),
            id >= old(self).entities@.len() ==> final(self).entities@ == old(self).entities@,
            old(self).wf() ==> final(self).wf(),
    {
        if id < self.entities.len() {
            self.entities[id].alive = false;
            proof {
                assert(self.entities@[id as int] == kill(old(self).entities@[id as int]));
                assert(self.entities@ == old(self).entities@.update(
                    id as int,
                    kill(old(self).entities@[id as int]),
                ));
                if old(self).wf() {
                    assert forall|i: int| 0 <= i < self.entities@.len() implies #[trigger] self
                        .entities@[i].wf() by {
                        assert(old(self).entities@[i].wf());
                    }
                }
            }
        }
    }

    /// Apply a batch of queued despawn commands at a single flush point.
    pub fn flush_despawns(&mut self, cmds: &Vec<usize>)
        ensures
            final(self).entities@.len() == old(self).entities@.len(),
            forall|j: int|
                0 <= j < old(self).entities@.len() ==> #[trigger] final(self).entities@[j] == (
                if cmds@.contains(j as usize) {
                    kill(old(self).entities@[j])
                } else {
                    old(self).entities@[j]
                }),
            old(self).wf() ==> final(self).wf(),
    {
        let n = cmds.len();
        let mut i: usize = 0;
        while i < n
            invariant
                n == cmds@.len(),
                0 <= i <= n,
                self.entities@.len() == old(self).entities@.len(),
                forall|j: int|
                    0 <= j < old(self).entities@.len() ==> #[trigger] self.entities@[j] == (
                    if cmds@.take(i as int).contains(j as usize) {
                        kill(old(self).entities@[j])
                    } else {
                        old(self).entities@[j]
                    }),
            decreases n - i,
        {
            let id = cmds[i];
            if id < self.entities.len() {
                self.entities[id].alive = false;
            }
            proof {
                assert(cmds@.take(i + 1) == cmds@.take(i as int).push(cmds@[i as int]));
                assert forall|j: int| 0 <= j < old(self).entities@.len() implies #[trigger] self
                    .entities@[j] == (if cmds@.take(i + 1).contains(j as usize) {
                    kill(old(self).entities@[j])
                } else {
                    old(self).entities@[j]
                }) by {
                    let t0 = cmds@.take(i as int);
                    let t1 = cmds@.take(i + 1);
                    if t1.contains(j as usize) {
                        if j == id as int {
                        } else {
                            assert(t0.contains(j as usize)) by {
                                let k = choose|k: int| 0 <= k < t1.len() && t1[k] == j as usize;
                                assert(t0[k] == j as usize);
                            }
                        }
                    } else {
                        assert(!t0.contains(j as usize)) by {
                            if t0.contains(j as usize) {
                                let k = choose|k: int| 0 <= k < t0.len() && t0[k] == j as usize;
                                assert(t1[k] == j as usize);
                            }
                        }
                        assert(j != id as int) by {
                            if j == id as int {
                                assert(t1[i as int] == j as usize);
                            }
                        }
                    }
                }
            }
            i = i + 1;
        }
        proof {
            assert(cmds@.take(n as int) == cmds@);
            if old(self).wf() {
                assert forall|i2: int| 0 <= i2 < self.entities@.len() implies #[trigger] self
                    .entities@[i2].wf() by {
                    assert(old(self).entities@[i2].wf());
                }
            }
        }
    }
}

} // verus!
