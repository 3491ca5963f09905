//! Pairwise circle-intersection detection. Asteroid–bullet overlaps are
//! queued as hit events for deferred resolution; ship–asteroid overlaps
//! despawn the asteroid at the stage's flush point.

use vstd::prelude::*;
use crate::components::{HitEvent, Spatial};
use crate::world::{kill, Entity, World};

verus! {

/// Circle intersection: centre distance below the sum of the radii.
pub open spec fn circles_intersect(a: Spatial, b: Spatial) -> bool {
    (a.pos.x - b.pos.x) * (a.pos.x - b.pos.x) + (a.pos.y - b.pos.y) * (a.pos.y - b.pos.y) < (
    a.radius + b.radius) * (a.radius + b.radius)
}

impl Spatial {
    /// Whether this circle and `other` overlap.
    pub fn intersects(&self, other: &Spatial) -> (r: bool)
        requires
            self.wf(),
            other.wf(),
        ensures
            r == circles_intersect(*self, *other),
    {
        let dx = self.pos.x - other.pos.x;
        let dy = self.pos.y - other.pos.y;
        proof {
            assert(dx * dx + dy * dy <= 8_000_000_000_000_000_000 && 0 <= dx * dx && 0 <= dy * dy)
                by (nonlinear_arith)
                requires
                    -2_000_000_000 <= dx <= 2_000_000_000,
                    -2_000_000_000 <= dy <= 2_000_000_000,
            ;
        }
        let d2 = dx * dx + dy * dy;
        let rs = self.radius + other.radius;
        proof {
            assert(0 <= rs * rs <= 4_000_000_000_000) by (nonlinear_arith)
                requires
                    0 <= rs <= 2_000_000,
            ;
        }
        let r2 = rs * rs;
        d2 < r2
    }
}

/// A hit event naming a live asteroid and a live bullet whose circles
/// overlap in `s`.
pub open spec fn is_valid_ab_hit(s: Seq<Entity>, h: HitEvent) -> bool {
    h matches HitEvent::AsteroidBullet { asteroid, bullet } && asteroid < s.len() && bullet
        < s.len() && s[asteroid as int].alive && s[asteroid as int].is_asteroid && s[
    asteroid as int].spatial is Some && s[bullet as int].alive && s[bullet as int].is_bullet && s[
    bullet as int].spatial is Some && circles_intersect(
        s[bullet as int].spatial->Some_0,
        s[asteroid as int].spatial->Some_0,
    )
}

/// Indices `a` (asteroid) and `b` (bullet) form an intersecting live pair.
pub open spec fn ab_pair_hit(s: Seq<Entity>, a: usize, b: usize) -> bool {
    is_valid_ab_hit(s, HitEvent::AsteroidBullet { asteroid: a, bullet: b })
}

/// Asteroid `j` overlaps some live ship in `s`.
pub open spec fn ship_kills(s: Seq<Entity>, j: int) -> bool {
    &&& 0 <= j < s.len()
    &&& s[j].alive
    &&& s[j].is_asteroid
    &&& s[j].spatial is Some
    &&& exists|k: int|
        0 <= k < s.len() && #[trigger] s[k].alive && s[k].is_ship && s[k].spatial is Some
            && circles_intersect(s[k].spatial->Some_0, s[j].spatial->Some_0)
}

/// The event `h` comes strictly before position (`a`, `b`) in the bullet-major
/// scan order of the detector.
pub open spec fn scanned_before(h: HitEvent, a: usize, b: usize) -> bool {
    match h {
        HitEvent::AsteroidBullet { asteroid, bullet } => bullet < b || (bullet == b && asteroid
            < a),
        HitEvent::ShipAsteroid { .. } => false,
    }
}

/// Detect collisions: append exactly one hit event per intersecting
/// asteroid–bullet pair (all of them, nothing else, and no duplicates), and
/// despawn every asteroid that overlaps a live ship, at a single flush
/// point.
pub fn collision_system(w: &mut World, hits: &mut Vec<HitEvent>)
    requires
        old(w).wf(),
    ensures
        final(w).wf(),
        final(w).entities@.len() == old(w).entities@.len(),
        forall|j: int|
            0 <= j < old(w).entities@.len() ==> #[trigger] final(w).entities@[j] == (if ship_kills(
                old(w).entities@,
                j,
            ) {
                kill(old(w).entities@[j])
            } else {
                old(w).entities@[j]
            }),
        final(hits)@.len() >= old(hits)@.len(),
        final(hits)@.take(old(hits)@.len() as int) == old(hits)@,
        forall|k: int|
            old(hits)@.len() <= k < final(hits)@.len() ==> is_valid_ab_hit(
                old(w).entities@,
                #[trigger] final(hits)@[k],
            ),
        forall|a: usize, b: usize|
            ab_pair_hit(old(w).entities@, a, b) ==> final(hits)@.contains(
                HitEvent::AsteroidBullet { asteroid: a, bullet: b },
            ),
        forall|k1: int, k2: int|
            old(hits)@.len() <= k1 < k2 < final(hits)@.len() ==> #[trigger] final(hits)@[k1]
                != #[trigger] final(hits)@[k2],
{
    let n = w.entities.len();
    let ghost h0 = hits@;
    let mut b: usize = 0;
    while b < n
        invariant
            old(w).wf(),
            w.entities@ == old(w).entities@,
            n == w.entities@.len(),
            0 <= b <= n,
            hits@.len() >= h0.len(),
            hits@.take(h0.len() as int) == h0,
            forall|k: int|
                h0.len() <= k < hits@.len() ==> is_valid_ab_hit(
                    old(w).entities@,
                    #[trigger] hits@[k],
                ),
            forall|a2: usize, b2: usize|
                b2 < b && ab_pair_hit(old(w).entities@, a2, b2) ==> hits@.contains(
                    HitEvent::AsteroidBullet { asteroid: a2, bullet: b2 },
                ),
            forall|k: int|
                h0.len() <= k < hits@.len() ==> scanned_before(#[trigger] hits@[k], 0, b),
            forall|k1: int, k2: int|
                h0.len() <= k1 < k2 < hits@.len() ==> #[trigger] hits@[k1] != #[trigger] hits@[k2],
        decreases n - b,
    {
        let b_alive = w.entities[b].alive;
        let b_is_bullet = w.entities[b].is_bullet;
        let b_spatial = w.entities[b].spatial;
        if b_alive && b_is_bullet {
            if let Some(bs) = b_spatial {
                let mut a: usize = 0;
                while a < n
                    invariant
                        old(w).wf(),
                        w.entities@ == old(w).entities@,
                        n == w.entities@.len(),
                        0 <= a <= n,
                        b < n,
                        w.entities@[b as int].alive,
                        w.entities@[b as int].is_bullet,
                        w.entities@[b as int].spatial == Some(bs),
                        hits@.len() >= h0.len(),
                        hits@.take(h0.len() as int) == h0,
                        forall|k: int|
                            h0.len() <= k < hits@.len() ==> is_valid_ab_hit(
                                old(w).entities@,
                                #[trigger] hits@[k],
                            ),
                        forall|a2: usize, b2: usize|
                            b2 < b && ab_pair_hit(old(w).entities@, a2, b2) ==> hits@.contains(
                                HitEvent::AsteroidBullet { asteroid: a2, bullet: b2 },
                            ),
                        forall|a2: usize|
                            a2 < a && ab_pair_hit(old(w).entities@, a2, b) ==> hits@.contains(
                                HitEvent::AsteroidBullet { asteroid: a2, bullet: b },
                            ),
                        forall|k: int|
                            h0.len() <= k < hits@.len() ==> scanned_before(
                                #[trigger] hits@[k],
                                a,
                                b,
                            ),
                        forall|k1: int, k2: int|
                            h0.len() <= k1 < k2 < hits@.len() ==> #[trigger] hits@[k1]
                                != #[trigger] hits@[k2],
                    decreases n - a,
                {
                    let a_alive = w.entities[a].alive;
                    let a_is_asteroid = w.entities[a].is_asteroid;
                    let a_spatial = w.entities[a].spatial;
                    if a_alive && a_is_asteroid {
                        if let Some(asp) = a_spatial {
                            proof {
                                assert(old(w).entities@[a as int].wf());
                                assert(old(w).entities@[b as int].wf());
                            }
                            if bs.intersects(&asp) {
                                let ghost pre = hits@;
                                hits.push(HitEvent::AsteroidBullet { asteroid: a, bullet: b });
                                proof {
                                    assert(hits@.take(h0.len() as int) =~= h0);
                                    assert forall|a2: usize, b2: usize|
                                        b2 < b && ab_pair_hit(old(w).entities@, a2, b2) implies hits@.contains(
                                        HitEvent::AsteroidBullet {
                                            asteroid: a2,
                                            bullet: b2,
                                        },
                                    ) by {
                                        let ev = HitEvent::AsteroidBullet {
                                            asteroid: a2,
                                            bullet: b2,
                                        };
                                        let k = choose|k: int|
                                            0 <= k < pre.len() && pre[k] == ev;
                                        assert(hits@[k] == ev);
                                    }
                                    assert forall|a2: usize|
                                        a2 < a + 1 && ab_pair_hit(old(w).entities@, a2, b) implies hits@.contains(
                                        HitEvent::AsteroidBullet { asteroid: a2, bullet: b },
                                    ) by {
                                        let ev = HitEvent::AsteroidBullet {
                                            asteroid: a2,
                                            bullet: b,
                                        };
                                        if a2 < a {
                                            let k = choose|k: int|
                                                0 <= k < pre.len() && pre[k] == ev;
                                            assert(hits@[k] == ev);
                                        } else {
                                            assert(hits@[hits@.len() - 1] == ev);
                                        }
                                    }
                                }
                            }
                        }
                    }
                    a = a + 1;
                }
            }
        }
        b = b + 1;
    }
    // Ship–asteroid contacts: queue despawn commands, apply at the flush.
    let mut cmds: Vec<usize> = Vec::new();
    let mut j: usize = 0;
    while j < n
        invariant
            old(w).wf(),
            w.entities@ == old(w).entities@,
            n == w.entities@.len(),
            0 <= j <= n,
            forall|x: usize|
                #[trigger] cmds@.contains(x) <==> x < j && ship_kills(old(w).entities@, x as int),
        decreases n - j,
    {
        let a_alive = w.entities[j].alive;
        let a_is_asteroid = w.entities[j].is_asteroid;
        let a_spatial = w.entities[j].spatial;
        let mut found = false;
        if a_alive && a_is_asteroid {
            if let Some(asp) = a_spatial {
                let mut k: usize = 0;
                while k < n
                    invariant
                        old(w).wf(),
                        w.entities@ == old(w).entities@,
                        n == w.entities@.len(),
                        0 <= k <= n,
                        j < n,
                        w.entities@[j as int].spatial == Some(asp),
                        found <==> exists|k2: int|
                            0 <= k2 < k && #[trigger] w.entities@[k2].alive
                                && w.entities@[k2].is_ship && w.entities@[k2].spatial is Some
                                && circles_intersect(w.entities@[k2].spatial->Some_0, asp),
                    decreases n - k,
                {
                    let s_alive = w.entities[k].alive;
                    let s_is_ship = w.entities[k].is_ship;
                    let s_spatial = w.entities[k].spatial;
                    if s_alive && s_is_ship {
                        if let Some(ss) = s_spatial {
                            proof {
                                assert(old(w).entities@[k as int].wf());
                                assert(old(w).entities@[j as int].wf());
                            }
                            if ss.intersects(&asp) {
                                found = true;
                            }
                        }
                    }
                    k = k + 1;
                }
            }
        }
        let ghost pre = cmds@;
        if found {
            cmds.push(j);
        }
        proof {
            assert forall|x: usize|
                (#[trigger] cmds@.contains(x) <==> x < j + 1 && ship_kills(
                    old(w).entities@,
                    x as int,
                )) by {
                if cmds@.contains(x) {
                    let k2 = choose|k2: int| 0 <= k2 < cmds@.len() && cmds@[k2] == x;
                    if k2 < pre.len() {
                        assert(pre[k2] == x);
                        assert(pre.contains(x));
                    }
                }
                if x < j + 1 && ship_kills(old(w).entities@, x as int) {
                    if x < j {
                        assert(pre.contains(x));
                        let k2 = choose|k2: int| 0 <= k2 < pre.len() && pre[k2] == x;
                        assert(cmds@[k2] == x);
                    } else {
                        assert(found);
                        assert(cmds@[cmds@.len() - 1] == x);
                    }
                }
            }
        }
        j = j + 1;
    }
    w.flush_despawns(&cmds);
}

} // verus!
