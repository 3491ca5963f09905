//! Hit resolution and splitting: each asteroid–bullet hit event despawns
//! both participants and, depending on the asteroid's size class, queues
//! spawn-intent events for its fragments. Stale events referring to already
//! despawned entities resolve to despawns alone, never a fault.

use vstd::prelude::*;
use rand::rngs::SmallRng;
use crate::components::{
    is_big_radius, is_medium_radius, is_small_radius, AsteroidSpawnEvent, HitEvent, Spatial,
};
use crate::rng::rng_range;
use crate::world::{kill, Entity, World};
use crate::{
    MEDIUM_ASTEROID_MAX, MEDIUM_ASTEROID_MIN, SMALL_ASTEROID_MAX, SMALL_ASTEROID_MIN,
};

verus! {

/// Whether index `a` is a live asteroid with a placement in `s`.
pub open spec fn live_asteroid(s: Seq<Entity>, a: int) -> bool {
    0 <= a < s.len() && s[a].alive && s[a].is_asteroid && s[a].spatial is Some
}

/// How many spawn-intent events one hit event produces against state `s`:
/// three for a big asteroid, two for a medium one, none for a small one or
/// for a stale or non-asteroid handle.
pub open spec fn split_count(s: Seq<Entity>, h: HitEvent) -> int {
    match h {
        HitEvent::AsteroidBullet { asteroid, .. } => {
            if live_asteroid(s, asteroid as int) {
                let r = s[asteroid as int].spatial->Some_0.radius as int;
                if is_big_radius(r) {
                    3
                } else if is_medium_radius(r) {
                    2
                } else {
                    0
                }
            } else {
                0
            }
        },
        HitEvent::ShipAsteroid { .. } => 0,
    }
}

/// The registry after one hit event: asteroid and bullet despawned
/// unconditionally (stale handles change nothing); other events are left to
/// their own consumers.
pub open spec fn apply_hit(s: Seq<Entity>, h: HitEvent) -> Seq<Entity> {
    match h {
        HitEvent::AsteroidBullet { asteroid, bullet } => {
            let s1 = if asteroid < s.len() {
                s.update(asteroid as int, kill(s[asteroid as int]))
            } else {
                s
            };
            if bullet < s1.len() {
                s1.update(bullet as int, kill(s1[bullet as int]))
            } else {
                s1
            }
        },
        HitEvent::ShipAsteroid { .. } => s,
    }
}

/// The registry after a whole queue of hit events, processed in order.
pub open spec fn apply_hits(s: Seq<Entity>, hs: Seq<HitEvent>) -> Seq<Entity>
    decreases hs.len(),
{
    if hs.len() == 0 {
        s
    } else {
        apply_hit(apply_hits(s, hs.drop_last()), hs.last())
    }
}

/// Total spawn-intent events produced by a queue of hit events, counted
/// against the evolving registry: a duplicate hit on an asteroid despawned
/// by an earlier event in the queue contributes nothing.
pub open spec fn spawns_total(s: Seq<Entity>, hs: Seq<HitEvent>) -> int
    decreases hs.len(),
{
    if hs.len() == 0 {
        0
    } else {
        spawns_total(s, hs.drop_last()) + split_count(apply_hits(s, hs.drop_last()), hs.last())
    }
}

/// Processing a queue of hit events only clears alive flags: every entity
/// keeps its components, and an entity is despawned exactly when some event
/// names it. No entity is despawned twice in any observable way: killing is
/// idempotent.
pub proof fn lemma_apply_hits_pointwise(s: Seq<Entity>, hs: Seq<HitEvent>)
    ensures
        apply_hits(s, hs).len() == s.len(),
        forall|j: int|
            0 <= j < s.len() ==> #[trigger] apply_hits(s, hs)[j] == (if hit_names(hs, j) {
                kill(s[j])
            } else {
                s[j]
            }),
    decreases hs.len(),
{
    if hs.len() > 0 {
        lemma_apply_hits_pointwise(s, hs.drop_last());
        assert forall|j: int| 0 <= j < s.len() implies #[trigger] apply_hits(s, hs)[j] == (
        if hit_names(hs, j) {
            kill(s[j])
        } else {
            s[j]
        }) by {
            if hit_names(hs, j) {
                if !hit_names(hs.drop_last(), j) {
                    assert(event_names(hs.last(), j)) by {
                        let k = choose|k: int|
                            0 <= k < hs.len() && #[trigger] event_names(hs[k], j);
                        if k < hs.len() - 1 {
                            assert(hs.drop_last()[k] == hs[k]);
                        }
                    }
                }
            } else {
                assert(!hit_names(hs.drop_last(), j)) by {
                    if hit_names(hs.drop_last(), j) {
                        let k = choose|k: int|
                            0 <= k < hs.drop_last().len() && #[trigger] event_names(
                                hs.drop_last()[k],
                                j,
                            );
                        assert(event_names(hs[k], j));
                    }
                }
                assert(!event_names(hs.last(), j)) by {
                    if event_names(hs.last(), j) {
                        assert(event_names(hs[hs.len() - 1], j));
                    }
                }
            }
        }
    }
}

/// Whether one asteroid–bullet event names entity `j`.
pub open spec fn event_names(h: HitEvent, j: int) -> bool {
    match h {
        HitEvent::AsteroidBullet { asteroid, bullet } => asteroid == j || bullet == j,
        HitEvent::ShipAsteroid { .. } => false,
    }
}

/// Some asteroid–bullet event in `hs` names entity `j`.
pub open spec fn hit_names(hs: Seq<HitEvent>, j: int) -> bool {
    exists|k: int| 0 <= k < hs.len() && #[trigger] event_names(hs[k], j)
}

/// A queue of hit events produces a bounded number of follow-up spawns:
/// never more than three per event, duplicates included.
pub proof fn lemma_spawns_bounded(s: Seq<Entity>, hs: Seq<HitEvent>)
    ensures
        0 <= spawns_total(s, hs) <= 3 * hs.len(),
    decreases hs.len(),
{
    if hs.len() > 0 {
        lemma_spawns_bounded(s, hs.drop_last());
    }
}

/// A duplicated hit event is harmless: the second occurrence despawns
/// nothing further and produces no spawn events.
pub proof fn lemma_duplicate_hit_harmless(s: Seq<Entity>, h: HitEvent)
    ensures
        apply_hit(apply_hit(s, h), h) == apply_hit(s, h),
        split_count(apply_hit(s, h), h) == 0,
{
    if h matches HitEvent::AsteroidBullet { asteroid, bullet } {
        assert(apply_hit(apply_hit(s, h), h) =~= apply_hit(s, h));
    }
}

/// What one event contributes does not depend on the events before it,
/// beyond whether any of them already named its asteroid: the first hit on
/// an asteroid splits it exactly as the starting state says, and a hit on an
/// asteroid named earlier in the batch contributes nothing.
pub proof fn lemma_split_count_after(s: Seq<Entity>, pre: Seq<HitEvent>, h: HitEvent)
    ensures
        split_count(apply_hits(s, pre), h) == (match h {
            HitEvent::AsteroidBullet { asteroid, .. } => {
                if hit_names(pre, asteroid as int) {
                    0int
                } else {
                    split_count(s, h)
                }
            },
            HitEvent::ShipAsteroid { .. } => 0int,
        }),
{
    lemma_apply_hits_pointwise(s, pre);
}

/// In any batch, however ordered and with whatever duplicates, an asteroid
/// splits at most once: any event whose asteroid was already named by an
/// earlier event of the batch contributes no spawn events.
pub proof fn lemma_at_most_one_split(s: Seq<Entity>, hs: Seq<HitEvent>, i: int, j: int)
    requires
        0 <= i < j < hs.len(),
        hs[i] matches HitEvent::AsteroidBullet { .. },
        hs[j] matches HitEvent::AsteroidBullet { .. },
        hs[i]->AsteroidBullet_asteroid == hs[j]->AsteroidBullet_asteroid,
    ensures
        split_count(apply_hits(s, hs.take(j)), hs[j]) == 0,
{
    let a = hs[j]->AsteroidBullet_asteroid as int;
    assert(hs.take(j)[i] == hs[i]);
    assert(event_names(hs.take(j)[i], a));
    assert(hit_names(hs.take(j), a));
    lemma_split_count_after(s, hs.take(j), hs[j]);
}

/// A correct fragment of the hit `h` against registry state `s`: the named
/// asteroid is live, the fragment copies its position and rotation, and the
/// fragment's radius is drawn one size class down — medium for a big parent,
/// small for a medium one.
pub open spec fn frag_ok(s: Seq<Entity>, h: HitEvent, ev: AsteroidSpawnEvent) -> bool {
    match h {
        HitEvent::AsteroidBullet { asteroid, .. } => {
            &&& live_asteroid(s, asteroid as int)
            &&& {
                let parent = s[asteroid as int].spatial->Some_0;
                &&& ev.spatial.pos == parent.pos
                &&& ev.spatial.rot == parent.rot
                &&& ev.spatial.wf()
                &&& (is_big_radius(parent.radius as int) ==> is_medium_radius(
                    ev.spatial.radius as int,
                ))
                &&& (is_medium_radius(parent.radius as int) ==> is_small_radius(
                    ev.spatial.radius as int,
                ))
                &&& (is_big_radius(parent.radius as int) || is_medium_radius(
                    parent.radius as int,
                ))
            }
        },
        HitEvent::ShipAsteroid { .. } => false,
    }
}

/// The spawn event `ev` is a correct fragment of some event in the queue
/// `hs`, judged against the registry state at that event's turn.
pub open spec fn frag_witnessed(s0: Seq<Entity>, hs: Seq<HitEvent>, ev: AsteroidSpawnEvent) -> bool {
    exists|i: int| #![auto] 0 <= i < hs.len() && frag_ok(apply_hits(s0, hs.take(i)), hs[i], ev)
}

/// Resolve one asteroid–bullet hit: queue the size-class fragments (three
/// medium for a big asteroid, two small for a medium one, none otherwise),
/// then despawn both participants unconditionally.
pub fn resolve_hit(
    w: &mut World,
    asteroid: usize,
    bullet: usize,
    rng: &mut SmallRng,
    out: &mut Vec<AsteroidSpawnEvent>,
)
    requires
        old(w).wf(),
    ensures
        final(w).wf(),
        final(w).entities@ == apply_hit(
            old(w).entities@,
            HitEvent::AsteroidBullet { asteroid, bullet },
        ),
        final(out)@.len() == old(out)@.len() + split_count(
            old(w).entities@,
            HitEvent::AsteroidBullet { asteroid, bullet },
        ),
        final(out)@.take(old(out)@.len() as int) == old(out)@,
        forall|k: int|
            old(out)@.len() <= k < final(out)@.len() ==> frag_ok(
                old(w).entities@,
                HitEvent::AsteroidBullet { asteroid, bullet },
                #[trigger] final(out)@[k],
            ),
{
    let ghost pre = out@;
    let n = w.entities.len();
    if asteroid < n {
        let a_alive = w.entities[asteroid].alive;
        let a_is_asteroid = w.entities[asteroid].is_asteroid;
        let a_spatial = w.entities[asteroid].spatial;
        if a_alive && a_is_asteroid {
            if let Some(s) = a_spatial {
                proof {
                    assert(old(w).entities@[asteroid as int].wf());
                }
                if s.radius >= 50_000 && s.radius < 60_000 {
                    let r2 = rng_range(rng, MEDIUM_ASTEROID_MIN, MEDIUM_ASTEROID_MAX);
                    let frag = Spatial { pos: s.pos, rot: s.rot, radius: r2 };
                    out.push(AsteroidSpawnEvent { spatial: frag });
                    out.push(AsteroidSpawnEvent { spatial: frag });
                    out.push(AsteroidSpawnEvent { spatial: frag });
                } else if s.radius >= 30_000 && s.radius < 40_000 {
                    let r2 = rng_range(rng, SMALL_ASTEROID_MIN, SMALL_ASTEROID_MAX);
                    let frag = Spatial { pos: s.pos, rot: s.rot, radius: r2 };
                    out.push(AsteroidSpawnEvent { spatial: frag });
                    out.push(AsteroidSpawnEvent { spatial: frag });
                }
            }
        }
    }
    w.despawn(asteroid);
    w.despawn(bullet);
    proof {
        assert(out@.take(pre.len() as int) =~= pre);
        assert(w.entities@ =~= apply_hit(
            old(w).entities@,
            HitEvent::AsteroidBullet { asteroid, bullet },
        ));
    }
}

/// Drain a queue of hit events: despawn every named asteroid and bullet
/// (each at most once; stale or duplicate references are skipped), and queue
/// the fragments of each split. Ship–asteroid events belong to the
/// collision stage and are ignored here.
pub fn asteroid_hit_system(
    w: &mut World,
    hits: &Vec<HitEvent>,
    rng: &mut SmallRng,
    out: &mut Vec<AsteroidSpawnEvent>,
)
    requires
        old(w).wf(),
    ensures
        final(w).wf(),
        final(w).entities@ == apply_hits(old(w).entities@, hits@),
        final(out)@.len() == old(out)@.len() + spawns_total(old(w).entities@, hits@),
        final(out)@.take(old(out)@.len() as int) == old(out)@,
        forall|k: int|
            old(out)@.len() <= k < final(out)@.len() ==> #[trigger] frag_witnessed(
                old(w).entities@,
                hits@,
                final(out)@[k],
            ),
{
    let ghost s0 = w.entities@;
    let ghost o0 = out@;
    let n = hits.len();
    let mut i: usize = 0;
    proof {
        assert(hits@.take(0int) =~= Seq::<HitEvent>::empty());
    }
    while i < n
        invariant
            n == hits@.len(),
            0 <= i <= n,
            s0 == old(w).entities@,
            o0 == old(out)@,
            w.wf(),
            w.entities@ == apply_hits(s0, hits@.take(i as int)),
            out@.len() == o0.len() + spawns_total(s0, hits@.take(i as int)),
            out@.take(o0.len() as int) == o0,
            forall|k: int|
                o0.len() <= k < out@.len() ==> #[trigger] frag_witnessed(s0, hits@, out@[k]),
        decreases n - i,
    {
        let h = hits[i];
        let ghost pre_w = w.entities@;
        let ghost pre_o = out@;
        match h {
            HitEvent::AsteroidBullet { asteroid, bullet } => {
                resolve_hit(w, asteroid, bullet, rng, out);
            },
            HitEvent::ShipAsteroid { .. } => {},
        }
        proof {
            let t1 = hits@.take(i + 1);
            assert(t1.drop_last() =~= hits@.take(i as int));
            assert(t1.last() == hits@[i as int]);
            if h matches HitEvent::AsteroidBullet { asteroid, bullet } {
                assert(w.entities@ == apply_hit(pre_w, h));
            } else {
                assert(w.entities@ == pre_w);
                assert(apply_hit(pre_w, h) == pre_w);
            }
            assert(w.entities@ == apply_hits(s0, t1));
            assert(out@.len() == o0.len() + spawns_total(s0, t1));
            assert forall|k: int|
                o0.len() <= k < out@.len() implies #[trigger] frag_witnessed(
                s0,
                hits@,
                out@[k],
            ) by {
                if k < pre_o.len() {
                    assert(out@.take(pre_o.len() as int)[k] == out@[k]);
                    assert(pre_o[k] == out@[k]);
                } else {
                    assert(apply_hits(s0, hits@.take(i as int)) == pre_w);
                    assert(frag_ok(apply_hits(s0, hits@.take(i as int)), hits@[i as int], out@[k]));
                }
            }
            lemma_spawns_bounded(s0, hits@.take(i as int));
            assert forall|k: int| 0 <= k < o0.len() implies out@[k] == o0[k] by {
                assert(out@.take(pre_o.len() as int)[k] == out@[k]);
                assert(pre_o.take(o0.len() as int)[k] == pre_o[k]);
            }
            assert(out@.take(o0.len() as int) =~= o0);
        }
        i = i + 1;
    }
    proof {
        assert(hits@.take(n as int) =~= hits@);
    }
}

} // verus!
