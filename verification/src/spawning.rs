//! Asteroid spawning: a low-frequency chance roll emits spawn-intent events
//! at random off-screen edge positions, and the generation pass materializes
//! every queued event into a full asteroid entity with an inward-biased
//! random velocity, random spin and a jagged random silhouette.

use vstd::prelude::*;
use rand::rngs::SmallRng;
use crate::components::{
    is_big_radius, is_medium_radius, is_small_radius, AsteroidSpawnEvent, Spatial, Viewport,
};
use crate::fixed::{ceil_sqrt, in_box, mag2, scale_mag, spec_scale, Vec2};
use crate::motion::lemma_clamp_mag;
use crate::trig::{cos_milli, sin_milli};
use crate::rng::rng_range;
use crate::trig::{cos_fx, sin_fx};
use crate::world::{Entity, World};
use crate::{
    BIG_ASTEROID_MAX, BIG_ASTEROID_MIN, MEDIUM_ASTEROID_MAX, MEDIUM_ASTEROID_MIN,
    SMALL_ASTEROID_MAX, SMALL_ASTEROID_MIN, TURN_FULL,
};

verus! {

/// A spawn-intent event as the spawner emits it: a well-formed placement in
/// one of the three size classes, resting just outside the viewport (two
/// radii beyond one edge), unrotated.
pub open spec fn spawn_event_ok(ev: AsteroidSpawnEvent, vp: Viewport) -> bool {
    let s = ev.spatial;
    &&& s.wf()
    &&& s.rot == 0
    &&& (is_small_radius(s.radius as int) || is_medium_radius(s.radius as int) || is_big_radius(
        s.radius as int,
    ))
    &&& ((-vp.half_w <= s.pos.x < vp.half_w && (s.pos.y == vp.half_h + 2 * s.radius || s.pos.y
        == -vp.half_h - 2 * s.radius)) || (-vp.half_h <= s.pos.y < vp.half_h && (s.pos.x
        == vp.half_w + 2 * s.radius || s.pos.x == -vp.half_w - 2 * s.radius)))
}

/// The spawn-intent event built from the drawn values: interior coordinates
/// `x` and `y`, a class radius, and the axis coin `side`. On the chosen axis
/// the position snaps to two radii beyond the nearer edge; the other axis
/// keeps its drawn coordinate.
pub open spec fn spec_spawn_event(vp: Viewport, x: i64, y: i64, radius: i64, side: i64) -> AsteroidSpawnEvent {
    let c = 2 * radius;
    let pos = if side == 0 {
        Vec2 { x, y: (if y > 0 { vp.half_h + c } else { -vp.half_h - c }) as i64 }
    } else {
        Vec2 { x: (if x > 0 { vp.half_w + c } else { -vp.half_w - c }) as i64, y }
    };
    AsteroidSpawnEvent { spatial: Spatial { pos, rot: 0, radius } }
}

/// Build the spawn-intent event from the drawn values, exactly as
/// `spec_spawn_event` says.
pub fn make_spawn_event(vp: Viewport, x: i64, y: i64, radius: i64, side: i64) -> (ev: AsteroidSpawnEvent)
    requires
        vp.wf(),
        -vp.half_w <= x < vp.half_w,
        -vp.half_h <= y < vp.half_h,
        is_small_radius(radius as int) || is_medium_radius(radius as int) || is_big_radius(
            radius as int,
        ),
    ensures
        ev == spec_spawn_event(vp, x, y, radius, side),
        spawn_event_ok(ev, vp),
{
    let c = 2 * radius;
    let pos = if side == 0 {
        Vec2 { x, y: if y > 0 { vp.half_h + c } else { -vp.half_h - c } }
    } else {
        Vec2 { x: if x > 0 { vp.half_w + c } else { -vp.half_w - c }, y }
    };
    AsteroidSpawnEvent { spatial: Spatial { pos, rot: 0, radius } }
}

/// Roll the one-in-three spawn chance; on success, append one spawn-intent
/// event with a random size class and a random position just outside one
/// viewport edge.
pub fn asteroid_spawn_system(
    vp: Viewport,
    rng: &mut SmallRng,
    out: &mut Vec<AsteroidSpawnEvent>,
)
    requires
        vp.wf(),
    ensures
        old(out)@.len() <= final(out)@.len() <= old(out)@.len() + 1,
        final(out)@.take(old(out)@.len() as int) == old(out)@,
        forall|k: int|
            old(out)@.len() <= k < final(out)@.len() ==> spawn_event_ok(
                #[trigger] final(out)@[k],
                vp,
            ),
{
    let roll = rng_range(rng, 0, 3);
    if roll == 0 {
        let x = rng_range(rng, -vp.half_w, vp.half_w);
        let y = rng_range(rng, -vp.half_h, vp.half_h);
        let cls = rng_range(rng, 1, 4);
        let radius = if cls == 3 {
            rng_range(rng, BIG_ASTEROID_MIN, BIG_ASTEROID_MAX)
        } else if cls == 2 {
            rng_range(rng, MEDIUM_ASTEROID_MIN, MEDIUM_ASTEROID_MAX)
        } else {
            rng_range(rng, SMALL_ASTEROID_MIN, SMALL_ASTEROID_MAX)
        };
        let side = rng_range(rng, 0, 2);
        let ev = make_spawn_event(vp, x, y, radius, side);
        let ghost pre = out@;
        out.push(ev);
        proof {
            assert(out@.take(pre.len() as int) =~= pre);
        }
    }
}

/// Lower bound of the speed range drawn for a new asteroid of the given
/// radius, in milli-pixels per second: smaller asteroids fly faster.
pub open spec fn speed_lo(radius: int) -> int {
    if is_big_radius(radius) {
        30_000
    } else if is_medium_radius(radius) {
        60_000
    } else {
        80_000
    }
}

/// Upper bound (exclusive) of the speed range drawn for a new asteroid of
/// the given radius.
pub open spec fn speed_hi(radius: int) -> int {
    if is_big_radius(radius) {
        60_000
    } else if is_medium_radius(radius) {
        80_000
    } else {
        100_000
    }
}

/// `v` is the velocity built from the interior target `(qx, qy)`, the speed
/// draw and the rounded-up distance `m`: the difference vector from `p` to
/// the target, normalized and scaled by a speed from the radius class's
/// range (zero when the target coincides with `p`).
pub open spec fn inward_witness(
    v: Vec2,
    p: Vec2,
    vp: Viewport,
    radius: int,
    qx: int,
    qy: int,
    speed: int,
    m: int,
) -> bool {
    let dx = qx - p.x;
    let dy = qy - p.y;
    &&& -vp.half_w <= qx < vp.half_w
    &&& -vp.half_h <= qy < vp.half_h
    &&& speed_lo(radius) <= speed < speed_hi(radius)
    &&& 0 <= m
    &&& m * m >= dx * dx + dy * dy
    &&& (m > 0 ==> (m - 1) * (m - 1) < dx * dx + dy * dy)
    &&& (m == 0 ==> v == (Vec2 { x: 0, y: 0 }))
    &&& (m > 0 ==> v.x == spec_scale(dx, speed, m) as i64 && v.y == spec_scale(dy, speed, m)
        as i64)
}

/// The velocity points from the spawn position `p` toward some interior
/// point of the viewport, normalized and scaled by a speed drawn from the
/// radius class's range.
pub open spec fn inward_velocity(v: Vec2, p: Vec2, vp: Viewport, radius: int) -> bool {
    exists|qx: int, qy: int, speed: int, m: int| #[trigger] inward_witness(
        v,
        p,
        vp,
        radius,
        qx,
        qy,
        speed,
        m,
    )
}

/// A freshly generated asteroid for the spawn event `ev`: alive, tagged as
/// an asteroid on the removal path, placed exactly at the event's placement,
/// with an inward-biased velocity from the radius class's speed range, a
/// bounded spin, and a silhouette of 6 to 11 vertices.
pub open spec fn is_generated_asteroid(e: Entity, ev: AsteroidSpawnEvent, vp: Viewport) -> bool {
    &&& e.alive
    &&& e.is_asteroid
    &&& !e.is_ship
    &&& !e.is_bullet
    &&& e.boundary_removal
    &&& !e.boundary_wrap
    &&& e.spatial == Some(ev.spatial)
    &&& e.velocity matches Some(v) && in_box(v, 100_000int) && inward_velocity(
        v,
        ev.spatial.pos,
        vp,
        ev.spatial.radius as int,
    ) && mag2(v) < speed_hi(ev.spatial.radius as int) * speed_hi(ev.spatial.radius as int)
    &&& e.angular_velocity matches Some(a) && -1719 <= a <= 1719
    &&& e.speed_limit is None
    &&& e.damping is None
    &&& e.thrust is None
    &&& e.steering is None
    &&& e.weapon is None
    &&& e.shape matches Some(sh) && 6 <= sh@.len() < 12
}

/// Materialize every queued spawn-intent event into an asteroid entity, in
/// event order: a size-dependent speed toward a random interior point
/// (smaller asteroids fly faster), a random spin, and a jagged silhouette.
pub fn asteroid_generation_system(
    w: &mut World,
    vp: Viewport,
    rng: &mut SmallRng,
    events: &Vec<AsteroidSpawnEvent>,
)
    requires
        old(w).wf(),
        vp.wf(),
        forall|k: int| 0 <= k < events@.len() ==> (#[trigger] events@[k].spatial).wf(),
    ensures
        final(w).wf(),
        final(w).entities@.len() == old(w).entities@.len() + events@.len(),
        forall|j: int|
            0 <= j < old(w).entities@.len() ==> #[trigger] final(w).entities@[j] == old(
                w,
            ).entities@[j],
        forall|k: int|
            0 <= k < events@.len() ==> is_generated_asteroid(
                #[trigger] final(w).entities@[old(w).entities@.len() + k],
                events@[k],
                vp,
            ),
{
    let n = w.entities.len();
    let m = events.len();
    let mut i: usize = 0;
    while i < m
        invariant
            old(w).wf(),
            vp.wf(),
            forall|k: int| 0 <= k < events@.len() ==> (#[trigger] events@[k].spatial).wf(),
            n == old(w).entities@.len(),
            m == events@.len(),
            0 <= i <= m,
            w.entities@.len() == n + i,
            forall|j: int| 0 <= j < n ==> #[trigger] w.entities@[j] == old(w).entities@[j],
            forall|j: int| 0 <= j < w.entities@.len() ==> #[trigger] w.entities@[j].wf(),
            forall|k: int|
                0 <= k < i ==> is_generated_asteroid(
                    #[trigger] w.entities@[n + k],
                    events@[k],
                    vp,
                ),
        decreases m - i,
    {
        let ev = events[i];
        let s = ev.spatial;
        proof {
            assert(events@[i as int].spatial.wf());
        }
        // Inward bias: aim at a random interior point.
        let tx = rng_range(rng, -vp.half_w, vp.half_w);
        let ty = rng_range(rng, -vp.half_h, vp.half_h);
        let dx = tx - s.pos.x;
        let dy = ty - s.pos.y;
        // Smaller asteroids draw from faster speed ranges.
        let speed = if BIG_ASTEROID_MIN <= s.radius && s.radius < BIG_ASTEROID_MAX {
            rng_range(rng, 30_000, 60_000)
        } else if MEDIUM_ASTEROID_MIN <= s.radius && s.radius < MEDIUM_ASTEROID_MAX {
            rng_range(rng, 60_000, 80_000)
        } else {
            rng_range(rng, 80_000, 100_000)
        };
        proof {
            assert(0 <= dx * dx + dy * dy <= 8_000_000_000_000_000_000 && 0 <= dx * dx && 0 <= dy
                * dy) by (nonlinear_arith)
                requires
                    -1_100_000_000 <= dx <= 1_100_000_000,
                    -1_100_000_000 <= dy <= 1_100_000_000,
            ;
        }
        let d2 = dx * dx + dy * dy;
        let md = ceil_sqrt(d2);
        let vel = if md == 0 {
            Vec2 { x: 0, y: 0 }
        } else {
            proof {
                assert(-md <= dx <= md && -md <= dy <= md) by (nonlinear_arith)
                    requires
                        dx * dx + dy * dy <= md * md,
                        0 <= dx * dx,
                        0 <= dy * dy,
                        md >= 0,
                ;
                crate::fixed::lemma_scale_within(dx as int, speed as int, md as int);
                crate::fixed::lemma_scale_within(dy as int, speed as int, md as int);
                assert(dx * speed <= i64::MAX && -(dx * speed) <= i64::MAX && dy * speed
                    <= i64::MAX && -(dy * speed) <= i64::MAX) by (nonlinear_arith)
                    requires
                        -1_100_000_000 <= dx <= 1_100_000_000,
                        -1_100_000_000 <= dy <= 1_100_000_000,
                        0 <= speed < 100_000,
                ;
            }
            Vec2 { x: scale_mag(dx, speed, md), y: scale_mag(dy, speed, md) }
        };
        proof {
            assert(speed_lo(s.radius as int) <= speed < speed_hi(s.radius as int));
            if md > 0 {
                let dxi = dx as int;
                let dyi = dy as int;
                let axi: int = if dxi >= 0 { dxi } else { -dxi };
                let ayi: int = if dyi >= 0 { dyi } else { -dyi };
                let qx: int = if vel.x >= 0 { vel.x as int } else { -(vel.x as int) };
                let qy: int = if vel.y >= 0 { vel.y as int } else { -(vel.y as int) };
                assert(axi * axi + ayi * ayi == dxi * dxi + dyi * dyi) by (nonlinear_arith)
                    requires
                        axi == (if dxi >= 0 { dxi } else { -dxi }),
                        ayi == (if dyi >= 0 { dyi } else { -dyi }),
                ;
                assert((md as int) * qx <= axi * (speed as int) && (md as int) * qy <= ayi * (
                speed as int)) by (nonlinear_arith)
                    requires
                        (dx >= 0 ==> (md as int) * (vel.x as int) <= dx * speed) && (dx < 0 ==> (
                        md as int) * (-(vel.x as int)) <= (-(dx as int)) * speed),
                        (dy >= 0 ==> (md as int) * (vel.y as int) <= dy * speed) && (dy < 0 ==> (
                        md as int) * (-(vel.y as int)) <= (-(dy as int)) * speed),
                        qx == (if vel.x >= 0 { vel.x as int } else { -(vel.x as int) }),
                        qy == (if vel.y >= 0 { vel.y as int } else { -(vel.y as int) }),
                        axi == (if dx >= 0 { dx as int } else { -(dx as int) }),
                        ayi == (if dy >= 0 { dy as int } else { -(dy as int) }),
                        (dx >= 0 ==> vel.x >= 0) && (dx < 0 ==> vel.x <= 0),
                        (dy >= 0 ==> vel.y >= 0) && (dy < 0 ==> vel.y <= 0),
                ;
                lemma_clamp_mag(axi, ayi, qx, qy, speed as int, md as int);
                assert(mag2(vel) == qx * qx + qy * qy) by (nonlinear_arith)
                    requires
                        qx == (if vel.x >= 0 { vel.x as int } else { -(vel.x as int) }),
                        qy == (if vel.y >= 0 { vel.y as int } else { -(vel.y as int) }),
                ;
                assert((speed as int) * (speed as int) < speed_hi(s.radius as int) * speed_hi(
                    s.radius as int,
                )) by (nonlinear_arith)
                    requires
                        0 <= speed < speed_hi(s.radius as int),
                ;
            } else {
                assert(mag2(vel) == 0);
                assert(0 < speed_hi(s.radius as int) * speed_hi(s.radius as int))
                    by (nonlinear_arith)
                    requires
                        0 < speed_hi(s.radius as int),
                ;
            }
            assert(inward_witness(
                vel,
                s.pos,
                vp,
                s.radius as int,
                tx as int,
                ty as int,
                speed as int,
                md as int,
            ));
            assert(inward_velocity(vel, s.pos, vp, s.radius as int));
        }
        let spin = rng_range(rng, -1719, 1720);
        let shape = random_silhouette(s.radius, rng);
        let asteroid = Entity {
            alive: true,
            spatial: Some(s),
            velocity: Some(vel),
            angular_velocity: Some(spin),
            speed_limit: None,
            damping: None,
            thrust: None,
            steering: None,
            weapon: None,
            shape: Some(shape),
            is_ship: false,
            is_bullet: false,
            is_asteroid: true,
            boundary_wrap: false,
            boundary_removal: true,
        };
        w.spawn(asteroid);
        proof {
            assert(is_generated_asteroid(w.entities@[n + i], events@[i as int], vp));
        }
        i = i + 1;
    }
}

/// The angle of silhouette vertex `i` on an `sides`-gon, in tenth-degrees:
/// evenly stepped, offset by half the internal angle so the shape sits
/// level.
pub open spec fn silhouette_angle(sides: int, i: int) -> int {
    ((i * 3600) / sides + 3600 - ((sides - 2) * 1800 / sides) / 2) % 3600
}

/// Silhouette vertex `i`: the radius scaled by the jitters `jx` and `jy`
/// (milli-units), projected along the vertex angle.
pub open spec fn silhouette_vertex(radius: int, sides: int, i: int, jx: int, jy: int) -> Vec2 {
    let a = silhouette_angle(sides, i);
    Vec2 {
        x: spec_scale(cos_milli(a), spec_scale(radius, jx, 1000), 1000) as i64,
        y: spec_scale(sin_milli(a), spec_scale(radius, jy, 1000), 1000) as i64,
    }
}

/// `v` is vertex `i` of an `sides`-gon of the given radius for some pair of
/// jitters in `[0.5, 1.2)` of the radius.
pub open spec fn jittered_vertex(radius: int, sides: int, i: int, v: Vec2) -> bool {
    exists|jx: int, jy: int|
        #![auto]
        500 <= jx < 1200 && 500 <= jy < 1200 && v == silhouette_vertex(radius, sides, i, jx, jy)
}

/// A jagged polygon silhouette: 6 to 11 vertices at evenly stepped angles,
/// each pushed in or out by independent random jitters of the radius.
pub fn random_silhouette(radius: i64, rng: &mut SmallRng) -> (points: Vec<Vec2>)
    requires
        0 <= radius <= 1_000_000,
    ensures
        6 <= points@.len() < 12,
        forall|i: int|
            0 <= i < points@.len() ==> jittered_vertex(
                radius as int,
                points@.len() as int,
                i,
                #[trigger] points@[i],
            ),
{
    let sides = rng_range(rng, 6, 12);
    let mut points: Vec<Vec2> = Vec::new();
    let mut i: i64 = 0;
    while i < sides
        invariant
            6 <= sides < 12,
            0 <= i <= sides,
            points@.len() == i,
            0 <= radius <= 1_000_000,
            forall|k: int|
                0 <= k < i ==> jittered_vertex(
                    radius as int,
                    sides as int,
                    k,
                    #[trigger] points@[k],
                ),
        decreases sides - i,
    {
        // Vertex angle in tenth-degrees, offset so the silhouette sits level.
        let base_raw: i64 = i * TURN_FULL;
        let base: i64 = base_raw / sides;
        proof {
            vstd::arithmetic::div_mod::lemma_fundamental_div_mod(base_raw as int, sides as int);
            vstd::arithmetic::div_mod::lemma_remainder_lower(base_raw as int, sides as int);
            vstd::arithmetic::div_mod::lemma_remainder_upper(base_raw as int, sides as int);
            assert(0 <= base <= 6600) by (nonlinear_arith)
                requires
                    base == (base_raw as int) / (sides as int),
                    (base_raw as int) == sides * ((base_raw as int) / (sides as int)) + (base_raw as int) % (sides as int),
                    0 <= (base_raw as int) % (sides as int) < sides,
                    0 <= base_raw <= 39_600,
                    6 <= sides < 12,
            ;
        }
        let spread: i64 = (sides - 2) * 1800;
        let o2: i64 = spread / sides;
        proof {
            vstd::arithmetic::div_mod::lemma_fundamental_div_mod(spread as int, sides as int);
            vstd::arithmetic::div_mod::lemma_remainder_lower(spread as int, sides as int);
            vstd::arithmetic::div_mod::lemma_remainder_upper(spread as int, sides as int);
            assert(0 <= o2 <= 3000) by (nonlinear_arith)
                requires
                    o2 == (spread as int) / (sides as int),
                    (spread as int) == sides * ((spread as int) / (sides as int)) + (spread as int) % (sides as int),
                    0 <= (spread as int) % (sides as int) < sides,
                    0 <= spread <= 18_000,
                    6 <= sides < 12,
            ;
        }
        let offset: i64 = o2 / 2;
        let a = (base + TURN_FULL - offset) % TURN_FULL;
        let jx = rng_range(rng, 500, 1200);
        let jy = rng_range(rng, 500, 1200);
        proof {
            assert(radius * jx <= i64::MAX && -(radius * jx) <= i64::MAX && radius * jy
                <= i64::MAX && -(radius * jy) <= i64::MAX) by (nonlinear_arith)
                requires
                    0 <= radius <= 1_000_000,
                    0 <= jx < 1200,
                    0 <= jy < 1200,
            ;
        }
        let rjx = scale_mag(radius, jx, 1000);
        let rjy = scale_mag(radius, jy, 1000);
        proof {
            assert(0 <= rjx <= 1_200_000 && 0 <= rjy <= 1_200_000) by (nonlinear_arith)
                requires
                    1000 * rjx <= radius * jx,
                    1000 * rjy <= radius * jy,
                    0 <= radius <= 1_000_000,
                    0 <= jx < 1200,
                    0 <= jy < 1200,
                    rjx >= 0,
                    rjy >= 0,
            ;
        }
        let c = cos_fx(a);
        let sn = sin_fx(a);
        proof {
            assert(c * rjx <= i64::MAX && -(c * rjx) <= i64::MAX && sn * rjy <= i64::MAX && -(sn
                * rjy) <= i64::MAX) by (nonlinear_arith)
                requires
                    -1000 <= c <= 1000,
                    -1000 <= sn <= 1000,
                    0 <= rjx <= 1_200_000,
                    0 <= rjy <= 1_200_000,
            ;
        }
        let px = scale_mag(c, rjx, 1000);
        let py = scale_mag(sn, rjy, 1000);
        points.push(Vec2 { x: px, y: py });
        proof {
            assert(a == silhouette_angle(sides as int, i as int));
            assert(points@[i as int] == silhouette_vertex(
                radius as int,
                sides as int,
                i as int,
                jx as int,
                jy as int,
            ));
            assert(jittered_vertex(radius as int, sides as int, i as int, points@[i as int]));
        }
        i = i + 1;
    }
    points
}

} // verus!
