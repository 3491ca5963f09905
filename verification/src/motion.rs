//! The motion model: damping, speed limiting, thrust and integration, run
//! once per fixed physics sub-step. Damping and the speed limit are applied
//! before integration within a sub-step.

use vstd::prelude::*;
use crate::components::Spatial;
use crate::fixed::{
    add_clamped, ceil_sqrt, in_box, mag2, scale_mag, spec_clamp, spec_scale, Vec2,
};
use crate::trig::{dir_of, spec_dir};
use crate::world::{Entity, World};
use crate::{COORD_MAX, ROT_BOUND, SUBSTEP_HZ, VEL_MAX};

verus! {

/// `v` with both components scaled by the damping factor `f` milli-units.
pub open spec fn spec_damp_vec(v: Vec2, f: int) -> Vec2 {
    Vec2 {
        x: spec_scale(v.x as int, f, 1000) as i64,
        y: spec_scale(v.y as int, f, 1000) as i64,
    }
}

/// Scaling by a ratio of at most one never grows a coordinate's absolute
/// value.
pub proof fn lemma_scale_shrinks(v: int, num: int, den: int)
    requires
        0 <= num <= den,
        0 < den,
    ensures
        v >= 0 ==> 0 <= spec_scale(v, num, den) <= v,
        v < 0 ==> v <= spec_scale(v, num, den) <= 0,
{
    if v >= 0 {
        let p = v * num;
        vstd::arithmetic::div_mod::lemma_fundamental_div_mod(p, den);
        vstd::arithmetic::div_mod::lemma_remainder_lower(p, den);
        vstd::arithmetic::div_mod::lemma_remainder_upper(p, den);
        assert(0 <= p / den <= v) by (nonlinear_arith)
            requires
                p == v * num,
                0 <= num <= den,
                0 < den,
                v >= 0,
                p == den * (p / den) + p % den,
                0 <= p % den < den,
        ;
    } else {
        let p = (-v) * num;
        vstd::arithmetic::div_mod::lemma_fundamental_div_mod(p, den);
        vstd::arithmetic::div_mod::lemma_remainder_lower(p, den);
        vstd::arithmetic::div_mod::lemma_remainder_upper(p, den);
        assert(0 <= p / den <= -v) by (nonlinear_arith)
            requires
                p == (-v) * num,
                0 <= num <= den,
                0 < den,
                -v >= 0,
                p == den * (p / den) + p % den,
                0 <= p % den < den,
        ;
    }
}

/// One damping application never increases the squared magnitude.
pub proof fn lemma_damp_step(v: Vec2, f: int)
    requires
        0 < f <= 1000,
    ensures
        mag2(spec_damp_vec(v, f)) <= mag2(v),
        in_box(spec_damp_vec(v, f), VEL_MAX as int) || !in_box(v, VEL_MAX as int),
{
    lemma_scale_shrinks(v.x as int, f, 1000);
    lemma_scale_shrinks(v.y as int, f, 1000);
    let dx = spec_scale(v.x as int, f, 1000);
    let dy = spec_scale(v.y as int, f, 1000);
    assert(dx * dx <= v.x * v.x && dy * dy <= v.y * v.y) by (nonlinear_arith)
        requires
            (v.x >= 0 ==> 0 <= dx <= v.x) && (v.x < 0 ==> v.x <= dx <= 0),
            (v.y >= 0 ==> 0 <= dy <= v.y) && (v.y < 0 ==> v.y <= dy <= 0),
    ;
}

/// The velocity after `n` damping sub-steps.
pub open spec fn damp_n(v: Vec2, f: int, n: nat) -> Vec2
    decreases n,
{
    if n == 0 {
        v
    } else {
        spec_damp_vec(damp_n(v, f, (n - 1) as nat), f)
    }
}

/// With a damping factor strictly below one and no thrust, the velocity
/// magnitude is non-increasing across any number of sub-steps.
pub proof fn lemma_damping_non_increasing(v: Vec2, f: int, n: nat)
    requires
        0 < f < 1000,
    ensures
        mag2(damp_n(v, f, n)) <= mag2(v),
    decreases n,
{
    if n > 0 {
        lemma_damping_non_increasing(v, f, (n - 1) as nat);
        lemma_damp_step(damp_n(v, f, (n - 1) as nat), f);
    }
}

/// Damp a velocity by `f` milli-units per sub-step.
pub fn damp_vec(v: Vec2, f: i64) -> (r: Vec2)
    requires
        in_box(v, VEL_MAX as int),
        0 < f <= 1000,
    ensures
        r == spec_damp_vec(v, f as int),
        in_box(r, VEL_MAX as int),
        mag2(r) <= mag2(v),
{
    proof {
        assert(v.x * f <= i64::MAX && -(v.x * f) <= i64::MAX && v.y * f <= i64::MAX && -(v.y * f)
            <= i64::MAX) by (nonlinear_arith)
            requires
                -1_000_000_000 <= v.x <= 1_000_000_000,
                -1_000_000_000 <= v.y <= 1_000_000_000,
                0 < f <= 1000,
        ;
    }
    let x = scale_mag(v.x, f, 1000);
    let y = scale_mag(v.y, f, 1000);
    proof {
        lemma_damp_step(v, f as int);
    }
    Vec2 { x, y }
}

/// The velocity clamped to magnitude at most `limit`: unchanged when already
/// within the limit, otherwise both components are scaled by the same ratio
/// `limit / m`, where `m` is the magnitude rounded up.
pub open spec fn is_clamped_speed(v: Vec2, limit: int, r: Vec2) -> bool {
    if mag2(v) <= limit * limit {
        r == v
    } else {
        exists|m: int|
            #![auto]
            m > 0 && m * m >= mag2(v) && (m - 1) * (m - 1) < mag2(v) && r.x == spec_scale(
                v.x as int,
                limit,
                m,
            ) as i64 && r.y == spec_scale(v.y as int, limit, m) as i64
    }
}

/// Components scaled by a common ratio `l / m` stay within magnitude `l`
/// when the original magnitude is within `m`.
pub proof fn lemma_clamp_mag(vx: int, vy: int, qx: int, qy: int, l: int, m: int)
    by (nonlinear_arith)
    requires
        m >= 1,
        0 <= vx,
        0 <= vy,
        0 <= qx,
        0 <= qy,
        vx * vx + vy * vy <= m * m,
        m * qx <= vx * l,
        m * qy <= vy * l,
        0 <= l,
    ensures
        qx * qx + qy * qy <= l * l,
        qx <= l,
        qy <= l,
{
}

/// Clamp a velocity's magnitude to `limit`, preserving its direction: the
/// result is the input scaled componentwise by one common non-negative ratio,
/// so each component keeps its sign.
pub fn clamp_speed(v: Vec2, limit: i64) -> (r: Vec2)
    requires
        in_box(v, VEL_MAX as int),
        0 <= limit <= VEL_MAX,
    ensures
        is_clamped_speed(v, limit as int, r),
        mag2(r) <= limit * limit || mag2(v) <= limit * limit,
        in_box(r, VEL_MAX as int),
        v.x >= 0 ==> r.x >= 0,
        v.x <= 0 ==> r.x <= 0,
        v.y >= 0 ==> r.y >= 0,
        v.y <= 0 ==> r.y <= 0,
{
    proof {
        assert(0 <= v.x * v.x + v.y * v.y <= 2_000_000_000_000_000_000 && v.x * v.x
            <= 1_000_000_000_000_000_000 && v.y * v.y <= 1_000_000_000_000_000_000)
            by (nonlinear_arith)
            requires
                -1_000_000_000 <= v.x <= 1_000_000_000,
                -1_000_000_000 <= v.y <= 1_000_000_000,
        ;
        assert(0 <= limit * limit <= 1_000_000_000_000_000_000) by (nonlinear_arith)
            requires
                0 <= limit <= 1_000_000_000,
        ;
    }
    let m2: i64 = v.x * v.x + v.y * v.y;
    let ll: i64 = limit * limit;
    if m2 <= ll {
        v
    } else {
        let m = ceil_sqrt(m2);
        let ax = if v.x >= 0 { v.x } else { -v.x };
        let ay = if v.y >= 0 { v.y } else { -v.y };
        proof {
            assert(v.x * limit <= i64::MAX && -(v.x * limit) <= i64::MAX && v.y * limit
                <= i64::MAX && -(v.y * limit) <= i64::MAX) by (nonlinear_arith)
                requires
                    -1_000_000_000 <= v.x <= 1_000_000_000,
                    -1_000_000_000 <= v.y <= 1_000_000_000,
                    0 <= limit <= 1_000_000_000,
            ;
        }
        let x = scale_mag(v.x, limit, m);
        let y = scale_mag(v.y, limit, m);
        proof {
            let axi = ax as int;
            let ayi = ay as int;
            let qx: int = if x >= 0 { x as int } else { -(x as int) };
            let qy: int = if y >= 0 { y as int } else { -(y as int) };
            assert(axi * axi + ayi * ayi == mag2(v)) by (nonlinear_arith)
                requires
                    axi == (if v.x >= 0 { v.x as int } else { -(v.x as int) }),
                    ayi == (if v.y >= 0 { v.y as int } else { -(v.y as int) }),
            ;
            assert(m * qx <= axi * (limit as int) && m * qy <= ayi * (limit as int))
                by (nonlinear_arith)
                requires
                    (v.x >= 0 ==> (m as int) * (x as int) <= v.x * limit) && (v.x < 0 ==> (
                    m as int) * (-(x as int)) <= (-(v.x as int)) * limit),
                    (v.y >= 0 ==> (m as int) * (y as int) <= v.y * limit) && (v.y < 0 ==> (
                    m as int) * (-(y as int)) <= (-(v.y as int)) * limit),
                    qx == (if x >= 0 { x as int } else { -(x as int) }),
                    qy == (if y >= 0 { y as int } else { -(y as int) }),
                    axi == (if v.x >= 0 { v.x as int } else { -(v.x as int) }),
                    ayi == (if v.y >= 0 { v.y as int } else { -(v.y as int) }),
                    (v.x >= 0 ==> x >= 0) && (v.x < 0 ==> x <= 0),
                    (v.y >= 0 ==> y >= 0) && (v.y < 0 ==> y <= 0),
            ;
            lemma_clamp_mag(axi, ayi, qx, qy, limit as int, m as int);
            assert(mag2(Vec2 { x, y }) == qx * qx + qy * qy) by (nonlinear_arith)
                requires
                    qx == (if x >= 0 { x as int } else { -(x as int) }),
                    qy == (if y >= 0 { y as int } else { -(y as int) }),
            ;
            assert(is_clamped_speed(v, limit as int, Vec2 { x, y })) by {
                assert(m > 0 && (m as int) * (m as int) >= mag2(v) && ((m as int) - 1) * ((
                m as int) - 1) < mag2(v) && x == spec_scale(v.x as int, limit as int, m as int)
                    as i64 && y == spec_scale(v.y as int, limit as int, m as int) as i64);
            }
        }
        Vec2 { x, y }
    }
}

/// The rotation after `n` integration sub-steps at constant angular velocity
/// `omega`; each sub-step is the rotation update of `spec_move_entity`.
pub open spec fn rot_n(rot: int, omega: int, n: nat) -> int
    decreases n,
{
    if n == 0 {
        rot
    } else {
        spec_clamp(
            rot_n(rot, omega, (n - 1) as nat) + spec_scale(omega, 1, SUBSTEP_HZ as int),
            ROT_BOUND as int,
        )
    }
}

/// Holding a constant turn rate for `n` sub-steps rotates by exactly `n`
/// times the per-sub-step angle, as long as the accumulated rotation stays
/// within the tracked range (the clamp never engages).
pub proof fn lemma_steady_turn(rot: int, omega: int, n: nat)
    requires
        -ROT_BOUND <= rot <= ROT_BOUND,
        -ROT_BOUND <= rot + n * spec_scale(omega, 1, SUBSTEP_HZ as int) <= ROT_BOUND,
    ensures
        rot_n(rot, omega, n) == rot + n * spec_scale(omega, 1, SUBSTEP_HZ as int),
    decreases n,
{
    let d = spec_scale(omega, 1, SUBSTEP_HZ as int);
    if n == 0 {
        assert(n * d == 0) by (nonlinear_arith)
            requires
                n == 0,
        ;
    }
    if n > 0 {
        assert((if d >= 0 {
            0 <= (n - 1) * d <= n * d
        } else {
            n * d <= (n - 1) * d <= 0
        })) by (nonlinear_arith)
            requires
                n >= 1,
        ;
        assert((n - 1) * d + d == n * d) by (nonlinear_arith);
        lemma_steady_turn(rot, omega, (n - 1) as nat);
        assert(rot_n(rot, omega, (n - 1) as nat) + d == rot + n * d);
    }
}

/// The effect of one damping sub-step on an entity.
pub open spec fn spec_damp_entity(e: Entity) -> Entity {
    if e.alive && e.velocity is Some && e.damping is Some {
        Entity { velocity: Some(spec_damp_vec(e.velocity->Some_0, e.damping->Some_0 as int)), ..e }
    } else {
        e
    }
}

/// Apply damping to every living entity that has both a velocity and a
/// damping factor.
pub fn damping_system(w: &mut World)
    requires
        old(w).wf(),
    ensures
        final(w).wf(),
        final(w).entities@.len() == old(w).entities@.len(),
        forall|i: int|
            0 <= i < old(w).entities@.len() ==> #[trigger] final(w).entities@[i]
                == spec_damp_entity(old(w).entities@[i]),
{
    let n = w.entities.len();
    let mut i: usize = 0;
    while i < n
        invariant
            old(w).wf(),
            n == old(w).entities@.len(),
            0 <= i <= n,
            w.entities@.len() == n,
            forall|j: int|
                0 <= j < i ==> #[trigger] w.entities@[j] == spec_damp_entity(old(w).entities@[j]),
            forall|j: int| 0 <= j < i ==> #[trigger] w.entities@[j].wf(),
            forall|j: int| i <= j < n ==> #[trigger] w.entities@[j] == old(w).entities@[j],
        decreases n - i,
    {
        let alive = w.entities[i].alive;
        let vel_opt = w.entities[i].velocity;
        let damp_opt = w.entities[i].damping;
        if alive {
            if let Some(v) = vel_opt {
                if let Some(f) = damp_opt {
                    proof {
                        assert(old(w).entities@[i as int].wf());
                    }
                    let nv = damp_vec(v, f);
                    w.entities[i].velocity = Some(nv);
                }
            }
        }
        proof {
            assert(w.entities@[i as int] == spec_damp_entity(old(w).entities@[i as int]));
            assert(w.entities@[i as int].wf());
        }
        i = i + 1;
    }
}

/// The effect of the speed limit on an entity: any result the clamp allows.
pub open spec fn spec_limit_entity(e: Entity, r: Entity) -> bool {
    if e.alive && e.velocity is Some && e.speed_limit is Some {
        exists|nv: Vec2|
            #![auto]
            is_clamped_speed(e.velocity->Some_0, e.speed_limit->Some_0 as int, nv) && r == (Entity {
                velocity: Some(nv),
                ..e
            })
    } else {
        r == e
    }
}

/// Clamp every limited entity's velocity magnitude to its speed limit,
/// preserving direction; the squared magnitude ends at most the limit
/// squared.
pub fn speed_limit_system(w: &mut World)
    requires
        old(w).wf(),
    ensures
        final(w).wf(),
        final(w).entities@.len() == old(w).entities@.len(),
        forall|i: int|
            0 <= i < old(w).entities@.len() ==> spec_limit_entity(
                old(w).entities@[i],
                #[trigger] final(w).entities@[i],
            ),
        forall|i: int|
            0 <= i < old(w).entities@.len() && old(w).entities@[i].alive && old(
                w,
            ).entities@[i].velocity is Some && old(w).entities@[i].speed_limit is Some
                ==> mag2(#[trigger] final(w).entities@[i].velocity->Some_0) <= old(
                w,
            ).entities@[i].speed_limit->Some_0 * old(w).entities@[i].speed_limit->Some_0,
{
    let n = w.entities.len();
    let mut i: usize = 0;
    while i < n
        invariant
            old(w).wf(),
            n == old(w).entities@.len(),
            0 <= i <= n,
            w.entities@.len() == n,
            forall|j: int|
                0 <= j < i ==> spec_limit_entity(
                    old(w).entities@[j],
                    #[trigger] w.entities@[j],
                ),
            forall|j: int|
                0 <= j < i && old(w).entities@[j].alive && old(w).entities@[j].velocity is Some
                    && old(w).entities@[j].speed_limit is Some ==> mag2(
                    #[trigger] w.entities@[j].velocity->Some_0,
                ) <= old(w).entities@[j].speed_limit->Some_0 * old(
                    w,
                ).entities@[j].speed_limit->Some_0,
            forall|j: int| 0 <= j < i ==> #[trigger] w.entities@[j].wf(),
            forall|j: int| i <= j < n ==> #[trigger] w.entities@[j] == old(w).entities@[j],
        decreases n - i,
    {
        let alive = w.entities[i].alive;
        let vel_opt = w.entities[i].velocity;
        let lim_opt = w.entities[i].speed_limit;
        if alive {
            if let Some(v) = vel_opt {
                if let Some(l) = lim_opt {
                    proof {
                        assert(old(w).entities@[i as int].wf());
                    }
                    let nv = clamp_speed(v, l);
                    w.entities[i].velocity = Some(nv);
                    proof {
                        assert(spec_limit_entity(
                            old(w).entities@[i as int],
                            w.entities@[i as int],
                        ));
                    }
                }
            }
        }
        proof {
            assert(spec_limit_entity(old(w).entities@[i as int], w.entities@[i as int]));
            assert(w.entities@[i as int].wf());
        }
        i = i + 1;
    }
}

/// The effect of one thrust application on an entity.
pub open spec fn spec_thrust_entity(e: Entity) -> Entity {
    if e.alive && e.velocity is Some && e.thrust is Some && e.thrust->Some_0.on
        && e.spatial is Some {
        let d = spec_dir(e.spatial->Some_0.rot as int);
        let t = e.thrust->Some_0;
        let v = e.velocity->Some_0;
        Entity {
            velocity: Some(
                Vec2 {
                    x: spec_clamp(
                        v.x + spec_scale(d.x as int, t.force as int, 1000),
                        VEL_MAX as int,
                    ) as i64,
                    y: spec_clamp(
                        v.y + spec_scale(d.y as int, t.force as int, 1000),
                        VEL_MAX as int,
                    ) as i64,
                },
            ),
            ..e
        }
    } else {
        e
    }
}

/// While an engine is on, add its force along the facing direction to the
/// velocity, once per sub-step.
pub fn thrust_system(w: &mut World)
    requires
        old(w).wf(),
    ensures
        final(w).wf(),
        final(w).entities@.len() == old(w).entities@.len(),
        forall|i: int|
            0 <= i < old(w).entities@.len() ==> #[trigger] final(w).entities@[i]
                == spec_thrust_entity(old(w).entities@[i]),
{
    let n = w.entities.len();
    let mut i: usize = 0;
    while i < n
        invariant
            old(w).wf(),
            n == old(w).entities@.len(),
            0 <= i <= n,
            w.entities@.len() == n,
            forall|j: int|
                0 <= j < i ==> #[trigger] w.entities@[j] == spec_thrust_entity(
                    old(w).entities@[j],
                ),
            forall|j: int| 0 <= j < i ==> #[trigger] w.entities@[j].wf(),
            forall|j: int| i <= j < n ==> #[trigger] w.entities@[j] == old(w).entities@[j],
        decreases n - i,
    {
        let alive = w.entities[i].alive;
        let vel_opt = w.entities[i].velocity;
        let thrust_opt = w.entities[i].thrust;
        let spatial_opt = w.entities[i].spatial;
        if alive {
            if let Some(v) = vel_opt {
                if let Some(t) = thrust_opt {
                    if let Some(s) = spatial_opt {
                        if t.on {
                            proof {
                                assert(old(w).entities@[i as int].wf());
                            }
                            let d = dir_of(s.rot);
                            proof {
                                assert(d.x * t.force <= i64::MAX && -(d.x * t.force) <= i64::MAX
                                    && d.y * t.force <= i64::MAX && -(d.y * t.force) <= i64::MAX)
                                    by (nonlinear_arith)
                                    requires
                                        -1000 <= d.x <= 1000,
                                        -1000 <= d.y <= 1000,
                                        0 <= t.force <= 1_000_000,
                                ;
                            }
                            let dvx = scale_mag(d.x, t.force, 1000);
                            let dvy = scale_mag(d.y, t.force, 1000);
                            proof {
                                crate::fixed::lemma_scale_within(
                                    d.x as int,
                                    t.force as int,
                                    1000,
                                );
                                crate::fixed::lemma_scale_within(
                                    d.y as int,
                                    t.force as int,
                                    1000,
                                );
                            }
                            let nx = add_clamped(v.x, dvx, VEL_MAX);
                            let ny = add_clamped(v.y, dvy, VEL_MAX);
                            w.entities[i].velocity = Some(Vec2 { x: nx, y: ny });
                        }
                    }
                }
            }
        }
        proof {
            assert(w.entities@[i as int] == spec_thrust_entity(old(w).entities@[i as int]));
            assert(w.entities@[i as int].wf());
        }
        i = i + 1;
    }
}

/// The effect of one integration sub-step on an entity: position advances by
/// velocity over the sub-step, rotation by angular velocity over the
/// sub-step.
pub open spec fn spec_move_entity(e: Entity) -> Entity {
    if e.alive && e.spatial is Some {
        let s = e.spatial->Some_0;
        let pos = if e.velocity is Some {
            let v = e.velocity->Some_0;
            Vec2 {
                x: spec_clamp(s.pos.x + spec_scale(v.x as int, 1, SUBSTEP_HZ as int), COORD_MAX as int) as i64,
                y: spec_clamp(s.pos.y + spec_scale(v.y as int, 1, SUBSTEP_HZ as int), COORD_MAX as int) as i64,
            }
        } else {
            s.pos
        };
        let rot = if e.angular_velocity is Some {
            spec_clamp(
                s.rot + spec_scale(e.angular_velocity->Some_0 as int, 1, SUBSTEP_HZ as int),
                ROT_BOUND as int,
            ) as i64
        } else {
            s.rot
        };
        Entity { spatial: Some(Spatial { pos, rot, radius: s.radius }), ..e }
    } else {
        e
    }
}

/// Integrate motion for one sub-step: position by velocity, rotation by
/// angular velocity.
pub fn movement_system(w: &mut World)
    requires
        old(w).wf(),
    ensures
        final(w).wf(),
        final(w).entities@.len() == old(w).entities@.len(),
        forall|i: int|
            0 <= i < old(w).entities@.len() ==> #[trigger] final(w).entities@[i]
                == spec_move_entity(old(w).entities@[i]),
{
    let n = w.entities.len();
    let mut i: usize = 0;
    while i < n
        invariant
            old(w).wf(),
            n == old(w).entities@.len(),
            0 <= i <= n,
            w.entities@.len() == n,
            forall|j: int|
                0 <= j < i ==> #[trigger] w.entities@[j] == spec_move_entity(old(w).entities@[j]),
            forall|j: int| 0 <= j < i ==> #[trigger] w.entities@[j].wf(),
            forall|j: int| i <= j < n ==> #[trigger] w.entities@[j] == old(w).entities@[j],
        decreases n - i,
    {
        let alive = w.entities[i].alive;
        let spatial_opt = w.entities[i].spatial;
        let vel_opt = w.entities[i].velocity;
        let ang_opt = w.entities[i].angular_velocity;
        if alive {
            if let Some(s) = spatial_opt {
                proof {
                    assert(old(w).entities@[i as int].wf());
                }
                let pos = if let Some(v) = vel_opt {
                    proof {
                        lemma_scale_shrinks(v.x as int, 1, SUBSTEP_HZ as int);
                        lemma_scale_shrinks(v.y as int, 1, SUBSTEP_HZ as int);
                    }
                    let dx = scale_mag(v.x, 1, SUBSTEP_HZ);
                    let dy = scale_mag(v.y, 1, SUBSTEP_HZ);
                    Vec2 {
                        x: add_clamped(s.pos.x, dx, COORD_MAX),
                        y: add_clamped(s.pos.y, dy, COORD_MAX),
                    }
                } else {
                    s.pos
                };
                let rot = if let Some(av) = ang_opt {
                    proof {
                        lemma_scale_shrinks(av as int, 1, SUBSTEP_HZ as int);
                    }
                    let dr = scale_mag(av, 1, SUBSTEP_HZ);
                    add_clamped(s.rot, dr, ROT_BOUND)
                } else {
                    s.rot
                };
                w.entities[i].spatial = Some(Spatial { pos, rot, radius: s.radius });
            }
        }
        proof {
            assert(w.entities@[i as int] == spec_move_entity(old(w).entities@[i as int]));
            assert(w.entities@[i as int].wf());
        }
        i = i + 1;
    }
}

} // verus!
