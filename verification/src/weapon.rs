//! The weapon model: a repeating cooldown timer with a latched trigger.
//! A press during cooldown is remembered; the shot fires as soon as the
//! cooldown completes, spawning one bullet at the ship's nose.

use vstd::prelude::*;
use crate::components::{Spatial, Weapon};
use crate::fixed::{add_clamped, scale_mag, spec_clamp, spec_scale, Vec2};
use crate::trig::{dir_of, spec_dir};
use crate::world::{Entity, World};
use crate::COORD_MAX;

verus! {

/// Whether a weapon fires when ticked by `dt` microseconds: the cooldown
/// completes within the tick and the trigger is latched.
pub open spec fn weapon_fires(wp: Weapon, dt: nat) -> bool {
    wp.elapsed_us + dt >= wp.period_us && wp.triggered
}

/// The weapon after one tick of `dt` microseconds: elapsed time advances and
/// wraps each completed period (the cooldown repeats); the latch clears
/// exactly when a shot fires.
pub open spec fn spec_weapon_tick(wp: Weapon, dt: nat) -> Weapon {
    Weapon {
        period_us: wp.period_us,
        elapsed_us: if wp.elapsed_us + dt >= wp.period_us {
            ((wp.elapsed_us + dt) % (wp.period_us as int)) as u64
        } else {
            (wp.elapsed_us + dt) as u64
        },
        triggered: wp.triggered && !weapon_fires(wp, dt),
    }
}

/// Advance a weapon's cooldown by `dt` microseconds; returns whether a shot
/// fires now. Fires exactly when the cooldown completes with the trigger
/// latched; firing clears the latch, and the timer keeps its phase.
pub fn weapon_step(wp: &mut Weapon, dt: u64) -> (fired: bool)
    requires
        old(wp).wf(),
        dt <= 1_000_000_000,
    ensures
        final(wp).wf(),
        *final(wp) == spec_weapon_tick(*old(wp), dt as nat),
        fired == weapon_fires(*old(wp), dt as nat),
{
    let total: u64 = wp.elapsed_us + dt;
    let fired: bool;
    if total >= wp.period_us {
        fired = wp.triggered;
        wp.triggered = false;
        wp.elapsed_us = total % wp.period_us;
    } else {
        fired = false;
        wp.elapsed_us = total;
    }
    fired
}

/// The bullet entity fired from a ship placed at `s`: spawned at the ship's
/// nose (one radius along the facing direction), flying at the fixed bullet
/// speed along the facing direction, tagged for boundary removal.
pub open spec fn spec_bullet(s: Spatial) -> Entity {
    let d = spec_dir(s.rot as int);
    Entity {
        alive: true,
        spatial: Some(
            Spatial {
                pos: Vec2 {
                    x: spec_clamp(
                        s.pos.x + spec_scale(d.x as int, s.radius as int, 1000),
                        COORD_MAX as int,
                    ) as i64,
                    y: spec_clamp(
                        s.pos.y + spec_scale(d.y as int, s.radius as int, 1000),
                        COORD_MAX as int,
                    ) as i64,
                },
                rot: 0,
                radius: 2000,
            },
        ),
        velocity: Some(Vec2 { x: (d.x * 1000) as i64, y: (d.y * 1000) as i64 }),
        angular_velocity: None,
        speed_limit: None,
        damping: None,
        thrust: None,
        steering: None,
        weapon: None,
        shape: None,
        is_ship: false,
        is_bullet: true,
        is_asteroid: false,
        boundary_wrap: false,
        boundary_removal: true,
    }
}

/// Spawn the bullet fired from a ship placed at `s`.
pub fn spawn_bullet(w: &mut World, s: Spatial) -> (id: usize)
    requires
        old(w).wf(),
        s.wf(),
    ensures
        final(w).wf(),
        final(w).entities@ == old(w).entities@.push(spec_bullet(s)),
        id == old(w).entities@.len(),
{
    let d = dir_of(s.rot);
    proof {
        assert(d.x * s.radius <= i64::MAX && -(d.x * s.radius) <= i64::MAX && d.y * s.radius
            <= i64::MAX && -(d.y * s.radius) <= i64::MAX) by (nonlinear_arith)
            requires
                -1000 <= d.x <= 1000,
                -1000 <= d.y <= 1000,
                0 <= s.radius <= 1_000_000,
        ;
        crate::fixed::lemma_scale_within(d.x as int, s.radius as int, 1000);
        crate::fixed::lemma_scale_within(d.y as int, s.radius as int, 1000);
    }
    let dx = scale_mag(d.x, s.radius, 1000);
    let dy = scale_mag(d.y, s.radius, 1000);
    let nose = Vec2 { x: add_clamped(s.pos.x, dx, COORD_MAX), y: add_clamped(s.pos.y, dy, COORD_MAX) };
    let vel = Vec2 { x: d.x * 1000, y: d.y * 1000 };
    let bullet = Entity {
        alive: true,
        spatial: Some(Spatial { pos: nose, rot: 0, radius: 2000 }),
        velocity: Some(vel),
        angular_velocity: None,
        speed_limit: None,
        damping: None,
        thrust: None,
        steering: None,
        weapon: None,
        shape: None,
        is_ship: false,
        is_bullet: true,
        is_asteroid: false,
        boundary_wrap: false,
        boundary_removal: true,
    };
    proof {
        assert(bullet == spec_bullet(s));
    }
    w.spawn(bullet)
}

/// The effect of the weapon system on one existing entity.
pub open spec fn spec_weapon_entity(e: Entity, dt: nat) -> Entity {
    if e.alive && e.weapon is Some && e.spatial is Some {
        Entity { weapon: Some(spec_weapon_tick(e.weapon->Some_0, dt)), ..e }
    } else {
        e
    }
}

/// Whether the entity fires a bullet this tick.
pub open spec fn entity_fires(e: Entity, dt: nat) -> bool {
    e.alive && e.weapon is Some && e.spatial is Some && weapon_fires(e.weapon->Some_0, dt)
}

/// The bullets spawned by one weapon pass over `s`, in entity order.
pub open spec fn spec_bullets(s: Seq<Entity>, dt: nat) -> Seq<Entity>
    decreases s.len(),
{
    if s.len() == 0 {
        Seq::empty()
    } else {
        spec_bullets(s.drop_last(), dt) + (if entity_fires(s.last(), dt) {
            seq![spec_bullet(s.last().spatial->Some_0)]
        } else {
            Seq::empty()
        })
    }
}

/// Tick every armed entity's cooldown by `dt` microseconds and spawn one
/// bullet per firing weapon, appended to the registry in entity order.
pub fn weapon_system(w: &mut World, dt: u64)
    requires
        old(w).wf(),
        dt <= 1_000_000_000,
    ensures
        final(w).wf(),
        final(w).entities@.len() == old(w).entities@.len() + spec_bullets(
            old(w).entities@,
            dt as nat,
        ).len(),
        forall|i: int|
            0 <= i < old(w).entities@.len() ==> #[trigger] final(w).entities@[i]
                == spec_weapon_entity(old(w).entities@[i], dt as nat),
        final(w).entities@.skip(old(w).entities@.len() as int) == spec_bullets(
            old(w).entities@,
            dt as nat,
        ),
{
    let n = w.entities.len();
    let mut i: usize = 0;
    proof {
        assert(old(w).entities@.take(0int) =~= Seq::<Entity>::empty());
        assert(w.entities@.skip(n as int) =~= spec_bullets(old(w).entities@.take(0int), dt as nat));
    }
    while i < n
        invariant
            old(w).wf(),
            dt <= 1_000_000_000,
            n == old(w).entities@.len(),
            0 <= i <= n,
            w.entities@.len() == n + spec_bullets(old(w).entities@.take(i as int), dt as nat).len(),
            forall|j: int|
                0 <= j < i ==> #[trigger] w.entities@[j] == spec_weapon_entity(
                    old(w).entities@[j],
                    dt as nat,
                ),
            forall|j: int| 0 <= j < w.entities@.len() ==> #[trigger] w.entities@[j].wf(),
            forall|j: int| i <= j < n ==> #[trigger] w.entities@[j] == old(w).entities@[j],
            w.entities@.skip(n as int) == spec_bullets(old(w).entities@.take(i as int), dt as nat),
        decreases n - i,
    {
        let ghost pre = w.entities@;
        let ghost oe = old(w).entities@[i as int];
        let alive = w.entities[i].alive;
        let weapon_opt = w.entities[i].weapon;
        let spatial_opt = w.entities[i].spatial;
        let mut fired = false;
        let mut fire_from = Spatial { pos: Vec2 { x: 0, y: 0 }, rot: 0, radius: 0 };
        if alive {
            if let Some(wp0) = weapon_opt {
                if let Some(s) = spatial_opt {
                    proof {
                        assert(old(w).entities@[i as int].wf());
                    }
                    let mut wp = wp0;
                    fired = weapon_step(&mut wp, dt);
                    w.entities[i].weapon = Some(wp);
                    fire_from = s;
                }
            }
        }
        proof {
            assert(w.entities@[i as int] == spec_weapon_entity(oe, dt as nat));
            assert(w.entities@[i as int].wf());
            assert(w.entities@.skip(n as int) =~= pre.skip(n as int));
        }
        if fired {
            proof {
                assert(old(w).entities@[i as int].wf());
            }
            spawn_bullet(w, fire_from);
        }
        proof {
            let t1 = old(w).entities@.take(i + 1);
            assert(t1.drop_last() =~= old(w).entities@.take(i as int));
            assert(t1.last() == oe);
            if entity_fires(oe, dt as nat) {
                assert(fired);
                assert(w.entities@.skip(n as int) =~= spec_bullets(
                    old(w).entities@.take(i as int),
                    dt as nat,
                ).push(spec_bullet(oe.spatial->Some_0)));
                assert(spec_bullets(t1, dt as nat) =~= spec_bullets(
                    old(w).entities@.take(i as int),
                    dt as nat,
                ).push(spec_bullet(oe.spatial->Some_0)));
            } else {
                assert(!fired);
                assert(spec_bullets(t1, dt as nat) =~= spec_bullets(
                    old(w).entities@.take(i as int),
                    dt as nat,
                ));
            }
        }
        i = i + 1;
    }
    proof {
        assert(old(w).entities@.take(n as int) =~= old(w).entities@);
    }
}

} // verus!
