//! The frame scheduler: fixed-timestep accumulators and the per-frame stage
//! order — input, weapon and thrust intent, spawning and generation, physics
//! sub-steps, boundary rules, collision detection, and hit reactions. The
//! contract of `frame` composes the stage specifications, leaving open only
//! what the random draws decide.

use vstd::prelude::*;
use rand::rngs::SmallRng;
use crate::boundary::{
    boundary_remove_system, boundary_wrap_system, spec_remove_entity, spec_wrap_entity,
};
use crate::collision::{ab_pair_hit, collision_system, is_valid_ab_hit, ship_kills};
use crate::components::{
    AsteroidSpawnEvent, HitEvent, InputState, Spatial, ThrustEngine, Viewport, Weapon,
};
use crate::control::{
    spec_steer_entity, spec_thrust_control_entity, spec_weapon_control_entity,
    steering_control_system, thrust_control_system, weapon_control_system,
};
use crate::fixed::Vec2;
use crate::hits::{apply_hits, asteroid_hit_system, frag_ok, frag_witnessed, spawns_total};
use crate::motion::{
    damping_system, movement_system, spec_damp_entity, spec_limit_entity, spec_move_entity,
    spec_thrust_entity, speed_limit_system, thrust_system,
};
use crate::rng::rng_from_seed;
use crate::spawning::{
    asteroid_generation_system, asteroid_spawn_system, is_generated_asteroid, spawn_event_ok,
};
use crate::weapon::{spec_bullets, spec_weapon_entity, weapon_system};
use crate::world::{kill, Entity, World};

verus! {

/// Fixed physics timestep: counts whole 1/120-second sub-steps out of
/// elapsed wall time, carrying the remainder in microsecond·rate units.
#[derive(Clone, Copy, PartialEq, Eq, Structural, Debug)]
pub struct FixedTimestep {
    /// Carried remainder, in microseconds times the sub-step rate.
    pub accum: u64,
}

impl FixedTimestep {
    pub open spec fn wf(self) -> bool {
        self.accum < 1_000_000
    }

    pub fn new() -> (r: FixedTimestep)
        ensures
            r.accum == 0,
            r.wf(),
    {
        FixedTimestep { accum: 0 }
    }

    /// Add `dt_us` of wall time; returns how many whole physics sub-steps
    /// elapse, keeping the exact remainder.
    pub fn advance(&mut self, dt_us: u64) -> (steps: u64)
        requires
            old(self).wf(),
            dt_us <= 1_000_000_000,
        ensures
            final(self).wf(),
            steps == (old(self).accum + dt_us * 120) / 1_000_000,
            final(self).accum == (old(self).accum + dt_us * 120) % 1_000_000,
    {
        let total: u64 = self.accum + dt_us * 120;
        let steps = total / 1_000_000;
        self.accum = total % 1_000_000;
        steps
    }
}

/// A repeating interval timer (the asteroid spawn cadence), in microseconds.
#[derive(Clone, Copy, PartialEq, Eq, Structural, Debug)]
pub struct IntervalTimer {
    pub period_us: u64,
    pub accum_us: u64,
}

impl IntervalTimer {
    pub open spec fn wf(self) -> bool {
        0 < self.period_us <= 1_000_000_000 && self.accum_us < self.period_us
    }

    pub fn new(period_us: u64) -> (r: IntervalTimer)
        requires
            0 < period_us <= 1_000_000_000,
        ensures
            r == (IntervalTimer { period_us, accum_us: 0 }),
            r.wf(),
    {
        IntervalTimer { period_us, accum_us: 0 }
    }

    /// Add `dt_us` of wall time; returns how many whole periods elapse.
    pub fn tick(&mut self, dt_us: u64) -> (fires: u64)
        requires
            old(self).wf(),
            dt_us <= 1_000_000_000,
        ensures
            final(self).wf(),
            final(self).period_us == old(self).period_us,
            fires == (old(self).accum_us + dt_us) / (old(self).period_us as int),
            final(self).accum_us == (old(self).accum_us + dt_us) % (old(self).period_us as int),
    {
        let total: u64 = self.accum_us + dt_us;
        let fires = total / self.period_us;
        self.accum_us = total % self.period_us;
        fires
    }
}

/// The whole simulation: the entity registry, the two fixed-rate clocks, the
/// spawn-intent queue carried across frames, and the seeded random source.
pub struct Game {
    pub world: World,
    pub physics: FixedTimestep,
    pub spawn_timer: IntervalTimer,
    pub spawn_events: Vec<AsteroidSpawnEvent>,
    pub rng: SmallRng,
}

impl Game {
    pub open spec fn wf(self) -> bool {
        &&& self.world.wf()
        &&& self.physics.wf()
        &&& self.spawn_timer.wf()
        &&& forall|k: int|
            0 <= k < self.spawn_events@.len() ==> (#[trigger] self.spawn_events@[k].spatial).wf()
    }

    /// An empty game: no entities, clocks at zero, the spawn roll every half
    /// second of simulated time, and the random source built from the seed
    /// (the same seed reproduces the same asteroid field).
    pub fn new(seed: u64) -> (g: Game)
        ensures
            g.wf(),
            g.world.entities@.len() == 0,
            g.spawn_events@.len() == 0,
            g.physics.accum == 0,
            g.spawn_timer == (IntervalTimer { period_us: 500_000, accum_us: 0 }),
    {
        Game {
            world: World::new(),
            physics: FixedTimestep::new(),
            spawn_timer: IntervalTimer::new(500_000),
            spawn_events: Vec::new(),
            rng: rng_from_seed(seed),
        }
    }
}

/// The player's ship as set up at the start: wrap-tagged, damped, speed
/// limited, with engine, steering and weapon.
pub open spec fn spec_ship() -> Entity {
    Entity {
        alive: true,
        spatial: Some(Spatial { pos: Vec2 { x: 0, y: 0 }, rot: 0, radius: 12_000 }),
        velocity: Some(Vec2 { x: 0, y: 0 }),
        angular_velocity: Some(0),
        speed_limit: Some(350_000),
        damping: Some(998),
        thrust: Some(ThrustEngine { force: 1500, on: false }),
        steering: Some(1800),
        weapon: Some(Weapon { period_us: 100_000, elapsed_us: 0, triggered: false }),
        shape: None,
        is_ship: true,
        is_bullet: false,
        is_asteroid: false,
        boundary_wrap: true,
        boundary_removal: false,
    }
}

/// Spawn the player's ship at the origin; returns its handle.
pub fn setup_ship(w: &mut World) -> (id: usize)
    requires
        old(w).wf(),
    ensures
        final(w).wf(),
        final(w).entities@ == old(w).entities@.push(spec_ship()),
        id == old(w).entities@.len(),
{
    let ship = Entity {
        alive: true,
        spatial: Some(Spatial { pos: Vec2 { x: 0, y: 0 }, rot: 0, radius: 12_000 }),
        velocity: Some(Vec2 { x: 0, y: 0 }),
        angular_velocity: Some(0),
        speed_limit: Some(350_000),
        damping: Some(998),
        thrust: Some(ThrustEngine::new(1500)),
        steering: Some(1800),
        weapon: Some(Weapon::new(100_000)),
        shape: None,
        is_ship: true,
        is_bullet: false,
        is_asteroid: false,
        boundary_wrap: true,
        boundary_removal: false,
    };
    proof {
        assert(ship == spec_ship());
    }
    w.spawn(ship)
}

/// The whole input stage applied to one entity: steering, then engine flag,
/// then trigger latch.
pub open spec fn spec_input_entity(e: Entity, input: InputState) -> Entity {
    spec_weapon_control_entity(spec_thrust_control_entity(spec_steer_entity(e, input), input), input)
}

/// The registry after the input stage.
pub open spec fn input_map(s: Seq<Entity>, input: InputState) -> Seq<Entity> {
    Seq::new(s.len(), |i: int| spec_input_entity(s[i], input))
}

/// The registry after the weapon stage: cooldowns ticked, fired bullets
/// appended in entity order.
pub open spec fn weapon_map(s: Seq<Entity>, dt: nat) -> Seq<Entity> {
    Seq::new(s.len(), |i: int| spec_weapon_entity(s[i], dt)) + spec_bullets(s, dt)
}

/// The registry after the once-per-frame thrust application.
pub open spec fn thrust_map(s: Seq<Entity>) -> Seq<Entity> {
    Seq::new(s.len(), |i: int| spec_thrust_entity(s[i]))
}

/// The registry after the boundary stage: removal, then wrap.
pub open spec fn boundary_map(s: Seq<Entity>, vp: Viewport) -> Seq<Entity> {
    Seq::new(s.len(), |i: int| spec_wrap_entity(spec_remove_entity(s[i], vp), vp))
}

/// The registry after the synchronous ship–asteroid resolution.
pub open spec fn ship_kill_map(s: Seq<Entity>) -> Seq<Entity> {
    Seq::new(
        s.len(),
        |i: int|
            if ship_kills(s, i) {
                kill(s[i])
            } else {
                s[i]
            },
    )
}

/// One physics sub-step on one entity: damping, then the speed-limit clamp
/// (any result the clamp allows), then integration.
pub open spec fn substep_entity_rel(e: Entity, r: Entity) -> bool {
    exists|ld: Entity|
        #![auto]
        spec_limit_entity(spec_damp_entity(e), ld) && r == spec_move_entity(ld)
}

/// One physics sub-step over the whole registry, pointwise.
pub open spec fn substep_rel(s: Seq<Entity>, r: Seq<Entity>) -> bool {
    r.len() == s.len() && forall|i: int|
        0 <= i < s.len() ==> substep_entity_rel(s[i], #[trigger] r[i])
}

/// `n` physics sub-steps.
pub open spec fn physics_rel(s: Seq<Entity>, r: Seq<Entity>, n: nat) -> bool
    decreases n,
{
    if n == 0 {
        r == s
    } else {
        exists|mid: Seq<Entity>|
            #![auto]
            physics_rel(s, mid, (n - 1) as nat) && substep_rel(mid, r)
    }
}

/// The spawn-roll stage: at most one well-formed edge event appended per
/// elapsed half-second roll, the queue's prefix kept.
pub open spec fn spawn_rolls_rel(
    q0: Seq<AsteroidSpawnEvent>,
    q1: Seq<AsteroidSpawnEvent>,
    vp: Viewport,
    rolls: nat,
) -> bool {
    &&& q0.len() <= q1.len() <= q0.len() + rolls
    &&& q1.take(q0.len() as int) == q0
    &&& forall|k: int| q0.len() <= k < q1.len() ==> spawn_event_ok(#[trigger] q1[k], vp)
}

/// The generation stage: one asteroid appended per queued event, in order.
pub open spec fn generation_rel(
    s: Seq<Entity>,
    r: Seq<Entity>,
    events: Seq<AsteroidSpawnEvent>,
    vp: Viewport,
) -> bool {
    &&& r.len() == s.len() + events.len()
    &&& forall|j: int| 0 <= j < s.len() ==> #[trigger] r[j] == s[j]
    &&& forall|k: int|
        0 <= k < events.len() ==> is_generated_asteroid(#[trigger] r[s.len() + k], events[k], vp)
}

/// The detector's event queue against registry state `s`: every event a live
/// intersecting asteroid–bullet pair, every such pair present, no
/// duplicates.
pub open spec fn collision_events_ok(s: Seq<Entity>, hits: Seq<HitEvent>) -> bool {
    &&& forall|k: int| 0 <= k < hits.len() ==> is_valid_ab_hit(s, #[trigger] hits[k])
    &&& forall|a: usize, b: usize|
        ab_pair_hit(s, a, b) ==> hits.contains(HitEvent::AsteroidBullet { asteroid: a, bullet: b })
    &&& forall|k1: int, k2: int|
        0 <= k1 < k2 < hits.len() ==> #[trigger] hits[k1] != #[trigger] hits[k2]
}

/// The hit-reaction stage: the registry after draining the queue, and the
/// fragment events queued for the next frame.
pub open spec fn hit_stage_rel(
    s: Seq<Entity>,
    r: Seq<Entity>,
    hits: Seq<HitEvent>,
    q1: Seq<AsteroidSpawnEvent>,
) -> bool {
    &&& r == apply_hits(s, hits)
    &&& q1.len() == spawns_total(s, hits)
    &&& forall|k: int| 0 <= k < q1.len() ==> #[trigger] frag_witnessed(s, hits, q1[k])
}

/// One frame, with its random outcomes named: `q_sp` the spawn queue after
/// the rolls, `s_gen` the registry after generation, `s_phys` after the due
/// sub-steps, `hits` the detected overlaps.
pub open spec fn frame_witness(
    g0: Game,
    world1: Seq<Entity>,
    queue1: Seq<AsteroidSpawnEvent>,
    vp: Viewport,
    input: InputState,
    dt: nat,
    q_sp: Seq<AsteroidSpawnEvent>,
    s_gen: Seq<Entity>,
    s_phys: Seq<Entity>,
    hits: Seq<HitEvent>,
) -> bool {
    let s_thr = thrust_map(weapon_map(input_map(g0.world.entities@, input), dt));
    let rolls = (g0.spawn_timer.accum_us + dt) / (g0.spawn_timer.period_us as int);
    let steps = (g0.physics.accum + dt * 120) / 1_000_000;
    let s_bound = boundary_map(s_phys, vp);
    &&& spawn_rolls_rel(g0.spawn_events@, q_sp, vp, rolls as nat)
    &&& generation_rel(s_thr, s_gen, q_sp, vp)
    &&& physics_rel(s_gen, s_phys, steps as nat)
    &&& collision_events_ok(s_bound, hits)
    &&& hit_stage_rel(ship_kill_map(s_bound), world1, hits, queue1)
}

/// What one frame does: the stage composition of the input, weapon, thrust,
/// spawn, generation, physics, boundary, collision and hit-reaction
/// specifications, for some outcome of the random draws.
pub open spec fn frame_rel(g0: Game, g1: Game, vp: Viewport, input: InputState, dt: nat) -> bool {
    exists|q_sp: Seq<AsteroidSpawnEvent>, s_gen: Seq<Entity>, s_phys: Seq<Entity>, hits: Seq<
        HitEvent,
    >| #[trigger] frame_witness(
        g0,
        g1.world.entities@,
        g1.spawn_events@,
        vp,
        input,
        dt,
        q_sp,
        s_gen,
        s_phys,
        hits,
    )
}

/// Advance the simulation by one rendered frame of `dt_us` microseconds:
/// input intent, weapon ticks, the spawn roll and generation of queued
/// asteroids, the due number of fixed physics sub-steps (damping and speed
/// limit before integration), boundary rules, collision detection, and hit
/// resolution whose fragment requests are queued for the next frame.
pub fn frame(g: &mut Game, vp: Viewport, input: InputState, dt_us: u64)
    requires
        old(g).wf(),
        vp.wf(),
        dt_us <= 1_000_000_000,
    ensures
        final(g).wf(),
        final(g).physics.accum == (old(g).physics.accum + dt_us * 120) % 1_000_000,
        final(g).spawn_timer.period_us == old(g).spawn_timer.period_us,
        final(g).spawn_timer.accum_us == (old(g).spawn_timer.accum_us + dt_us) % (old(
            g,
        ).spawn_timer.period_us as int),
        frame_rel(*old(g), *final(g), vp, input, dt_us as nat),
{
    let ghost g0e = g.world.entities@;
    let ghost dtn = dt_us as nat;

    // Input stage: copy the snapshot into intent components.
    steering_control_system(&mut g.world, input);
    let ghost e1 = g.world.entities@;
    thrust_control_system(&mut g.world, input);
    let ghost e2 = g.world.entities@;
    weapon_control_system(&mut g.world, input);
    proof {
        assert forall|i: int| 0 <= i < g0e.len() implies #[trigger] g.world.entities@[i]
            == input_map(g0e, input)[i] by {
            assert(e1[i] == spec_steer_entity(g0e[i], input));
            assert(e2[i] == spec_thrust_control_entity(e1[i], input));
            assert(g.world.entities@[i] == spec_weapon_control_entity(e2[i], input));
        }
        assert(g.world.entities@ =~= input_map(g0e, input));
    }
    let ghost s_in = g.world.entities@;

    // Weapon cooldowns tick on wall time; thrust applies once per frame.
    weapon_system(&mut g.world, dt_us);
    proof {
        let n = s_in.len() as int;
        assert forall|i: int| 0 <= i < g.world.entities@.len() implies #[trigger] g.world
            .entities@[i] == weapon_map(s_in, dtn)[i] by {
            if i < n {
            } else {
                assert(g.world.entities@.skip(n)[i - n] == g.world.entities@[i]);
            }
        }
        assert(g.world.entities@ =~= weapon_map(s_in, dtn));
    }
    let ghost s_weap = g.world.entities@;
    thrust_system(&mut g.world);
    proof {
        assert(g.world.entities@ =~= thrust_map(s_weap));
    }
    let ghost s_thr = g.world.entities@;

    // Spawn cadence: one roll per elapsed half second.
    let ghost q0 = g.spawn_events@;
    let ghost ph0 = g.physics;
    let rolls0 = g.spawn_timer.tick(dt_us);
    let ghost timer1 = g.spawn_timer;
    let mut rolls = rolls0;
    proof {
        assert(q0.take(q0.len() as int) =~= q0);
    }
    while rolls > 0
        invariant
            vp.wf(),
            g.world.wf(),
            g.world.entities@ == s_thr,
            g.physics == ph0,
            g.spawn_timer == timer1,
            rolls <= rolls0,
            spawn_rolls_rel(q0, g.spawn_events@, vp, (rolls0 - rolls) as nat),
        decreases rolls,
    {
        let ghost pre = g.spawn_events@;
        asteroid_spawn_system(vp, &mut g.rng, &mut g.spawn_events);
        proof {
            assert forall|k: int| 0 <= k < q0.len() implies g.spawn_events@[k] == q0[k] by {
                assert(g.spawn_events@.take(pre.len() as int)[k] == g.spawn_events@[k]);
                assert(pre.take(q0.len() as int)[k] == pre[k]);
            }
            assert(g.spawn_events@.take(q0.len() as int) =~= q0);
            assert forall|k: int|
                q0.len() <= k < g.spawn_events@.len() implies spawn_event_ok(
                #[trigger] g.spawn_events@[k],
                vp,
            ) by {
                if k < pre.len() {
                    assert(g.spawn_events@.take(pre.len() as int)[k] == g.spawn_events@[k]);
                    assert(pre[k] == g.spawn_events@[k]);
                }
            }
        }
        rolls = rolls - 1;
    }
    let ghost q_sp = g.spawn_events@;
    proof {
        assert forall|k: int| 0 <= k < q_sp.len() implies (#[trigger] q_sp[k].spatial).wf() by {
            if k < q0.len() {
                assert(q_sp.take(q0.len() as int)[k] == q_sp[k]);
                assert(q0[k] == q_sp[k]);
                assert(old(g).spawn_events@[k].spatial.wf());
            }
        }
    }

    // Materialize every queued spawn-intent event.
    asteroid_generation_system(&mut g.world, vp, &mut g.rng, &g.spawn_events);
    proof {
        assert(generation_rel(s_thr, g.world.entities@, q_sp, vp));
    }
    let ghost s_gen = g.world.entities@;
    g.spawn_events = Vec::new();

    // Fixed-rate physics sub-steps: damping and the speed limit apply before
    // integration within each sub-step.
    let steps0 = g.physics.advance(dt_us);
    let ghost ph1 = g.physics;
    let mut steps = steps0;
    proof {
        assert(physics_rel(s_gen, g.world.entities@, 0nat));
    }
    while steps > 0
        invariant
            g.world.wf(),
            g.physics == ph1,
            g.spawn_timer == timer1,
            g.spawn_events@.len() == 0,
            steps <= steps0,
            physics_rel(s_gen, g.world.entities@, (steps0 - steps) as nat),
        decreases steps,
    {
        let ghost prev = g.world.entities@;
        damping_system(&mut g.world);
        let ghost d1 = g.world.entities@;
        speed_limit_system(&mut g.world);
        let ghost d2 = g.world.entities@;
        movement_system(&mut g.world);
        proof {
            assert forall|i: int| 0 <= i < prev.len() implies substep_entity_rel(
                prev[i],
                #[trigger] g.world.entities@[i],
            ) by {
                assert(d1[i] == spec_damp_entity(prev[i]));
                assert(spec_limit_entity(d1[i], d2[i]));
                assert(g.world.entities@[i] == spec_move_entity(d2[i]));
            }
            assert(substep_rel(prev, g.world.entities@));
            assert(physics_rel(s_gen, g.world.entities@, (steps0 - steps + 1) as nat));
        }
        steps = steps - 1;
    }
    let ghost s_phys = g.world.entities@;

    // Boundary rules, then collision detection and deferred hit resolution.
    boundary_remove_system(&mut g.world, vp);
    let ghost b1 = g.world.entities@;
    boundary_wrap_system(&mut g.world, vp);
    proof {
        assert forall|i: int| 0 <= i < s_phys.len() implies #[trigger] g.world.entities@[i]
            == boundary_map(s_phys, vp)[i] by {
            assert(b1[i] == spec_remove_entity(s_phys[i], vp));
            assert(g.world.entities@[i] == spec_wrap_entity(b1[i], vp));
        }
        assert(g.world.entities@ =~= boundary_map(s_phys, vp));
    }
    let ghost s_bound = g.world.entities@;

    let mut hits: Vec<HitEvent> = Vec::new();
    collision_system(&mut g.world, &mut hits);
    proof {
        assert(g.world.entities@ =~= ship_kill_map(s_bound));
        assert(collision_events_ok(s_bound, hits@));
    }
    let ghost s_coll = g.world.entities@;
    asteroid_hit_system(&mut g.world, &hits, &mut g.rng, &mut g.spawn_events);
    proof {
        assert forall|k: int| 0 <= k < g.spawn_events@.len() implies (#[trigger] g.spawn_events@[k]
            .spatial).wf() by {
            assert(frag_witnessed(s_coll, hits@, g.spawn_events@[k]));
            let i2 = choose|i2: int|
                #![auto]
                0 <= i2 < hits@.len() && frag_ok(
                    apply_hits(s_coll, hits@.take(i2)),
                    hits@[i2],
                    g.spawn_events@[k],
                );
        }
        assert(hit_stage_rel(s_coll, g.world.entities@, hits@, g.spawn_events@));
        assert(frame_witness(
            *old(g),
            g.world.entities@,
            g.spawn_events@,
            vp,
            input,
            dtn,
            q_sp,
            s_gen,
            s_phys,
            hits@,
        ));
    }
}

} // verus!
