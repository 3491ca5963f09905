//! Input stage: the frame's input snapshot is copied into intent components
//! (steering rate, engine flag, trigger latch) before any physics runs.

use vstd::prelude::*;
use crate::components::{InputState, ThrustEngine, Weapon};
use crate::world::{Entity, World};

verus! {

/// The steering intent written to one entity: full turn rate left, right, or
/// none.
pub open spec fn spec_steer_entity(e: Entity, input: InputState) -> Entity {
    if e.alive && e.angular_velocity is Some && e.steering is Some {
        let rate = e.steering->Some_0;
        Entity {
            angular_velocity: Some(
                if input.turn_left {
                    rate
                } else if input.turn_right {
                    (-rate) as i64
                } else {
                    0
                },
            ),
            ..e
        }
    } else {
        e
    }
}

/// Set every steerable entity's angular velocity from the held turn keys:
/// left takes precedence, no key means no turn.
pub fn steering_control_system(w: &mut World, input: InputState)
    requires
        old(w).wf(),
    ensures
        final(w).wf(),
        final(w).entities@.len() == old(w).entities@.len(),
        forall|i: int|
            0 <= i < old(w).entities@.len() ==> #[trigger] final(w).entities@[i]
                == spec_steer_entity(old(w).entities@[i], input),
{
    let n = w.entities.len();
    let mut i: usize = 0;
    while i < n
        invariant
            old(w).wf(),
            n == old(w).entities@.len(),
            0 <= i <= n,
            w.entities@.len() == n,
            forall|j: int|
                0 <= j < i ==> #[trigger] w.entities@[j] == spec_steer_entity(
                    old(w).entities@[j],
                    input,
                ),
            forall|j: int| 0 <= j < i ==> #[trigger] w.entities@[j].wf(),
            forall|j: int| i <= j < n ==> #[trigger] w.entities@[j] == old(w).entities@[j],
        decreases n - i,
    {
        let alive = w.entities[i].alive;
        let ang_opt = w.entities[i].angular_velocity;
        let steer_opt = w.entities[i].steering;
        if alive && ang_opt.is_some() {
            if let Some(rate) = steer_opt {
                proof {
                    assert(old(w).entities@[i as int].wf());
                }
                let nv: i64 = if input.turn_left {
                    rate
                } else if input.turn_right {
                    -rate
                } else {
                    0
                };
                w.entities[i].angular_velocity = Some(nv);
            }
        }
        proof {
            assert(w.entities@[i as int] == spec_steer_entity(old(w).entities@[i as int], input));
            assert(w.entities@[i as int].wf());
        }
        i = i + 1;
    }
}

/// The engine flag written to one entity.
pub open spec fn spec_thrust_control_entity(e: Entity, input: InputState) -> Entity {
    if e.alive && e.thrust is Some {
        Entity {
            thrust: Some(ThrustEngine { force: e.thrust->Some_0.force, on: input.thrust }),
            ..e
        }
    } else {
        e
    }
}

/// Set every engine's on flag from the held thrust key.
pub fn thrust_control_system(w: &mut World, input: InputState)
    requires
        old(w).wf(),
    ensures
        final(w).wf(),
        final(w).entities@.len() == old(w).entities@.len(),
        forall|i: int|
            0 <= i < old(w).entities@.len() ==> #[trigger] final(w).entities@[i]
                == spec_thrust_control_entity(old(w).entities@[i], input),
{
    let n = w.entities.len();
    let mut i: usize = 0;
    while i < n
        invariant
            old(w).wf(),
            n == old(w).entities@.len(),
            0 <= i <= n,
            w.entities@.len() == n,
            forall|j: int|
                0 <= j < i ==> #[trigger] w.entities@[j] == spec_thrust_control_entity(
                    old(w).entities@[j],
                    input,
                ),
            forall|j: int| 0 <= j < i ==> #[trigger] w.entities@[j].wf(),
            forall|j: int| i <= j < n ==> #[trigger] w.entities@[j] == old(w).entities@[j],
        decreases n - i,
    {
        let alive = w.entities[i].alive;
        let thrust_opt = w.entities[i].thrust;
        if alive {
            if let Some(t) = thrust_opt {
                proof {
                    assert(old(w).entities@[i as int].wf());
                }
                w.entities[i].thrust = Some(ThrustEngine { force: t.force, on: input.thrust });
            }
        }
        proof {
            assert(w.entities@[i as int] == spec_thrust_control_entity(
                old(w).entities@[i as int],
                input,
            ));
            assert(w.entities@[i as int].wf());
        }
        i = i + 1;
    }
}

/// The trigger latch written to one entity: a press latches, and the latch
/// survives until a shot fires.
pub open spec fn spec_weapon_control_entity(e: Entity, input: InputState) -> Entity {
    if e.alive && e.weapon is Some {
        let wp = e.weapon->Some_0;
        Entity {
            weapon: Some(
                Weapon {
                    period_us: wp.period_us,
                    elapsed_us: wp.elapsed_us,
                    triggered: wp.triggered || input.fire,
                },
            ),
            ..e
        }
    } else {
        e
    }
}

/// Latch every weapon's trigger on a fire press; an already latched trigger
/// stays latched.
pub fn weapon_control_system(w: &mut World, input: InputState)
    requires
        old(w).wf(),
    ensures
        final(w).wf(),
        final(w).entities@.len() == old(w).entities@.len(),
        forall|i: int|
            0 <= i < old(w).entities@.len() ==> #[trigger] final(w).entities@[i]
                == spec_weapon_control_entity(old(w).entities@[i], input),
{
    let n = w.entities.len();
    let mut i: usize = 0;
    while i < n
        invariant
            old(w).wf(),
            n == old(w).entities@.len(),
            0 <= i <= n,
            w.entities@.len() == n,
            forall|j: int|
                0 <= j < i ==> #[trigger] w.entities@[j] == spec_weapon_control_entity(
                    old(w).entities@[j],
                    input,
                ),
            forall|j: int| 0 <= j < i ==> #[trigger] w.entities@[j].wf(),
            forall|j: int| i <= j < n ==> #[trigger] w.entities@[j] == old(w).entities@[j],
        decreases n - i,
    {
        let alive = w.entities[i].alive;
        let weapon_opt = w.entities[i].weapon;
        if alive {
            if let Some(wp) = weapon_opt {
                proof {
                    assert(old(w).entities@[i as int].wf());
                }
                w.entities[i].weapon = Some(
                    Weapon {
                        period_us: wp.period_us,
                        elapsed_us: wp.elapsed_us,
                        triggered: wp.triggered || input.fire,
                    },
                );
            }
        }
        proof {
            assert(w.entities@[i as int] == spec_weapon_control_entity(
                old(w).entities@[i as int],
                input,
            ));
            assert(w.entities@[i as int].wf());
        }
        i = i + 1;
    }
}

} // verus!
