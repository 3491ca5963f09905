//! Components and transient records of the simulation: placement, motion
//! configuration, weapons, events, viewport and input snapshots.

use vstd::prelude::*;
use crate::fixed::{in_box, Vec2};
use crate::{
    BIG_ASTEROID_MAX, BIG_ASTEROID_MIN, COORD_MAX, FORCE_MAX, MEDIUM_ASTEROID_MAX,
    MEDIUM_ASTEROID_MIN, RADIUS_MAX, ROT_BOUND, SMALL_ASTEROID_MAX, SMALL_ASTEROID_MIN,
};

verus! {

/// Placement of an entity: position and rotation, plus its collision radius.
#[derive(Clone, Copy, PartialEq, Eq, Structural, Debug)]
pub struct Spatial {
    pub pos: Vec2,
    /// Accumulated rotation in tenth-degrees; not normalized.
    pub rot: i64,
    /// Collision/bounding radius in milli-pixels.
    pub radius: i64,
}

impl Spatial {
    /// All fields within the simulation's tracked ranges; radius non-negative.
    pub open spec fn wf(self) -> bool {
        &&& in_box(self.pos, COORD_MAX as int)
        &&& -ROT_BOUND <= self.rot <= ROT_BOUND
        &&& 0 <= self.radius <= RADIUS_MAX
    }
}

/// Constant-force engine with an on/off intent flag.
#[derive(Clone, Copy, PartialEq, Eq, Structural, Debug)]
pub struct ThrustEngine {
    /// Velocity gained per sub-step while on, in milli-pixels per second.
    pub force: i64,
    pub on: bool,
}

impl ThrustEngine {
    pub open spec fn wf(self) -> bool {
        0 <= self.force <= FORCE_MAX
    }

    /// A new engine, initially off.
    pub fn new(force: i64) -> (r: ThrustEngine)
        requires
            0 <= force <= FORCE_MAX,
        ensures
            r == (ThrustEngine { force, on: false }),
    {
        ThrustEngine { force, on: false }
    }
}

/// A periodic-cooldown weapon with a latched trigger.
#[derive(Clone, Copy, PartialEq, Eq, Structural, Debug)]
pub struct Weapon {
    /// Cooldown period in microseconds.
    pub period_us: u64,
    /// Time elapsed within the current period, in microseconds.
    pub elapsed_us: u64,
    /// Latched firing intent: stays set across frames until a shot fires.
    pub triggered: bool,
}

impl Weapon {
    pub open spec fn wf(self) -> bool {
        &&& 0 < self.period_us <= 1_000_000_000
        &&& self.elapsed_us < self.period_us
    }

    /// A new weapon with the given rate of fire, cooldown at zero, untriggered.
    pub fn new(rate_of_fire_us: u64) -> (r: Weapon)
        requires
            0 < rate_of_fire_us <= 1_000_000_000,
        ensures
            r == (Weapon { period_us: rate_of_fire_us, elapsed_us: 0, triggered: false }),
    {
        Weapon { period_us: rate_of_fire_us, elapsed_us: 0, triggered: false }
    }
}

/// A queued request for a not-yet-created asteroid with the given placement.
#[derive(Clone, Copy, PartialEq, Eq, Structural, Debug)]
pub struct AsteroidSpawnEvent {
    pub spatial: Spatial,
}

/// A detected overlap between two entities, tagged with the participants'
/// kinds; carries the entity handles.
#[derive(Clone, Copy, PartialEq, Eq, Structural, Debug)]
pub enum HitEvent {
    AsteroidBullet { asteroid: usize, bullet: usize },
    ShipAsteroid { ship: usize, asteroid: usize },
}

/// The viewport, described by its half extents in milli-pixels.
#[derive(Clone, Copy, PartialEq, Eq, Structural, Debug)]
pub struct Viewport {
    pub half_w: i64,
    pub half_h: i64,
}

impl Viewport {
    pub open spec fn wf(self) -> bool {
        &&& 0 < self.half_w <= 100_000_000
        &&& 0 < self.half_h <= 100_000_000
    }
}

/// A snapshot of the player's logical actions for one frame.
#[derive(Clone, Copy, PartialEq, Eq, Structural, Debug)]
pub struct InputState {
    pub turn_left: bool,
    pub turn_right: bool,
    pub thrust: bool,
    /// True when fire was pressed this frame.
    pub fire: bool,
}

/// Radius in the big size class.
pub open spec fn is_big_radius(r: int) -> bool {
    BIG_ASTEROID_MIN <= r < BIG_ASTEROID_MAX
}

/// Radius in the medium size class.
pub open spec fn is_medium_radius(r: int) -> bool {
    MEDIUM_ASTEROID_MIN <= r < MEDIUM_ASTEROID_MAX
}

/// Radius in the small size class.
pub open spec fn is_small_radius(r: int) -> bool {
    SMALL_ASTEROID_MIN <= r < SMALL_ASTEROID_MAX
}

} // verus!
