//! The settings of the flock: how fast its members swim, how strongly each
//! rule turns them, what each of them sees, and what drives them away.

use vstd::prelude::*;

verus! {

pub const BOID_MIN_SPEED: i64 = 20_000_000;

pub const BOID_MAX_SPEED: i64 = 30_000_000;

pub const BOID_COHESION: i64 = 250_000;

pub const BOID_SEPARATION: i64 = 500_000;

pub const BOID_ALIGNMENT: i64 = 80_000;

pub const BOID_BORDER_TURN_STRENGTH: i64 = 200_000_000;

/// The field of view, in degrees.
pub const BOID_FOV: u32 = 240;

pub const BOID_VIEW_RANGE: i64 = 120_000_000;

pub const BOID_PROTECTED_RANGE: i64 = 15_000_000;

/// The speeds between which a member of the flock is kept.
#[derive(Debug, Clone, Copy, PartialEq, Eq, Structural)]
pub struct BoidSpeed {
    pub min: i64,
    pub max: i64,
}

/// How strongly each rule turns a member of the flock.
#[derive(Debug, Clone, Copy, PartialEq, Eq, Structural)]
pub struct BoidTurningStrength {
    pub cohesion: i64,
    pub separation: i64,
    pub alignment: i64,
    pub border: i64,
}

/// What a member of the flock sees: neighbours within its field of view
/// and its view range; those within the protected range it keeps away
/// from.
#[derive(Debug, Clone, Copy, PartialEq, Eq, Structural)]
pub struct BoidViewConfig {
    pub fov: u32,
    pub protected_range: i64,
    pub view_range: i64,
}

/// The settings of one member of the flock.
#[derive(Debug, Clone, Copy, PartialEq, Eq, Structural)]
pub struct Boid {
    pub speed: BoidSpeed,
    pub turning_strength: BoidTurningStrength,
    pub view_config: BoidViewConfig,
}

/// Something that drives the flock away: with the given strength, within
/// the given range.
#[derive(Debug, Clone, Copy, PartialEq, Eq, Structural)]
pub struct BoidRepulsor {
    pub strength: i64,
    pub range: i64,
}

impl Boid {
    /// Settings that a flock can be run with: the least speed is not above
    /// the greatest, no strength is negative, the field of view is at most
    /// a full turn, and the protected range lies within the view range.
    pub open spec fn wf(self) -> bool {
        &&& 0 <= self.speed.min <= self.speed.max
        &&& 0 <= self.turning_strength.cohesion
        &&& 0 <= self.turning_strength.separation
        &&& 0 <= self.turning_strength.alignment
        &&& 0 <= self.turning_strength.border
        &&& self.view_config.fov <= 360
        &&& 0 <= self.view_config.protected_range <= self.view_config.view_range
    }

    /// The settings of a fish.
    pub open spec fn default_boid() -> Boid {
        Boid {
            speed: BoidSpeed { min: BOID_MIN_SPEED, max: BOID_MAX_SPEED },
            turning_strength: BoidTurningStrength {
                cohesion: BOID_COHESION,
                separation: BOID_SEPARATION,
                alignment: BOID_ALIGNMENT,
                border: BOID_BORDER_TURN_STRENGTH,
            },
            view_config: BoidViewConfig {
                fov: BOID_FOV,
                protected_range: BOID_PROTECTED_RANGE,
                view_range: BOID_VIEW_RANGE,
            },
        }
    }
}

impl BoidRepulsor {
    /// A repulsor that pushes outwards, within a range.
    pub open spec fn wf(self) -> bool {
        0 < self.strength && 0 < self.range
    }

    /// The whale drives the flock away.
    pub fn player() -> (repulsor: Self)
        ensures
            repulsor == (BoidRepulsor { strength: 650_000, range: 80_000_000 }),
            repulsor.wf(),
    {
        BoidRepulsor { strength: 650_000, range: 80_000_000 }
    }

    /// An adult whale drives the flock away.
    pub fn adult_whale() -> (repulsor: Self)
        ensures
            repulsor == (BoidRepulsor { strength: 700_000, range: 80_000_000 }),
            repulsor.wf(),
    {
        BoidRepulsor { strength: 700_000, range: 80_000_000 }
    }

    /// An iceberg drives the flock away.
    pub fn iceberg() -> (repulsor: Self)
        ensures
            repulsor == (BoidRepulsor { strength: 600_000, range: 45_000_000 }),
            repulsor.wf(),
    {
        BoidRepulsor { strength: 600_000, range: 45_000_000 }
    }

    /// A ship drives the flock away.
    pub fn ship() -> (repulsor: Self)
        ensures
            repulsor == (BoidRepulsor { strength: 500_000, range: 45_000_000 }),
            repulsor.wf(),
    {
        BoidRepulsor { strength: 500_000, range: 45_000_000 }
    }
}

/// The settings of a fish.
pub fn get_default_boid() -> (boid: Boid)
    ensures
        boid == Boid::default_boid(),
        boid.wf(),
{
    Boid {
        speed: BoidSpeed { min: BOID_MIN_SPEED, max: BOID_MAX_SPEED },
        turning_strength: BoidTurningStrength {
            cohesion: BOID_COHESION,
            separation: BOID_SEPARATION,
            alignment: BOID_ALIGNMENT,
            border: BOID_BORDER_TURN_STRENGTH,
        },
        view_config: BoidViewConfig {
            fov: BOID_FOV,
            protected_range: BOID_PROTECTED_RANGE,
            view_range: BOID_VIEW_RANGE,
        },
    }
}

} // verus!
