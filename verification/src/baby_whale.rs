//! The baby whale: it joins the whale at a flip if an adult whale was met on
//! the leg before, and leaves when its time has come.

use crate::geometry::shifted;
use crate::geometry::Point;
use crate::movement::follow;
use crate::movement::pursuit;
use crate::movement::MoveTowardsLocation;
use crate::movement::WHALE_TRAVEL_SPEED;
use crate::window::halved;
use crate::window::is_exit;
use crate::window::WindowSize;
use crate::rng::gen_range;
use crate::travel::TravelDistance;
use crate::units::sat_add;
use crate::units::saturated;
use vstd::prelude::*;

verus! {

/// How far above the whale a baby whale enters the world.
pub const BABY_WHALE_SPAWN_DISTANCE: i64 = 20_000_000;

/// A baby whale stays for a distance drawn from
/// `[BABY_WHALE_MIN_STAY, BABY_WHALE_MAX_STAY)`.
pub const BABY_WHALE_MIN_STAY: i64 = 35_000_000;

pub const BABY_WHALE_MAX_STAY: i64 = 55_000_000;

/// A baby whale keeps this close to the point it follows.
pub const BABY_FOLLOWING_DISTANCE: i64 = 50_000_000;

/// Whether an adult whale was met on this leg, and when the baby whale of
/// this leg leaves.
#[derive(Debug, Clone, Copy, PartialEq, Eq, Structural)]
pub struct BabyWhaleStatus {
    pub departure_time: i64,
    pub has_whale: bool,
}

impl Default for BabyWhaleStatus {
    fn default() -> (status: Self)
        ensures
            status == (BabyWhaleStatus { departure_time: 0, has_whale: false }),
    {
        BabyWhaleStatus { departure_time: 0, has_whale: false }
    }
}

/// The status after a flip at distance `now`: a whale that was met is used
/// up for a baby whale that stays for `stay`.
pub open spec fn status_after_flip(status: BabyWhaleStatus, now: int, stay: int) -> BabyWhaleStatus {
    if status.has_whale {
        BabyWhaleStatus { departure_time: saturated(now + stay) as i64, has_whale: false }
    } else {
        BabyWhaleStatus { departure_time: 0, has_whale: false }
    }
}

/// Where the baby whale of a flip enters the world: above the whale, if a
/// whale was met and the whale is there.
pub open spec fn baby_spawn_point(status: BabyWhaleStatus, whale: Option<Point>) -> Option<Point> {
    match whale {
        Some(at) if status.has_whale => Some(shifted(at, 0, BABY_WHALE_SPAWN_DISTANCE as int)),
        _ => None,
    }
}

/// Handles a flip at distance `now` for a drawn stay. Returns where to
/// spawn a baby whale, if one is to be spawned.
pub fn spawn_baby_on_flip_for(
    baby: &mut BabyWhaleStatus,
    now: i64,
    stay: i64,
    whale: Option<Point>,
) -> (spawn_at: Option<Point>)
    ensures
        *final(baby) == status_after_flip(*old(baby), now as int, stay as int),
        spawn_at == baby_spawn_point(*old(baby), whale),
{
    if baby.has_whale {
        baby.departure_time = sat_add(now, stay);
        baby.has_whale = false;
    } else {
        baby.departure_time = 0;
        return None;
    }
    match whale {
        Some(at) => Some(at.offset(0, BABY_WHALE_SPAWN_DISTANCE)),
        None => None,
    }
}

/// Handles a flip at distance `now`: if a whale was met, the baby whale's
/// departure is set to a distance drawn from
/// `[now + BABY_WHALE_MIN_STAY, now + BABY_WHALE_MAX_STAY)`, and no baby
/// whale is spawned on the next flip. Returns where to spawn a baby whale,
/// if one is to be spawned.
pub fn spawn_baby_on_flip(baby: &mut BabyWhaleStatus, now: i64, whale: Option<Point>) -> (spawn_at:
    Option<Point>)
    ensures
        exists|stay: int|
            BABY_WHALE_MIN_STAY <= stay < BABY_WHALE_MAX_STAY && *final(baby)
                == #[trigger] status_after_flip(*old(baby), now as int, stay),
        spawn_at == baby_spawn_point(*old(baby), whale),
{
    let stay = gen_range(BABY_WHALE_MIN_STAY, BABY_WHALE_MAX_STAY);
    let spawn_at = spawn_baby_on_flip_for(baby, now, stay, whale);
    assert(*baby == status_after_flip(*old(baby), now as int, stay as int));
    spawn_at
}

/// A whale that is a baby until it leaves.
#[derive(Debug, Clone, Copy, PartialEq, Eq, Structural)]
pub struct BabyWhale {
    pub is_baby: bool,
}

impl BabyWhale {
    pub fn new() -> (baby: Self)
        ensures
            baby.is_baby,
    {
        BabyWhale { is_baby: true }
    }

    /// Lets the baby whale leave once the distance travelled has reached its
    /// departure. Returns whether it leaves now: it is then a baby no more
    /// and heads for a place outside the window.
    pub fn depart_baby_whale(&mut self, baby_stats: &BabyWhaleStatus, distance: &TravelDistance) -> (left:
        bool)
        ensures
            final(self).is_baby == (old(self).is_baby && distance@.distance
                < baby_stats.departure_time),
            left == (old(self).is_baby && distance@.distance >= baby_stats.departure_time),
    {
        if self.is_baby && baby_stats.departure_time <= distance.get() {
            self.is_baby = false;
            true
        } else {
            false
        }
    }

    /// The velocity with which a baby whale at `position` follows a whale
    /// at `whale` with heading `up`; `None` for one that has left.
    pub fn baby_follows_adult_whale(&self, whale: Point, up: Point, position: Point) -> (next: Option<
        Point,
    >)
        ensures
            next == if self.is_baby {
                Some(pursuit(whale, up, position, BABY_FOLLOWING_DISTANCE as int))
            } else {
                None
            },
    {
        if self.is_baby {
            Some(follow(whale, up, position, BABY_FOLLOWING_DISTANCE))
        } else {
            None
        }
    }
}

/// Lets the baby whale leave once the distance travelled has reached its
/// departure, and sends it to a place outside the window: returns where it
/// swims. Nothing happens to the baby whale while the window has no edge
/// for it to cross.
pub fn depart_baby_whale(
    baby: &mut BabyWhale,
    win_size: &WindowSize,
    distance: &TravelDistance,
    baby_stats: &BabyWhaleStatus,
) -> (mover: Option<MoveTowardsLocation>)
    ensures
        mover is Some ==> old(baby).is_baby && !final(baby).is_baby && distance@.distance
            >= baby_stats.departure_time,
        mover is None ==> *final(baby) == *old(baby),
        mover matches Some(details) ==> details.speed == WHALE_TRAVEL_SPEED && is_exit(
            halved(win_size@),
            details.target,
        ),
        old(baby).is_baby && distance@.distance >= baby_stats.departure_time && halved(win_size@).x
            > 0 && halved(win_size@).y > 0 ==> mover is Some,
{
    if !baby.is_baby || baby_stats.departure_time > distance.get() {
        return None;
    }
    match win_size.get_random_position_outside() {
        Some(target) => {
            baby.depart_baby_whale(baby_stats, distance);
            Some(MoveTowardsLocation { target, speed: WHALE_TRAVEL_SPEED })
        },
        None => None,
    }
}

} // verus!
