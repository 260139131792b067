//! How creatures move: speeds, following the whale, arriving, and leaving
//! the window.

use crate::animation::FAST_WHALE_FRAME_MILLIS;
use crate::animation::WHALE_FRAME_MILLIS;
use crate::geometry::along;
use crate::geometry::difference;
use crate::geometry::moved_towards;
use crate::geometry::is_within;
use crate::geometry::shifted;
use crate::geometry::Point;
use crate::units::product;
use crate::units::sat_mul;
use crate::units::sat_scale;
use crate::units::saturated;
use crate::units::UNIT;
use crate::window::clamped_to_screen;
use crate::window::halved;
use crate::window::Val;
use crate::window::WindowSize;
use vstd::prelude::*;

verus! {

/// How fast the whale travels around the screen.
pub const WHALE_TRAVEL_SPEED: i64 = 400_000;

/// How far the whale turns with each step while it is steered.
pub const WHALE_TURN_SPEED: i64 = 30_000;

/// The share of the window, from its edge, that the whale keeps out of.
pub const WHALE_SCREEN_BUFFER_FRACTION: i64 = 300_000;

/// How far outside the window a creature may be before it is removed.
pub const WINDOW_DESPAWN_BUFFER: i64 = 150_000_000;

/// A creature that follows the whale aims at the point this many lengths of
/// the whale's heading ahead of the whale.
pub const FOLLOW_LEAD: i64 = 10;

/// How fast a creature follows the whale: a little slower than the whale.
pub const FOLLOW_SPEED: i64 = 392_000;

/// A creature that moves towards a target has arrived when it is closer to
/// it than this.
pub const ARRIVAL_DISTANCE: i64 = 1_000_000;

/// An intent or a turn smaller than this counts as none.
pub const DEAD_ZONE: i64 = 10_000;

/// How fast the whale drifts forward when it is not steered back.
pub const DRIFT: i64 = 250_000;

/// The buffer at the edge of the window that the whale keeps out of, in
/// hundredths of the window.
pub const WHALE_SCREEN_BUFFER_PERCENT: i64 = 30_000_000;

/// The point that a follower of the whale aims at, for a whale at `whale`
/// with heading `up`.
pub open spec fn follow_target(whale: Point, up: Point) -> Point {
    shifted(whale, saturated(up.x * FOLLOW_LEAD), saturated(up.y * FOLLOW_LEAD))
}

/// The velocity of a follower at `follower`: within `distance` of its
/// target it drifts against the whale's heading, as the water does; further
/// away it heads for the target. Either way at `FOLLOW_SPEED`.
pub open spec fn pursuit(whale: Point, up: Point, follower: Point, distance: int) -> Point {
    let target = follow_target(whale, up);
    if is_within(target, follower, distance) {
        Point {
            x: saturated(product(up.x as int, -FOLLOW_SPEED)) as i64,
            y: saturated(product(up.y as int, -FOLLOW_SPEED)) as i64,
        }
    } else {
        along(difference(target, follower), FOLLOW_SPEED as int)
    }
}

/// The velocity with which a follower of the whale moves next.
pub fn follow(whale: Point, up: Point, follower: Point, distance: i64) -> (velocity: Point)
    ensures
        velocity == pursuit(whale, up, follower, distance as int),
{
    let target = whale.offset(sat_scale(up.x, FOLLOW_LEAD), sat_scale(up.y, FOLLOW_LEAD));
    if target.within(&follower, distance) {
        Point { x: sat_mul(up.x, -FOLLOW_SPEED), y: sat_mul(up.y, -FOLLOW_SPEED) }
    } else {
        follower.way_to(target).along(FOLLOW_SPEED)
    }
}

/// Whether a creature at `position` that moves towards `target` has
/// arrived.
pub fn has_arrived(position: Point, target: Point) -> (arrived: bool)
    ensures
        arrived == is_within(position, target, ARRIVAL_DISTANCE as int),
{
    position.within(&target, ARRIVAL_DISTANCE)
}

/// Whether `position` lies more than `WINDOW_DESPAWN_BUFFER` outside a
/// window that reaches `half` to each side of the origin.
pub open spec fn is_out_of_view(position: Point, half: Point) -> bool {
    ||| position.x < -half.x - WINDOW_DESPAWN_BUFFER
    ||| position.x > half.x + WINDOW_DESPAWN_BUFFER
    ||| position.y < -half.y - WINDOW_DESPAWN_BUFFER
    ||| position.y > half.y + WINDOW_DESPAWN_BUFFER
}

/// Whether a creature at `position` has left the window, with its buffer,
/// and is to be removed.
pub fn despawn_out_of_view(position: Point, half_size: Point) -> (out: bool)
    ensures
        out == is_out_of_view(position, half_size),
{
    let x = position.x as i128;
    let y = position.y as i128;
    let half_x = half_size.x as i128;
    let half_y = half_size.y as i128;
    let buffer = WINDOW_DESPAWN_BUFFER as i128;
    x < -half_x - buffer || x > half_x + buffer || y < -half_y - buffer || y > half_y + buffer
}

/// Moves towards the given location until it is reached.
#[derive(Debug, Clone, Copy, PartialEq, Eq, Structural)]
pub struct MoveTowardsLocation {
    pub target: Point,
    pub speed: i64,
}

/// A creature has reached the location it moved towards.
#[derive(Debug, Clone, Copy, PartialEq, Eq, Structural)]
pub struct ArrivedAtLocation;

/// Moves with the given velocity.
#[derive(Debug, Clone, Copy, PartialEq, Eq, Structural)]
pub struct MoveWithVelocity(pub Point);

/// The keys that steer the whale, each pressed or not.
#[derive(Debug, Clone, Copy, PartialEq, Eq, Structural)]
pub struct SteeringKeys {
    pub left: bool,
    pub right: bool,
    pub up: bool,
    pub down: bool,
}

/// How far the keys push to the right.
pub open spec fn sideways(keys: SteeringKeys) -> int {
    (if keys.right {
        UNIT as int
    } else {
        0
    }) - (if keys.left {
        UNIT as int
    } else {
        0
    })
}

/// The intent that the keys stand for. The whale drifts forward unless it
/// is steered back, by the down key, or by the up key while the view is
/// flipped; left and right change sides with the view.
pub open spec fn intent_of(keys: SteeringKeys, flipped: bool) -> Point {
    let back = if flipped {
        keys.up
    } else {
        keys.down
    };
    Point {
        x: (if flipped {
            -sideways(keys)
        } else {
            sideways(keys)
        }) as i64,
        y: if back {
            (-UNIT) as i64
        } else {
            DRIFT
        },
    }
}

/// Whether the keys turn the whale: the hints on how to steer can then go.
pub open spec fn turns(keys: SteeringKeys) -> bool {
    keys.left != keys.right
}

/// Translates the keys pressed into an intent. Returns the intent, and
/// whether the whale is turned.
pub fn update_movement_intent(keys: SteeringKeys, is_flipped: bool) -> (outcome: (Point, bool))
    ensures
        outcome.0 == intent_of(keys, is_flipped),
        outcome.1 == turns(keys),
{
    let mut x: i64 = 0;
    let mut y: i64 = DRIFT;
    if keys.left {
        x -= UNIT;
    }
    if keys.right {
        x += UNIT;
    }
    if is_flipped {
        if keys.up {
            y = -UNIT;
        }
    } else if keys.down {
        y = -UNIT;
    }
    let turned = x > DEAD_ZONE || x < -DEAD_ZONE;
    if is_flipped {
        x = -x;
    }
    (Point { x, y }, turned)
}

/// The position of a creature after one step with its velocity.
pub fn move_with_velocity(position: Point, details: &MoveWithVelocity) -> (moved: Point)
    ensures
        moved == shifted(position, details.0.x as int, details.0.y as int),
{
    position.offset(details.0.x, details.0.y)
}

/// Moves a creature one step towards its location. Returns where it is
/// then, with the event that it has arrived if it is within
/// `ARRIVAL_DISTANCE` of the location.
pub fn move_towards_location(position: Point, details: &MoveTowardsLocation) -> (step: (
    Point,
    Option<ArrivedAtLocation>,
))
    ensures
        step.0 == moved_towards(position, details.target, details.speed as int),
        step.1 is Some <==> is_within(step.0, details.target, ARRIVAL_DISTANCE as int),
{
    let moved = position.move_towards(details.target, details.speed);
    let event = if has_arrived(moved, details.target) {
        Some(ArrivedAtLocation)
    } else {
        None
    };
    (moved, event)
}

/// The time that one frame of the swimming whale is shown: shorter while
/// it is steered back.
pub fn swim_frame_interval(intent_y: i64) -> (millis: u64)
    ensures
        millis == if intent_y < DEAD_ZONE {
            FAST_WHALE_FRAME_MILLIS
        } else {
            WHALE_FRAME_MILLIS
        },
{
    if intent_y < DEAD_ZONE {
        FAST_WHALE_FRAME_MILLIS
    } else {
        WHALE_FRAME_MILLIS
    }
}

/// Where a whale at `position` with heading `up` is after one step with
/// the intent `intent_y` along its heading: kept within the window, the
/// buffer away from its edge.
pub open spec fn whale_moved(size: Point, position: Point, up: Point, intent_y: int) -> Point {
    let speed = saturated(product(WHALE_TRAVEL_SPEED as int, intent_y));
    clamped_to_screen(
        halved(size),
        shifted(
            position,
            saturated(product(up.x as int, speed)),
            saturated(product(up.y as int, speed)),
        ),
        Val::Percent(WHALE_SCREEN_BUFFER_PERCENT),
    )
}

/// Moves the whale one step along its heading.
pub fn move_whale(win_size: &WindowSize, position: Point, up: Point, intent_y: i64) -> (moved: Point)
    ensures
        moved == whale_moved(win_size@, position, up, intent_y as int),
{
    let speed = sat_mul(WHALE_TRAVEL_SPEED, intent_y);
    win_size.clamp_to_screen_with_buffer(
        position.offset(sat_mul(up.x, speed), sat_mul(up.y, speed)),
        Val::Percent(WHALE_SCREEN_BUFFER_PERCENT),
    )
}

} // verus!
