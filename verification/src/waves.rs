//! Waves: a sea full of them at the start, and new ones at the lower edge
//! of the window as the whale travels.

use crate::animation::frame_count;
use crate::animation::frames_of;
use crate::animation::Animation;
use crate::animation::AnimationPlayerState;
use crate::animation::SpriteAnimationPlayer;
use crate::geometry::is_within;
use crate::geometry::Point;
use crate::rng::gen_range;
use crate::travel::TravelDistance;
use crate::units::narrow;
use crate::units::saturated;
use crate::units::UNIT;
use crate::window::halved;
use crate::window::WindowSize;
use vstd::prelude::*;

verus! {

/// The number of waves at the start.
pub const INITIAL_WAVES: usize = 30;

/// The waves at the start reach this far beyond the left and right edges.
pub const INITIAL_WAVE_MARGIN: i64 = 135_000_000;

/// The waves at the start keep this far from the upper and lower edges.
pub const INITIAL_WAVE_INSET: i64 = 32_000_000;

/// New waves reach this far beyond the left and right edges.
pub const WAVE_MARGIN: i64 = 75_000_000;

/// New waves enter this far below the lower edge.
pub const WAVE_DEPTH: i64 = 64_000_000;

/// Before this distance no new wave enters, and the first one is put off.
pub const WAVE_QUIET_DISTANCE: i64 = 1_000_000;

/// The distance of the first new wave of a leg.
pub const FIRST_WAVE: i64 = 3_000_000;

/// The distance from one new wave to the next is drawn from
/// `[WAVE_MIN_GAP, WAVE_MAX_GAP)`.
pub const WAVE_MIN_GAP: i64 = 250_000;

pub const WAVE_MAX_GAP: i64 = 1_100_000;

/// A wave is scaled by a factor drawn from
/// `[WAVE_MIN_SCALE, WAVE_MAX_SCALE)`.
pub const WAVE_MIN_SCALE: i64 = 980_000;

pub const WAVE_MAX_SCALE: i64 = 1_200_000;

/// A wave is to enter the world.
#[derive(Debug, Clone, Copy, PartialEq, Eq, Structural)]
pub struct SpawnWave {
    pub x: i64,
    pub y: i64,
    pub start_frame: usize,
    pub with_velocity: bool,
}

/// The interval of the x coordinates of waves that reach `margin` beyond
/// the edges of a window that reaches `half` to each side.
pub open spec fn wave_span(half: int, margin: int) -> (int, int) {
    (saturated(-half - margin), saturated(half + margin))
}

/// Whether `wave` is one of the waves at the start in a window of the
/// given size.
pub open spec fn is_initial_wave(size: Point, wave: SpawnWave) -> bool {
    let half = halved(size);
    let xs = wave_span(half.x as int, INITIAL_WAVE_MARGIN as int);
    let ys = wave_span(half.y as int, -INITIAL_WAVE_INSET);
    &&& xs.0 <= wave.x < xs.1
    &&& ys.0 <= wave.y < ys.1
    &&& 1 <= wave.start_frame < 8
    &&& !wave.with_velocity
}

/// Whether a window of the given size has room for the waves at the start.
pub open spec fn has_room_for_waves(size: Point) -> bool {
    let half = halved(size);
    let xs = wave_span(half.x as int, INITIAL_WAVE_MARGIN as int);
    let ys = wave_span(half.y as int, -INITIAL_WAVE_INSET);
    xs.0 < xs.1 && ys.0 < ys.1
}

fn span(half: i64, margin: i64) -> (ends: (i64, i64))
    ensures
        ends.0 == wave_span(half as int, margin as int).0,
        ends.1 == wave_span(half as int, margin as int).1,
{
    (narrow(-(half as i128) - margin as i128), narrow(half as i128 + margin as i128))
}

/// The waves at the start: `INITIAL_WAVES` of them, each at a place drawn
/// from the window and at a frame drawn from its strip; none where the
/// window has no room for them.
pub fn spawn_initial_waves(win_size: &WindowSize) -> (waves: Vec<SpawnWave>)
    ensures
        waves@.len() == if has_room_for_waves(win_size@) {
            INITIAL_WAVES as int
        } else {
            0
        },
        forall|i: int| 0 <= i < waves@.len() ==> is_initial_wave(win_size@, #[trigger] waves@[i]),
{
    let half = win_size.half();
    let xs = span(half.x, INITIAL_WAVE_MARGIN);
    let ys = span(half.y, -INITIAL_WAVE_INSET);
    let mut waves: Vec<SpawnWave> = Vec::new();
    if xs.0 >= xs.1 || ys.0 >= ys.1 {
        return waves;
    }
    let mut n: usize = 0;
    while n < INITIAL_WAVES
        invariant
            n <= INITIAL_WAVES,
            waves@.len() == n,
            half == halved(win_size@),
            xs.0 == wave_span(half.x as int, INITIAL_WAVE_MARGIN as int).0,
            xs.1 == wave_span(half.x as int, INITIAL_WAVE_MARGIN as int).1,
            ys.0 == wave_span(half.y as int, -INITIAL_WAVE_INSET).0,
            ys.1 == wave_span(half.y as int, -INITIAL_WAVE_INSET).1,
            xs.0 < xs.1,
            ys.0 < ys.1,
            forall|i: int| 0 <= i < waves@.len() ==> is_initial_wave(win_size@, #[trigger] waves@[i]),
        decreases INITIAL_WAVES - n,
    {
        let frame = gen_range(1, 8);
        waves.push(
            SpawnWave {
                x: gen_range(xs.0, xs.1),
                y: gen_range(ys.0, ys.1),
                start_frame: frame as usize,
                with_velocity: false,
            },
        );
        n += 1;
    }
    waves
}

/// The distance of the next new wave as the scheduler finds it at distance
/// `now`: put off to `FIRST_WAVE` while the leg is young.
pub open spec fn wave_due_at(next_spawn: int, now: int) -> int {
    if now < WAVE_QUIET_DISTANCE {
        FIRST_WAVE as int
    } else {
        next_spawn
    }
}

/// Whether a window that reaches `half` to each side is too small to see:
/// it is then taken to be minimised.
pub open spec fn is_minimised(half: Point) -> bool {
    is_within(half, Point { x: 0, y: 0 }, UNIT as int)
}

/// Whether a new wave can enter a window that reaches `half` to each side:
/// the window is not minimised, and there is a place along its lower edge.
pub open spec fn has_room_for_new_wave(half: Point) -> bool {
    let xs = wave_span(half.x as int, WAVE_MARGIN as int);
    !is_minimised(half) && xs.0 < xs.1
}

/// Lets a new wave enter below the lower edge of the window when one is
/// due at the distance travelled, and schedules the next one. Returns the
/// wave; none while none is due, and none while the window has no room for
/// it.
pub fn spawn_random_waves(distance: &TravelDistance, win_size: &WindowSize, next_spawn: &mut i64) -> (wave:
    Option<SpawnWave>)
    ensures
        wave_due_at(*old(next_spawn) as int, distance@.distance) > distance@.distance ==> wave
            is None && *final(next_spawn) == wave_due_at(
            *old(next_spawn) as int,
            distance@.distance,
        ),
        wave_due_at(*old(next_spawn) as int, distance@.distance) <= distance@.distance ==> {
            &&& exists|gap: int|
                WAVE_MIN_GAP <= gap < WAVE_MAX_GAP && *final(next_spawn)
                    == #[trigger] distance@.ahead(gap)
            &&& wave is Some <==> has_room_for_new_wave(halved(win_size@))
        },
        wave matches Some(new) ==> {
            let half = halved(win_size@);
            let xs = wave_span(half.x as int, WAVE_MARGIN as int);
            &&& xs.0 <= new.x < xs.1
            &&& new.y == saturated(-half.y - WAVE_DEPTH)
            &&& new.start_frame == 1
            &&& new.with_velocity
        },
{
    let now = distance.get();
    if now < WAVE_QUIET_DISTANCE {
        *next_spawn = FIRST_WAVE;
    }
    if *next_spawn > now {
        return None;
    }
    *next_spawn = distance.future_range(WAVE_MIN_GAP..WAVE_MAX_GAP);
    let half = win_size.half();
    if half.within(&Point { x: 0, y: 0 }, UNIT) {
        return None;
    }
    let xs = span(half.x, WAVE_MARGIN);
    if xs.0 >= xs.1 {
        return None;
    }
    Some(
        SpawnWave {
            x: gen_range(xs.0, xs.1),
            y: narrow(-(half.y as i128) - WAVE_DEPTH as i128),
            start_frame: 1,
            with_velocity: true,
        },
    )
}

/// The animation of a wave that enters the world, and the factor by which
/// it is scaled. A start frame that the strip of the wave does not have is
/// passed over: the wave then starts at its first frame.
pub fn spawn_wave(event: &SpawnWave) -> (wave: (SpriteAnimationPlayer, i64))
    ensures
        wave.0@ == (Animation {
            frame: if event.start_frame < frame_count(AnimationPlayerState::Wave) {
                event.start_frame as int
            } else {
                0
            },
            ..Animation::start(AnimationPlayerState::Wave, 450, false)
        }),
        WAVE_MIN_SCALE <= wave.1 < WAVE_MAX_SCALE,
{
    let mut player_animation = SpriteAnimationPlayer::wave();
    if event.start_frame < frames_of(AnimationPlayerState::Wave) {
        player_animation.set_frame(event.start_frame);
    }
    (player_animation, gen_range(WAVE_MIN_SCALE, WAVE_MAX_SCALE))
}

} // verus!
