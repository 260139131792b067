//! Rain and snow: a level that drifts upwards, starts the rain when it
//! passes a threshold, and an end that is fixed when the rain starts.

use crate::assets::SfxKey;
use crate::geometry::along;
use crate::geometry::shifted;
use crate::geometry::Point;
use crate::rng::gen_range;
use crate::sfx::FadeIn;
use crate::sfx::FadeOut;
use crate::sfx::PlaySfx;
use crate::window::halved;
use crate::window::is_inside;
use crate::window::WindowSize;
use crate::travel::TravelDistance;
use crate::units::clamp_to;
use crate::units::clamped;
use crate::units::product;
use crate::units::sat_add;
use crate::units::sat_mul;
use crate::units::sat_sub;
use crate::units::saturated;
use crate::units::UNIT;
use std::ops::Range;
use vstd::prelude::*;

verus! {

/// Rain starts when the level passes this.
pub const RAIN_THRESHOLD: i64 = 500_000;

/// From this distance on, what falls is snow.
pub const RAIN_TO_SNOW_DISTANCE: i64 = 120_000_000;

/// Rain lasts for a distance drawn from
/// `[RAIN_MIN_DURATION, RAIN_MAX_DURATION)`.
pub const RAIN_MIN_DURATION: i64 = 16_000_000;

pub const RAIN_MAX_DURATION: i64 = 25_000_000;

/// With each update the level grows by an amount drawn from
/// `[RAIN_MIN_GROWTH, RAIN_MAX_GROWTH)`.
pub const RAIN_MIN_GROWTH: i64 = 0;

pub const RAIN_MAX_GROWTH: i64 = 1_500;

/// The distance between two raindrops.
pub const RAIN_SPAWN_PERIOD: i64 = 100_000;

/// The distance between two snowflakes.
pub const SNOW_SPAWN_PERIOD: i64 = 150_000;

/// The volume at which the sound of the rain sets in.
pub const RAIN_START_VOLUME: i64 = 100_000;

/// The volume that the sound of the rain grows to.
pub const RAIN_FINAL_VOLUME: i64 = 2_500_000;

/// A new snowflake has a size drawn from
/// `[SNOWFLAKE_MIN_SCALE, SNOWFLAKE_MAX_SCALE)`.
pub const SNOWFLAKE_MIN_SCALE: i64 = 500_000;

pub const SNOWFLAKE_MAX_SCALE: i64 = 750_000;

/// A new snowflake shows a frame drawn from
/// `[SNOWFLAKE_FIRST_FRAME, SNOWFLAKE_END_FRAME)`.
pub const SNOWFLAKE_FIRST_FRAME: i64 = 8;

pub const SNOWFLAKE_END_FRAME: i64 = 15;

/// A new snowflake drifts along a direction with each coordinate drawn
/// from `[-SNOWFLAKE_DRIFT, SNOWFLAKE_DRIFT)`.
pub const SNOWFLAKE_DRIFT: i64 = 10_000_000;

/// By how much a snowflake shrinks with each frame.
pub const SNOWFLAKE_SHRINK: i64 = 1_000;

/// A snowflake smaller than this is gone.
pub const SNOWFLAKE_GONE: i64 = 10_000;

/// What a [`Raininess`] stands for.
pub struct RainState {
    /// The level, between 0 and `UNIT`.
    pub factor: int,
    /// The distance after which the rain stops; `None` while it is dry.
    pub ends: Option<int>,
}

impl RainState {
    pub open spec fn wf(self) -> bool {
        &&& 0 <= self.factor <= UNIT
        &&& self.ends matches Some(end) ==> i64::MIN <= end <= i64::MAX
    }

    pub open spec fn dry() -> RainState {
        RainState { factor: 0, ends: None }
    }

    pub open spec fn is_raining(self) -> bool {
        self.ends is Some
    }

    /// The state after one update at distance `now`: the level moves by
    /// `growth`; while it is dry, a level above the threshold starts rain
    /// that lasts for `duration`; while it rains, nothing but passing the
    /// end stops it.
    pub open spec fn step(self, now: int, growth: int, duration: int) -> RainState {
        let factor = clamped(self.factor + growth, 0, UNIT as int);
        match self.ends {
            None => if factor > RAIN_THRESHOLD {
                RainState { factor, ends: Some(saturated(now + duration)) }
            } else {
                RainState { factor, ends: None }
            },
            Some(end) => if end < now {
                RainState::dry()
            } else {
                RainState { factor, ends: Some(end) }
            },
        }
    }

    /// Whether one update starts or stops the rain.
    pub open spec fn changes(self, now: int, growth: int, duration: int) -> bool {
        self.step(now, growth, duration).is_raining() != self.is_raining()
    }
}

/// While it rains, an update before the end is passed leaves the rain on
/// and its end where it was, whatever becomes of the level; and rain never
/// starts but from dry, with the level above the threshold.
pub proof fn lemma_rain_hysteresis(state: RainState, now: int, growth: int, duration: int)
    requires
        state.wf(),
    ensures
        state.step(now, growth, duration).wf(),
        state.ends matches Some(end) ==> (now <= end ==> state.step(now, growth, duration).ends
            == Some(end)),
        state.ends matches Some(end) ==> (end < now ==> state.step(now, growth, duration)
            == RainState::dry()),
        state.is_raining() ==> state.step(now, growth, duration).ends == state.ends
            || !state.step(now, growth, duration).is_raining(),
        !state.is_raining() && state.step(now, growth, duration).is_raining() ==> state.step(
            now,
            growth,
            duration,
        ).factor > RAIN_THRESHOLD,
        !state.is_raining() && state.factor + growth <= RAIN_THRESHOLD ==> !state.step(
            now,
            growth,
            duration,
        ).is_raining(),
{
}

/// One update of the rain: the distance at which it is made, and what was
/// drawn for it.
pub struct RainStep {
    pub now: int,
    pub growth: int,
    pub duration: int,
}

impl RainState {
    /// The state after each of `steps` in turn.
    pub open spec fn step_all(self, steps: Seq<RainStep>) -> RainState
        decreases steps.len(),
    {
        if steps.len() == 0 {
            self
        } else {
            self.step(steps[0].now, steps[0].growth, steps[0].duration).step_all(
                steps.drop_first(),
            )
        }
    }
}

/// Rain that has started goes on, with its end where it was fixed, through
/// any number of updates made before that end has been passed.
pub proof fn lemma_rain_lasts_to_its_end(state: RainState, end: int, steps: Seq<RainStep>)
    requires
        state.ends == Some(end),
        forall|i: int| 0 <= i < steps.len() ==> (#[trigger] steps[i]).now <= end,
    ensures
        state.step_all(steps).ends == Some(end),
    decreases steps.len(),
{
    if steps.len() > 0 {
        let next = state.step(steps[0].now, steps[0].growth, steps[0].duration);
        assert forall|i: int| 0 <= i < steps.drop_first().len() implies (#[trigger] steps.drop_first()[i]).now
            <= end by {
            assert(steps.drop_first()[i] == steps[i + 1]);
        }
        lemma_rain_lasts_to_its_end(next, end, steps.drop_first());
    }
}

/// The rain level and, while it rains, the distance after which it stops.
#[derive(Debug)]
pub struct Raininess {
    factor: i64,
    time_rain_ends: Option<i64>,
}

impl View for Raininess {
    type V = RainState;

    closed spec fn view(&self) -> RainState {
        RainState {
            factor: self.factor as int,
            ends: match self.time_rain_ends {
                Some(end) => Some(end as int),
                None => None,
            },
        }
    }
}

/// Rain has started or stopped.
#[derive(Debug, Clone, Copy, PartialEq, Eq, Structural)]
pub struct RainChanged {
    pub is_raining: bool,
}

impl Raininess {
    #[verifier::type_invariant]
    spec fn inv(self) -> bool {
        0 <= self.factor <= UNIT
    }

    /// Dry weather.
    pub fn new() -> (raininess: Self)
        ensures
            raininess@ == RainState::dry(),
    {
        Raininess { factor: 0, time_rain_ends: None }
    }

    /// Updates the rain status for a drawn growth and a drawn duration and
    /// returns true if the status changed.
    pub fn step(&mut self, now: i64, growth: i64, duration: i64) -> (changed: bool)
        ensures
            final(self)@ == old(self)@.step(now as int, growth as int, duration as int),
            changed == old(self)@.changes(now as int, growth as int, duration as int),
            final(self)@.wf(),
    {
        proof {
            use_type_invariant(&*self);
        }
        let factor = clamp_to(sat_add(self.factor, growth), 0, UNIT);
        match self.time_rain_ends {
            None => {
                if factor > RAIN_THRESHOLD {
                    *self = Raininess { factor, time_rain_ends: Some(sat_add(now, duration)) };
                    true
                } else {
                    *self = Raininess { factor, time_rain_ends: None };
                    false
                }
            },
            Some(end) => {
                if end < now {
                    *self = Raininess { factor: 0, time_rain_ends: None };
                    true
                } else {
                    *self = Raininess { factor, time_rain_ends: Some(end) };
                    false
                }
            },
        }
    }

    /// Updates the rain status and returns true if the status changed.
    pub fn update(&mut self, distance: &TravelDistance, delta: Range<i64>) -> (changed: bool)
        requires
            delta.start < delta.end,
        ensures
            exists|growth: int, duration: int|
                delta.start <= growth < delta.end && RAIN_MIN_DURATION <= duration
                    < RAIN_MAX_DURATION && final(self)@ == #[trigger] old(self)@.step(
                    distance@.distance,
                    growth,
                    duration,
                ) && changed == old(self)@.changes(distance@.distance, growth, duration),
            final(self)@.wf(),
    {
        let growth = gen_range(delta.start, delta.end);
        let duration = gen_range(RAIN_MIN_DURATION, RAIN_MAX_DURATION);
        let changed = self.step(distance.get(), growth, duration);
        assert(self@ == old(self)@.step(distance@.distance, growth as int, duration as int));
        changed
    }

    pub fn is_raining(&self) -> (raining: bool)
        ensures
            raining == self@.is_raining(),
    {
        self.time_rain_ends.is_some()
    }

    pub fn factor(&self) -> (factor: i64)
        ensures
            factor == self@.factor,
            0 <= factor <= UNIT,
    {
        proof {
            use_type_invariant(self);
        }
        self.factor
    }

    pub fn reset(&mut self)
        ensures
            final(self)@ == RainState::dry(),
    {
        *self = Raininess { factor: 0, time_rain_ends: None };
    }
}

/// Makes the weather dry.
pub fn reset_raininess(raininess: &mut Raininess)
    ensures
        final(raininess)@ == RainState::dry(),
{
    raininess.reset();
}

/// Updates the rain at the usual growth and reports a start or a stop of
/// the rain, once for each.
pub fn update_raininess(distance: &TravelDistance, raininess: &mut Raininess) -> (event: Option<
    RainChanged,
>)
    ensures
        exists|growth: int, duration: int|
            RAIN_MIN_GROWTH <= growth < RAIN_MAX_GROWTH && RAIN_MIN_DURATION <= duration
                < RAIN_MAX_DURATION && final(raininess)@ == #[trigger] old(raininess)@.step(
                distance@.distance,
                growth,
                duration,
            ),
        event is Some <==> final(raininess)@.is_raining() != old(raininess)@.is_raining(),
        event matches Some(changed) ==> changed.is_raining == final(raininess)@.is_raining(),
{
    if raininess.update(distance, RAIN_MIN_GROWTH..RAIN_MAX_GROWTH) {
        Some(RainChanged { is_raining: raininess.is_raining() })
    } else {
        None
    }
}

/// What falls: every `period` of distance one more drop or flake, the
/// next one at `next`.
pub struct Fall {
    pub period: int,
    pub next: int,
}

impl Fall {
    /// Whether a drop or flake is due at distance `now`.
    pub open spec fn is_due(self, now: int) -> bool {
        self.next <= now
    }

    /// The fall after one drop or flake.
    pub open spec fn dropped(self) -> Fall {
        Fall { next: saturated(self.next + self.period), ..self }
    }
}

/// Rain that is falling.
#[derive(Debug, Clone, Copy)]
pub struct Rain {
    spawn_period: i64,
    next_spawn: i64,
}

/// Snow that is falling.
#[derive(Debug, Clone, Copy)]
pub struct Snow {
    spawn_period: i64,
    next_spawn: i64,
}

impl View for Rain {
    type V = Fall;

    closed spec fn view(&self) -> Fall {
        Fall { period: self.spawn_period as int, next: self.next_spawn as int }
    }
}

impl View for Snow {
    type V = Fall;

    closed spec fn view(&self) -> Fall {
        Fall { period: self.spawn_period as int, next: self.next_spawn as int }
    }
}

impl Rain {
    pub fn new(spawn_period: i64, next_spawn: i64) -> (rain: Self)
        ensures
            rain@ == (Fall { period: spawn_period as int, next: next_spawn as int }),
    {
        Rain { spawn_period, next_spawn }
    }
}

impl Snow {
    pub fn new(spawn_period: i64, next_spawn: i64) -> (snow: Self)
        ensures
            snow@ == (Fall { period: spawn_period as int, next: next_spawn as int }),
    {
        Snow { spawn_period, next_spawn }
    }
}

/// What is to be done when the rain has started or stopped.
#[derive(Debug, Clone, Copy)]
pub enum RainResponse {
    /// Let rain fall, with the sound that belongs to it.
    StartRain { rain: Rain, ambience: PlaySfx },
    /// Let snow fall.
    StartSnow { snow: Snow },
    /// Remove what falls; the sound of rain fades out.
    Clear { fade: FadeOut },
}

/// The sound that sets in with the rain.
pub open spec fn rain_ambience() -> PlaySfx {
    PlaySfx {
        volume: RAIN_START_VOLUME,
        fade_in: Some(FadeIn { final_volume: RAIN_FINAL_VOLUME, rate_per_second: UNIT }),
        ..PlaySfx::plain(SfxKey::RainAmbient, false)
    }
}

/// Decides what is to be done when the rain has started or stopped: rain
/// falls before `RAIN_TO_SNOW_DISTANCE` and snow from there on.
pub fn handle_rain_changed(event: &RainChanged, distance: &TravelDistance) -> (response:
    RainResponse)
    ensures
        event.is_raining && distance@.distance < RAIN_TO_SNOW_DISTANCE ==> (response
            matches RainResponse::StartRain { rain, ambience } && rain@ == (Fall {
            period: RAIN_SPAWN_PERIOD as int,
            next: 0,
        }) && ambience == rain_ambience()),
        event.is_raining && distance@.distance >= RAIN_TO_SNOW_DISTANCE ==> (response
            matches RainResponse::StartSnow { snow } && snow@ == (Fall {
            period: SNOW_SPAWN_PERIOD as int,
            next: 0,
        })),
        !event.is_raining ==> (response matches RainResponse::Clear { fade } && fade == (FadeOut {
            rate_per_second: UNIT,
        })),
{
    if event.is_raining {
        if distance.get() < RAIN_TO_SNOW_DISTANCE {
            RainResponse::StartRain {
                rain: Rain::new(RAIN_SPAWN_PERIOD, 0),
                ambience: PlaySfx::once(SfxKey::RainAmbient).with_volume(
                    RAIN_START_VOLUME,
                ).with_fade_in(FadeIn { final_volume: RAIN_FINAL_VOLUME, rate_per_second: UNIT }),
            }
        } else {
            RainResponse::StartSnow { snow: Snow::new(SNOW_SPAWN_PERIOD, 0) }
        }
    } else {
        RainResponse::Clear { fade: FadeOut { rate_per_second: UNIT } }
    }
}

/// Lets one raindrop fall if one is due at the distance travelled. Returns
/// where it falls. Nothing falls, and nothing changes, where the window has
/// no area.
pub fn spawn_rain_drops(distance: &TravelDistance, win_size: &WindowSize, rain: &mut Rain) -> (drop:
    Option<Point>)
    ensures
        drop is Some <==> old(rain)@.is_due(distance@.distance) && halved(win_size@).x > 0
            && halved(win_size@).y > 0,
        drop matches Some(at) ==> is_inside(halved(win_size@), at),
        final(rain)@ == if drop is Some {
            old(rain)@.dropped()
        } else {
            old(rain)@
        },
{
    if rain.next_spawn > distance.get() {
        return None;
    }
    let position = win_size.get_random_position();
    if position.is_some() {
        rain.next_spawn = sat_add(rain.next_spawn, rain.spawn_period);
    }
    position
}

/// By how much the direction of a snowflake changes with each frame at
/// most, along each axis.
pub const SNOWFLAKE_TURN: i64 = 100_000;

/// How fast a snowflake drifts.
pub const SNOWFLAKE_SPEED: i64 = 30_000_000;

/// A snowflake: how fast it shrinks, and the direction of its drift, of
/// length one.
#[derive(Debug, Clone, Copy, PartialEq, Eq, Structural)]
pub struct Snowflake {
    pub shrink_per_frame: i64,
    pub velocity: Point,
}

/// A snowflake as it enters the world.
#[derive(Debug, Clone, Copy, PartialEq, Eq, Structural)]
pub struct NewSnowflake {
    pub position: Point,
    pub scale: i64,
    /// The frame shown, in the atlas.
    pub index: i64,
    pub snowflake: Snowflake,
}

impl NewSnowflake {
    /// What holds of every new snowflake in a window that reaches `half` to
    /// each side.
    pub open spec fn wf(self, half: Point) -> bool {
        &&& is_inside(half, self.position)
        &&& SNOWFLAKE_MIN_SCALE <= self.scale < SNOWFLAKE_MAX_SCALE
        &&& SNOWFLAKE_FIRST_FRAME <= self.index < SNOWFLAKE_END_FRAME
        &&& self.snowflake.shrink_per_frame == SNOWFLAKE_SHRINK
        &&& exists|dx: int, dy: int|
            -SNOWFLAKE_DRIFT <= dx < SNOWFLAKE_DRIFT && -SNOWFLAKE_DRIFT <= dy < SNOWFLAKE_DRIFT
                && self.snowflake.velocity == along(
                #[trigger] shifted(Point { x: 0, y: 0 }, dx, dy),
                UNIT as int,
            )
    }
}

/// Lets one snowflake fall if one is due at the distance travelled. Returns
/// the snowflake. Nothing falls, and nothing changes, where the window has
/// no area.
pub fn spawn_snow_flakes(distance: &TravelDistance, win_size: &WindowSize, snow: &mut Snow) -> (flake:
    Option<NewSnowflake>)
    ensures
        flake is Some <==> old(snow)@.is_due(distance@.distance) && halved(win_size@).x > 0
            && halved(win_size@).y > 0,
        flake matches Some(new) ==> new.wf(halved(win_size@)),
        final(snow)@ == if flake is Some {
            old(snow)@.dropped()
        } else {
            old(snow)@
        },
{
    if snow.next_spawn > distance.get() {
        return None;
    }
    match win_size.get_random_position() {
        Some(position) => {
            snow.next_spawn = sat_add(snow.next_spawn, snow.spawn_period);
            let scale = gen_range(SNOWFLAKE_MIN_SCALE, SNOWFLAKE_MAX_SCALE);
            let index = gen_range(SNOWFLAKE_FIRST_FRAME, SNOWFLAKE_END_FRAME);
            let dx = gen_range(-SNOWFLAKE_DRIFT, SNOWFLAKE_DRIFT);
            let dy = gen_range(-SNOWFLAKE_DRIFT, SNOWFLAKE_DRIFT);
            let direction = Point { x: 0, y: 0 }.offset(dx, dy);
            assert(direction == shifted(Point { x: 0, y: 0 }, dx as int, dy as int));
            Some(
                NewSnowflake {
                    position,
                    scale,
                    index,
                    snowflake: Snowflake {
                        shrink_per_frame: SNOWFLAKE_SHRINK,
                        velocity: direction.along(UNIT),
                    },
                },
            )
        },
        None => None,
    }
}

/// How far a snowflake drifts along one axis in `dt` seconds.
pub open spec fn drift(velocity: int, dt: int) -> int {
    saturated(product(saturated(product(SNOWFLAKE_SPEED as int, velocity)), dt))
}

/// The direction of a snowflake after it has turned by `(dx, dy)`: of
/// length one again.
pub open spec fn turned(velocity: Point, dx: int, dy: int) -> Point {
    along(shifted(velocity, dx, dy), UNIT as int)
}

/// The size of a snowflake after one frame: none when it is gone.
pub open spec fn shrunk(snowflake: Snowflake, scale: int) -> Option<int> {
    if saturated(scale - snowflake.shrink_per_frame) < SNOWFLAKE_GONE {
        None
    } else {
        Some(saturated(scale - snowflake.shrink_per_frame))
    }
}

/// Lets a snowflake at `position` of size `scale` drift for `dt` seconds,
/// turn by what was drawn for it, and shrink by one frame. Returns where it
/// is then and its new size, or none when it is gone.
pub fn animate_snow_flake(
    snowflake: &mut Snowflake,
    position: Point,
    scale: i64,
    dt: i64,
    turn: Point,
) -> (next: Option<(Point, i64)>)
    ensures
        final(snowflake).shrink_per_frame == old(snowflake).shrink_per_frame,
        final(snowflake).velocity == turned(old(snowflake).velocity, turn.x as int, turn.y as int),
        next is Some <==> shrunk(*old(snowflake), scale as int) is Some,
        next matches Some(flake) ==> flake.0 == shifted(
            position,
            drift(old(snowflake).velocity.x as int, dt as int),
            drift(old(snowflake).velocity.y as int, dt as int),
        ) && Some(flake.1 as int) == shrunk(*old(snowflake), scale as int),
{
    let moved = position.offset(
        sat_mul(sat_mul(SNOWFLAKE_SPEED, snowflake.velocity.x), dt),
        sat_mul(sat_mul(SNOWFLAKE_SPEED, snowflake.velocity.y), dt),
    );
    snowflake.velocity = snowflake.velocity.offset(turn.x, turn.y).along(UNIT);
    let next = sat_sub(scale, snowflake.shrink_per_frame);
    if next < SNOWFLAKE_GONE {
        None
    } else {
        Some((moved, next))
    }
}

/// Lets a snowflake at `position` of size `scale` drift for `dt` seconds,
/// turn a little, and shrink by one frame. Returns where it is then and
/// its new size, or none when it is gone.
pub fn animate_snow_flakes(snowflake: &mut Snowflake, position: Point, scale: i64, dt: i64) -> (next:
    Option<(Point, i64)>)
    ensures
        final(snowflake).shrink_per_frame == old(snowflake).shrink_per_frame,
        exists|dx: int, dy: int|
            -SNOWFLAKE_TURN <= dx < SNOWFLAKE_TURN && -SNOWFLAKE_TURN <= dy < SNOWFLAKE_TURN
                && final(snowflake).velocity == #[trigger] turned(old(snowflake).velocity, dx, dy),
        next is Some <==> shrunk(*old(snowflake), scale as int) is Some,
        next matches Some(flake) ==> flake.0 == shifted(
            position,
            drift(old(snowflake).velocity.x as int, dt as int),
            drift(old(snowflake).velocity.y as int, dt as int),
        ) && Some(flake.1 as int) == shrunk(*old(snowflake), scale as int),
{
    let turn = Point {
        x: gen_range(-SNOWFLAKE_TURN, SNOWFLAKE_TURN),
        y: gen_range(-SNOWFLAKE_TURN, SNOWFLAKE_TURN),
    };
    let next = animate_snow_flake(snowflake, position, scale, dt, turn);
    assert(snowflake.velocity == turned(old(snowflake).velocity, turn.x as int, turn.y as int));
    next
}

} // verus!
