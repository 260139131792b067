//! The flip: when the end of a leg is seen, the view fades out, everything
//! is put back for the next leg in one step, and the view fades in turned
//! round.

use crate::day_night_cycle::Sky;
use crate::day_night_cycle::WeatherState;
use crate::day_night_cycle::INITIAL_TIME_OF_DAY;
use crate::encounters::EncounterTimers;
use crate::encounters::Schedule;
use crate::geometry::Point;
use crate::player::WhaleRotation;
use crate::rain::RainState;
use crate::rain::Raininess;
use crate::splash::Fade;
use crate::splash::UiImageFadeInOut;
use crate::travel::flip_message;
use crate::travel::TravelDistance;
use crate::units::product;
use crate::units::sat_mul;
use crate::units::saturated;
use crate::window::halved;
use crate::window::WindowSize;
use vstd::prelude::*;

verus! {

/// The seconds that the view takes to fade out, and to fade in again.
pub const FLIP_FADE_DURATION: i64 = 1_000_000;

/// The seconds from the start of the fade out to the end of the fade in.
pub const FLIP_TOTAL_DURATION: i64 = 3_000_000;

/// The seconds from the start of the fade out to the flip itself.
pub const FLIP_DELAY: i64 = 1_500_000;

/// After a flip the whale is at this share of the window's half height.
pub const WHALE_RESTART_HEIGHT: i64 = 800_000;

/// Whether the view is turned round.
#[derive(Debug, Clone, Copy, PartialEq, Eq, Structural)]
pub struct IsFlipped(bool);

impl View for IsFlipped {
    type V = bool;

    closed spec fn view(&self) -> bool {
        self.0
    }
}

impl IsFlipped {
    pub fn new(flipped: bool) -> (is_flipped: Self)
        ensures
            is_flipped@ == flipped,
    {
        IsFlipped(flipped)
    }

    pub fn get_flipped(&self) -> (flipped: bool)
        ensures
            flipped == self@,
    {
        self.0
    }

    pub fn toggle(&mut self)
        ensures
            final(self)@ == !old(self)@,
    {
        self.0 = !self.0;
    }
}

/// The end of the leg has been seen: flip, and show this text meanwhile.
#[derive(Debug)]
pub struct DoFlip {
    pub flip_text: String,
}

/// Everything has been put back for the next leg.
#[derive(Debug, Clone, Copy, PartialEq, Eq, Structural)]
pub struct FlipComplete;

/// Counts down to the flip itself, in the middle of the fade.
#[derive(Debug, Clone, Copy, PartialEq, Eq, Structural)]
pub struct FlipTimer {
    /// The seconds that the timer is set to.
    pub seconds: i64,
}

/// Advances the travel distance and asks for a flip on the advance that
/// first sees the end of the leg behind it.
pub fn update_travel_distance(distance: &mut TravelDistance, delta: i64) -> (flip: Option<DoFlip>)
    ensures
        final(distance)@ == old(distance)@.advance(delta as int),
        flip is Some <==> old(distance)@.fires(delta as int),
        flip matches Some(request) ==> request.flip_text@ == flip_message(old(distance)@.flips),
{
    if distance.update(delta) {
        Some(DoFlip { flip_text: distance.get_message() })
    } else {
        None
    }
}

/// Puts the travel distance back to the start of a journey.
pub fn reset_travel_distance(distance: &mut TravelDistance)
    ensures
        final(distance)@ == crate::travel::Clock::start(),
{
    *distance = TravelDistance::default();
}

/// Starts a flip unless one is under way: the view fades to the flip's
/// text and back, and a timer runs to the moment of the flip itself.
pub fn perform_direction_switch_with_fade(existing_flip_timers: usize) -> (start: Option<
    (UiImageFadeInOut, FlipTimer),
>)
    ensures
        start is Some <==> existing_flip_timers == 0,
        start matches Some(started) ==> started.0@ == (Fade {
            total_duration: FLIP_TOTAL_DURATION as int,
            fade_duration: FLIP_FADE_DURATION as int,
            t: 0,
        }) && started.1.seconds == FLIP_DELAY,
{
    if existing_flip_timers != 0 {
        return None;
    }
    Some(
        (
            UiImageFadeInOut::new(FLIP_FADE_DURATION, FLIP_TOTAL_DURATION),
            FlipTimer { seconds: FLIP_DELAY },
        ),
    )
}

/// Where the whale is put at the start of a leg, in a window of the given
/// size.
pub open spec fn whale_restart(size: Point) -> Point {
    Point { x: 0, y: saturated(product(WHALE_RESTART_HEIGHT as int, halved(size).y as int)) as i64 }
}

/// Performs the flip when its timer has just finished: the view is turned
/// round, the next leg starts at distance 0, the encounters are scheduled
/// for the new heading, the weather is dry, the day starts over, and the
/// whale heads straight on. Returns where the whale is put, with the
/// notice that the flip is complete; nothing while the timer runs, and
/// nothing changes then.
pub fn update_flip_timer(
    just_finished: bool,
    win_size: &WindowSize,
    is_flipped: &mut IsFlipped,
    distance: &mut TravelDistance,
    encounters: &mut EncounterTimers,
    raininess: &mut Raininess,
    weather: &mut WeatherState,
    whale_rot: &mut WhaleRotation,
) -> (done: Option<(Point, FlipComplete)>)
    requires
        old(distance)@.flips < u32::MAX,
    ensures
        done is Some <==> just_finished,
        !just_finished ==> {
            &&& final(is_flipped)@ == old(is_flipped)@
            &&& final(distance)@ == old(distance)@
            &&& final(encounters)@ == old(encounters)@
            &&& final(raininess)@ == old(raininess)@
            &&& final(weather)@ == old(weather)@
            &&& *final(whale_rot) == *old(whale_rot)
        },
        just_finished ==> {
            &&& final(is_flipped)@ == !old(is_flipped)@
            &&& final(distance)@ == old(distance)@.reset()
            &&& final(encounters)@ == Schedule::for_leg(old(distance)@.reset().direction())
            &&& final(raininess)@ == RainState::dry()
            &&& final(weather)@ == (Sky {
                time_of_day: INITIAL_TIME_OF_DAY as int,
                ..old(weather)@
            })
            &&& *final(whale_rot) == (WhaleRotation { current_rotation: 0, target_rotation: 0 })
            &&& done == Some((whale_restart(win_size@), FlipComplete))
        },
{
    if !just_finished {
        return None;
    }
    is_flipped.toggle();
    distance.reset_timer();
    encounters.reset(distance.travel_direction());
    raininess.reset();
    weather.reset_time_of_day();
    whale_rot.current_rotation = 0;
    whale_rot.target_rotation = 0;
    let half = win_size.half();
    Some((Point { x: 0, y: sat_mul(WHALE_RESTART_HEIGHT, half.y) }, FlipComplete))
}

/// Turns the view back the right way up when the game is left.
pub fn hard_reset_flippables(flipper: &mut IsFlipped)
    ensures
        !final(flipper)@,
{
    *flipper = IsFlipped::new(false);
}

/// Turns the view round for the first leg.
pub fn set_up_flippables_for_gameplay(flipper: &mut IsFlipped)
    ensures
        final(flipper)@,
{
    *flipper = IsFlipped::new(true);
}

/// Draws every flippable sprite upside down while the view is turned
/// round.
pub fn set_flippable_components(is_flipped: &IsFlipped, flippables: &mut Vec<bool>)
    ensures
        final(flippables)@.len() == old(flippables)@.len(),
        forall|i: int| 0 <= i < final(flippables)@.len() ==> final(flippables)@[i] == is_flipped@,
{
    let flipped = is_flipped.get_flipped();
    let mut i: usize = 0;
    while i < flippables.len()
        invariant
            i <= flippables@.len(),
            flippables@.len() == old(flippables)@.len(),
            forall|j: int| 0 <= j < i ==> flippables@[j] == flipped,
        decreases flippables@.len() - i,
    {
        flippables[i] = flipped;
        i += 1;
    }
}

} // verus!
