//! The day / night cycle for the background colours.

use crate::rng::gen_ratio;
use crate::units::lemma_product_fits;
use crate::units::product;
use crate::units::UNIT;
use vstd::prelude::*;

verus! {

/// The amount of world time, in hours, that elapses per game second.
pub const TIME_OF_DAY_HOURS_PER_GAME_SECONDS: i64 = 400_000;

/// The number of colours in a cycle.
pub const NUM_COLOURS: usize = 8;

/// The hours from one colour of a cycle to the next.
pub const HOURS_PER_COLOUR: i64 = 3_000_000;

/// The hours in a day.
pub const HOURS_PER_DAY: i64 = 24_000_000;

/// Out of five days, this many are sunny.
pub const SUNNY_IN_FIVE: u32 = 4;

/// The time of day at the start of every leg.
pub const INITIAL_TIME_OF_DAY: i64 = 6_000_000;

/// A colour: each channel between 0 and `UNIT`.
#[derive(Debug, Clone, Copy, PartialEq, Eq, Structural)]
pub struct Colour {
    pub r: i64,
    pub g: i64,
    pub b: i64,
}

impl Colour {
    /// Colours with every channel between 0 and `UNIT`.
    pub open spec fn wf(self) -> bool {
        0 <= self.r <= UNIT && 0 <= self.g <= UNIT && 0 <= self.b <= UNIT
    }
}

/// The colours of a sunny day, from midnight on in steps of
/// `HOURS_PER_COLOUR`.
pub open spec fn sunny_color_cycle() -> Seq<Colour> {
    seq![
        Colour { r: 741_176, g: 741_176, b: 780_392 },
        Colour { r: 807_843, g: 803_922, b: 768_627 },
        Colour { r: 901_961, g: 901_961, b: 823_529 },
        Colour { r: 968_627, g: 968_627, b: 858_824 },
        Colour { r: 976_471, g: 976_471, b: 847_059 },
        Colour { r: 968_627, g: 941_176, b: 917_647 },
        Colour { r: 858_824, g: 823_529, b: 843_137 },
        Colour { r: 741_176, g: 741_176, b: 815_686 },
    ]
}

/// The colours of a stormy day, from midnight on in steps of
/// `HOURS_PER_COLOUR`.
pub open spec fn stormy_color_cycle() -> Seq<Colour> {
    seq![
        Colour { r: 741_176, g: 741_176, b: 780_392 },
        Colour { r: 807_843, g: 803_922, b: 768_627 },
        Colour { r: 901_961, g: 901_961, b: 823_529 },
        Colour { r: 968_627, g: 968_627, b: 858_824 },
        Colour { r: 976_471, g: 976_471, b: 847_059 },
        Colour { r: 968_627, g: 941_176, b: 917_647 },
        Colour { r: 858_824, g: 823_529, b: 843_137 },
        Colour { r: 741_176, g: 741_176, b: 815_686 },
    ]
}

/// Whether a cycle has `NUM_COLOURS` colours, all of them well-formed.
pub open spec fn is_cycle(colours: Seq<Colour>) -> bool {
    &&& colours.len() == NUM_COLOURS
    &&& forall|i: int| 0 <= i < colours.len() ==> (#[trigger] colours[i]).wf()
}

/// The value `share` of the way from `from` to `to`, where `span` is the
/// whole way; rounded towards `from`.
pub open spec fn lerp(from: int, to: int, share: int, span: int) -> int {
    from + crate::units::div_toward_zero((to - from) * share, span)
}

/// The colour `share` of the way from `from` to `to`, where `span` is the
/// whole way.
pub open spec fn blend(from: Colour, to: Colour, share: int, span: int) -> Colour {
    Colour {
        r: lerp(from.r as int, to.r as int, share, span) as i64,
        g: lerp(from.g as int, to.g as int, share, span) as i64,
        b: lerp(from.b as int, to.b as int, share, span) as i64,
    }
}

/// What a [`WeatherState`] stands for.
pub struct Sky {
    pub sunny: Seq<Colour>,
    pub stormy: Seq<Colour>,
    pub is_sunny: bool,
    /// Hours since midnight.
    pub time_of_day: int,
}

impl Sky {
    pub open spec fn wf(self) -> bool {
        &&& is_cycle(self.sunny)
        &&& is_cycle(self.stormy)
        &&& 0 <= self.time_of_day < HOURS_PER_DAY
    }

    /// The sky at the start of a journey.
    pub open spec fn initial() -> Sky {
        Sky {
            sunny: sunny_color_cycle(),
            stormy: stormy_color_cycle(),
            is_sunny: true,
            time_of_day: INITIAL_TIME_OF_DAY as int,
        }
    }

    /// The hours that pass in `dt` game seconds: none where `dt` is not
    /// positive.
    pub open spec fn elapsed(dt: int) -> int {
        if dt > 0 {
            product(dt, TIME_OF_DAY_HOURS_PER_GAME_SECONDS as int)
        } else {
            0
        }
    }

    /// Whether midnight passes within the next `dt` game seconds.
    pub open spec fn wraps(self, dt: int) -> bool {
        self.time_of_day + Sky::elapsed(dt) >= HOURS_PER_DAY
    }

    /// The sky after `dt` game seconds: the time of day moves on around the
    /// clock, and on passing midnight the day becomes sunny or not as
    /// `sunny` says.
    pub open spec fn advance(self, dt: int, sunny: bool) -> Sky {
        Sky {
            time_of_day: (self.time_of_day + Sky::elapsed(dt)) % (HOURS_PER_DAY as int),
            is_sunny: if self.wraps(dt) {
                sunny
            } else {
                self.is_sunny
            },
            ..self
        }
    }

    /// The cycle of today's weather.
    pub open spec fn cycle(self) -> Seq<Colour> {
        if self.is_sunny {
            self.sunny
        } else {
            self.stormy
        }
    }

    /// The colour of the sky: between the colour of the cycle that was
    /// reached last and the one that comes next, by the share of
    /// `HOURS_PER_COLOUR` that has passed since.
    pub open spec fn colour(self) -> Colour {
        let from = self.time_of_day / (HOURS_PER_COLOUR as int);
        let to = (from + 1) % (NUM_COLOURS as int);
        blend(
            self.cycle()[from],
            self.cycle()[to],
            self.time_of_day % (HOURS_PER_COLOUR as int),
            HOURS_PER_COLOUR as int,
        )
    }
}

/// A value between two values lies between them.
proof fn lemma_lerp_between(from: int, to: int, share: int, span: int)
    requires
        0 <= share < span,
    ensures
        from <= to ==> from <= lerp(from, to, share, span) <= to,
        to <= from ==> to <= lerp(from, to, share, span) <= from,
{
    let d = to - from;
    if d >= 0 {
        assert(0 <= d * share <= d * span) by (nonlinear_arith)
            requires
                0 <= d,
                0 <= share < span,
        ;
        assert(0 <= (d * share) / span <= d) by (nonlinear_arith)
            requires
                0 <= d * share <= d * span,
                0 < span,
        ;
    } else {
        let e = -d;
        assert(-(d * share) == e * share) by (nonlinear_arith)
            requires
                e == -d,
        ;
        assert(0 <= e * share <= e * span) by (nonlinear_arith)
            requires
                0 <= e,
                0 <= share < span,
        ;
        assert(0 <= (e * share) / span <= e) by (nonlinear_arith)
            requires
                0 <= e * share <= e * span,
                0 < span,
        ;
    }
}

/// The colour of the sky is a colour: every channel lies between those of
/// the two colours it is blended from.
pub proof fn lemma_colour_is_wf(sky: Sky)
    requires
        sky.wf(),
    ensures
        sky.colour().wf(),
{
    let from = sky.time_of_day / (HOURS_PER_COLOUR as int);
    let to = (from + 1) % (NUM_COLOURS as int);
    let share = sky.time_of_day % (HOURS_PER_COLOUR as int);
    let a = sky.cycle()[from];
    let b = sky.cycle()[to];
    assert(a.wf() && b.wf());
    lemma_lerp_between(a.r as int, b.r as int, share, HOURS_PER_COLOUR as int);
    lemma_lerp_between(a.g as int, b.g as int, share, HOURS_PER_COLOUR as int);
    lemma_lerp_between(a.b as int, b.b as int, share, HOURS_PER_COLOUR as int);
}

/// The colours of a sunny day.
pub fn sunny_colours() -> (cycle: [Colour; 8])
    ensures
        cycle@ == sunny_color_cycle(),
{
    let cycle = [
        Colour { r: 741_176, g: 741_176, b: 780_392 },
        Colour { r: 807_843, g: 803_922, b: 768_627 },
        Colour { r: 901_961, g: 901_961, b: 823_529 },
        Colour { r: 968_627, g: 968_627, b: 858_824 },
        Colour { r: 976_471, g: 976_471, b: 847_059 },
        Colour { r: 968_627, g: 941_176, b: 917_647 },
        Colour { r: 858_824, g: 823_529, b: 843_137 },
        Colour { r: 741_176, g: 741_176, b: 815_686 },
    ];
    assert(cycle@ =~= sunny_color_cycle());
    cycle
}

/// The colours of a stormy day.
pub fn stormy_colours() -> (cycle: [Colour; 8])
    ensures
        cycle@ == stormy_color_cycle(),
{
    let cycle = [
        Colour { r: 741_176, g: 741_176, b: 780_392 },
        Colour { r: 807_843, g: 803_922, b: 768_627 },
        Colour { r: 901_961, g: 901_961, b: 823_529 },
        Colour { r: 968_627, g: 968_627, b: 858_824 },
        Colour { r: 976_471, g: 976_471, b: 847_059 },
        Colour { r: 968_627, g: 941_176, b: 917_647 },
        Colour { r: 858_824, g: 823_529, b: 843_137 },
        Colour { r: 741_176, g: 741_176, b: 815_686 },
    ];
    assert(cycle@ =~= stormy_color_cycle());
    cycle
}

/// The weather of the day and the time of day.
pub struct WeatherState {
    sunny: [Colour; 8],
    stormy: [Colour; 8],
    is_sunny: bool,
    time_of_day: i64,
}

impl View for WeatherState {
    type V = Sky;

    closed spec fn view(&self) -> Sky {
        Sky {
            sunny: self.sunny@,
            stormy: self.stormy@,
            is_sunny: self.is_sunny,
            time_of_day: self.time_of_day as int,
        }
    }
}

impl Default for WeatherState {
    fn default() -> (weather: Self)
        ensures
            weather@ == Sky::initial(),
    {
        WeatherState {
            sunny: sunny_colours(),
            stormy: stormy_colours(),
            is_sunny: true,
            time_of_day: INITIAL_TIME_OF_DAY,
        }
    }
}

/// One channel of a blend.
fn lerp_channel(from: i64, to: i64, share: i64) -> (value: i64)
    requires
        0 <= from <= UNIT,
        0 <= to <= UNIT,
        0 <= share < HOURS_PER_COLOUR,
    ensures
        value == lerp(from as int, to as int, share as int, HOURS_PER_COLOUR as int),
        0 <= value <= UNIT,
{
    proof {
        lemma_product_fits((to - from) as int, share as int);
        lemma_lerp_between(from as int, to as int, share as int, HOURS_PER_COLOUR as int);
    }
    let moved: i128 = ((to - from) as i128) * (share as i128) / (HOURS_PER_COLOUR as i128);
    (from as i128 + moved) as i64
}

impl WeatherState {
    #[verifier::type_invariant]
    spec fn inv(self) -> bool {
        self@.wf()
    }

    pub fn is_sunny(&self) -> (sunny: bool)
        ensures
            sunny == self@.is_sunny,
    {
        self.is_sunny
    }

    /// The hours since midnight.
    pub fn time_of_day(&self) -> (hours: i64)
        ensures
            hours == self@.time_of_day,
            self@.wf(),
    {
        proof {
            use_type_invariant(self);
        }
        self.time_of_day
    }

    /// Puts the clock back to the hour at which every leg starts.
    pub fn reset_time_of_day(&mut self)
        ensures
            final(self)@ == (Sky { time_of_day: INITIAL_TIME_OF_DAY as int, ..old(self)@ }),
    {
        proof {
            use_type_invariant(&*self);
        }
        *self = WeatherState {
            sunny: self.sunny,
            stormy: self.stormy,
            is_sunny: self.is_sunny,
            time_of_day: INITIAL_TIME_OF_DAY,
        };
    }

    /// Lets `dt` game seconds pass; `sunny` decides the weather of a day
    /// that begins.
    pub fn advance(&mut self, dt: i64, sunny: bool)
        ensures
            final(self)@ == old(self)@.advance(dt as int, sunny),
            final(self)@.wf(),
    {
        proof {
            use_type_invariant(&*self);
        }
        let elapsed: i128 = if dt > 0 {
            proof {
                lemma_product_fits(dt as int, TIME_OF_DAY_HOURS_PER_GAME_SECONDS as int);
            }
            (dt as i128) * (TIME_OF_DAY_HOURS_PER_GAME_SECONDS as i128) / (UNIT as i128)
        } else {
            0
        };
        let sum: i128 = self.time_of_day as i128 + elapsed;
        let wrapped = sum >= HOURS_PER_DAY as i128;
        *self = WeatherState {
            sunny: self.sunny,
            stormy: self.stormy,
            is_sunny: if wrapped {
                sunny
            } else {
                self.is_sunny
            },
            time_of_day: (sum % (HOURS_PER_DAY as i128)) as i64,
        };
    }

    /// The colour of the sky.
    pub fn colour(&self) -> (colour: Colour)
        ensures
            colour == self@.colour(),
            colour.wf(),
    {
        proof {
            use_type_invariant(self);
            lemma_colour_is_wf(self@);
        }
        let from_idx = (self.time_of_day / HOURS_PER_COLOUR) as usize;
        let to_idx = (from_idx + 1) % NUM_COLOURS;
        let share = self.time_of_day % HOURS_PER_COLOUR;
        let from = if self.is_sunny {
            self.sunny[from_idx]
        } else {
            self.stormy[from_idx]
        };
        let to = if self.is_sunny {
            self.sunny[to_idx]
        } else {
            self.stormy[to_idx]
        };
        assert(from == self@.cycle()[from_idx as int]);
        assert(to == self@.cycle()[to_idx as int]);
        assert(from.wf() && to.wf());
        Colour {
            r: lerp_channel(from.r, to.r, share),
            g: lerp_channel(from.g, to.g, share),
            b: lerp_channel(from.b, to.b, share),
        }
    }
}

/// The colour that the sky has now.
#[derive(Debug, Clone, Copy, PartialEq, Eq, Structural)]
pub struct DayNightColour(pub Colour);

/// Lets `dt` game seconds pass for a drawn weather of the next day, and
/// records the colour of the sky. Returns that colour, for the background.
pub fn day_night_cycle_with(dt: i64, sunny: bool, dnc: &mut DayNightColour, weather: &mut WeatherState) -> (clear_colour:
    Colour)
    ensures
        final(weather)@ == old(weather)@.advance(dt as int, sunny),
        clear_colour == final(weather)@.colour(),
        final(dnc).0 == clear_colour,
        clear_colour.wf(),
{
    weather.advance(dt, sunny);
    let colour = weather.colour();
    dnc.0 = colour;
    colour
}

/// Lets `dt` game seconds pass and records the colour of the sky. A day
/// that begins is sunny four times out of five. Returns the colour, for
/// the background.
pub fn day_night_cycle(dt: i64, dnc: &mut DayNightColour, weather: &mut WeatherState) -> (clear_colour:
    Colour)
    ensures
        final(weather)@ == old(weather)@.advance(dt as int, true) || final(weather)@ == old(
            weather,
        )@.advance(dt as int, false),
        clear_colour == final(weather)@.colour(),
        final(dnc).0 == clear_colour,
        clear_colour.wf(),
{
    let sunny = gen_ratio(SUNNY_IN_FIVE, 5);
    day_night_cycle_with(dt, sunny, dnc, weather)
}

/// Gives every tint the colour of the sky.
pub fn tint_with_day_night_cycle(dnc: &DayNightColour, tinters: &mut Vec<Colour>)
    ensures
        final(tinters)@.len() == old(tinters)@.len(),
        forall|i: int| 0 <= i < final(tinters)@.len() ==> final(tinters)@[i] == dnc.0,
{
    let mut i: usize = 0;
    while i < tinters.len()
        invariant
            i <= tinters@.len(),
            tinters@.len() == old(tinters)@.len(),
            forall|j: int| 0 <= j < i ==> tinters@[j] == dnc.0,
        decreases tinters@.len() - i,
    {
        tinters[i] = dnc.0;
        i += 1;
    }
}

} // verus!
