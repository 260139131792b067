//! The encounter scheduler: when each kind of creature is next due, and how
//! the next time is drawn once one has appeared.

use crate::rng::gen_range;
use crate::rng::gen_ratio;
use crate::travel::TravelDirection;
use crate::travel::TravelDistance;
use crate::units::clamped;
use crate::units::div_toward_zero;
use crate::units::lemma_product_fits;
use crate::units::sat_add;
use crate::units::saturated;
use std::ops::Range;
use vstd::prelude::*;

verus! {

/// The shortest time between two encounters of one kind.
pub const MIN_STEP: i64 = 1_000_000;

/// The longest time between two encounters of one kind.
pub const MAX_STEP: i64 = 100_000_000;

/// Heading south, no ship is scheduled once one has appeared after this
/// distance.
pub const SHIP_CUTOFF: i64 = 65_000_000;

/// Heading north, no iceberg is scheduled once one has appeared after this
/// distance.
pub const ICEBERG_CUTOFF: i64 = 40_000_000;

/// When the first adult whale of a journey is due.
pub const INITIAL_ADULT_SPAWN: i64 = 37_500_000;

/// Later adult whales are due at a distance drawn from this interval.
pub const ADULT_SPAWN_EARLIEST: i64 = 23_000_000;

pub const ADULT_SPAWN_LATEST: i64 = 39_000_000;

/// The divisor of a slope: a slope of `UNIT` lengthens the time to the next
/// encounter by a hundredth of the distance travelled.
pub const SLOPE_SCALE: i128 = 100_000_000;

/// The kinds of creature that the whale meets.
#[derive(Debug, Clone, Copy, PartialEq, Eq, Structural)]
pub enum EncounterType {
    Bird,
    Fish,
    Ship,
    Iceberg,
    AdultWhale,
    BabyWhale,
}

impl Default for EncounterType {
    fn default() -> (kind: Self)
        ensures
            kind == EncounterType::Bird,
    {
        EncounterType::Bird
    }
}

/// A request to bring one creature of the given kind into the world.
#[derive(Debug, Clone, Copy, PartialEq, Eq, Structural)]
pub struct SpawnEncounter {
    pub encounter_type: EncounterType,
}

/// What an [`EncounterSpawnRate`] stands for.
pub struct Rate {
    pub slope: int,
    /// Intercepts are drawn from `[lo, hi)`.
    pub lo: int,
    pub hi: int,
}

impl Rate {
    pub open spec fn wf(self) -> bool {
        &&& i64::MIN <= self.slope <= i64::MAX
        &&& i64::MIN <= self.lo < self.hi <= i64::MAX
    }

    /// Whether `intercept` can be drawn.
    pub open spec fn admits(self, intercept: int) -> bool {
        self.lo <= intercept < self.hi
    }

    /// The time from `t` to the next encounter: linear in `t`, and held
    /// within `[MIN_STEP, MAX_STEP]`.
    pub open spec fn step(self, t: int, intercept: int) -> int {
        clamped(
            div_toward_zero(t * self.slope, SLOPE_SCALE as int) + intercept,
            MIN_STEP as int,
            MAX_STEP as int,
        )
    }

    /// The time of the next encounter after one at `t`, stopping at the end
    /// of the `i64` range.
    pub open spec fn next_spawn(self, t: int, intercept: int) -> int {
        saturated(t + self.step(t, intercept))
    }
}

/// How the time to the next encounter of one kind grows with the distance
/// travelled.
pub struct EncounterSpawnRate {
    slope: i64,
    intercept: Range<i64>,
}

impl View for EncounterSpawnRate {
    type V = Rate;

    closed spec fn view(&self) -> Rate {
        Rate {
            slope: self.slope as int,
            lo: self.intercept.start as int,
            hi: self.intercept.end as int,
        }
    }
}

impl EncounterSpawnRate {
    #[verifier::type_invariant]
    spec fn inv(self) -> bool {
        self.intercept.start < self.intercept.end
    }

    pub fn new(slope: i64, intercept: Range<i64>) -> (rate: Self)
        requires
            intercept.start < intercept.end,
        ensures
            rate@ == (Rate {
                slope: slope as int,
                lo: intercept.start as int,
                hi: intercept.end as int,
            }),
            rate@.wf(),
    {
        EncounterSpawnRate { slope, intercept }
    }

    /// Draws an intercept.
    pub fn draw(&self) -> (intercept: i64)
        ensures
            self@.admits(intercept as int),
            self@.wf(),
    {
        proof {
            use_type_invariant(self);
        }
        gen_range(self.intercept.start, self.intercept.end)
    }

    /// The time of the next encounter after one at `t`, for a drawn
    /// intercept.
    pub fn next_spawn_with(&self, t: i64, intercept: i64) -> (next: i64)
        ensures
            next == self@.next_spawn(t as int, intercept as int),
    {
        proof {
            lemma_product_fits(t as int, self.slope as int);
        }
        let product: i128 = (t as i128) * (self.slope as i128);
        let raw: i128 = product / SLOPE_SCALE + (intercept as i128);
        let step: i64 = if raw < MIN_STEP as i128 {
            MIN_STEP
        } else if raw > MAX_STEP as i128 {
            MAX_STEP
        } else {
            raw as i64
        };
        sat_add(t, step)
    }

    /// The time of the next encounter after one at `t`.
    pub fn next_spawn(&self, t: i64) -> (next: i64)
        ensures
            exists|intercept: int|
                self@.admits(intercept) && next == #[trigger] self@.next_spawn(t as int, intercept),
            t + MAX_STEP <= i64::MAX ==> t + MIN_STEP <= next <= t + MAX_STEP,
    {
        let intercept = self.draw();
        let next = self.next_spawn_with(t, intercept);
        assert(next == self@.next_spawn(t as int, intercept as int));
        next
    }
}

/// The rates of one kind of encounter, one for each heading.
pub struct Rates {
    pub north: Rate,
    pub south: Rate,
}

impl Rates {
    pub open spec fn wf(self) -> bool {
        self.north.wf() && self.south.wf()
    }

    /// The rate on the given heading.
    pub open spec fn of(self, direction: TravelDirection) -> Rate {
        match direction {
            TravelDirection::North => self.north,
            TravelDirection::South => self.south,
        }
    }
}

/// The rates of one kind of encounter, one for each heading.
pub struct EncounterConfig {
    north: EncounterSpawnRate,
    south: EncounterSpawnRate,
}

impl View for EncounterConfig {
    type V = Rates;

    closed spec fn view(&self) -> Rates {
        Rates { north: self.north@, south: self.south@ }
    }
}

impl EncounterConfig {
    pub fn new(north: EncounterSpawnRate, south: EncounterSpawnRate) -> (config: Self)
        ensures
            config@ == (Rates { north: north@, south: south@ }),
    {
        EncounterConfig { north, south }
    }

    /// The rate on the given heading.
    pub fn get(&self, direction: TravelDirection) -> (rate: &EncounterSpawnRate)
        ensures
            rate@ == self@.of(direction),
    {
        match direction {
            TravelDirection::North => &self.north,
            TravelDirection::South => &self.south,
        }
    }
}

/// One intercept for each kind of encounter that a rate schedules.
#[derive(Debug, Clone, Copy)]
pub struct Intercepts {
    pub bird: i64,
    pub fish: i64,
    pub ship: i64,
    pub iceberg: i64,
}

/// What an [`EncounterTimers`] stands for: for each kind of encounter the
/// distance at which the next one is due, if one is scheduled, and the rates
/// by which the one after it is scheduled.
pub struct Schedule {
    pub bird: Option<int>,
    pub fish: Option<int>,
    pub ship: Option<int>,
    pub iceberg: Option<int>,
    pub adult_whale: Option<int>,
    pub bird_rates: Rates,
    pub fish_rates: Rates,
    pub ship_rates: Rates,
    pub iceberg_rates: Rates,
}

/// Whether an encounter scheduled for `timer` is due at `now`.
pub open spec fn is_due(timer: Option<int>, now: int) -> bool {
    timer matches Some(at) && at <= now
}

/// The timer of a kind of encounter after the scheduler has looked at it at
/// `now`: unchanged until it is due; then drawn anew from `rate`, or cleared
/// where the kind is `suppressed` for the rest of the leg.
pub open spec fn rescheduled(
    timer: Option<int>,
    now: int,
    rate: Rate,
    intercept: int,
    suppressed: bool,
) -> Option<int> {
    if !is_due(timer, now) {
        timer
    } else if suppressed {
        None
    } else {
        Some(rate.next_spawn(now, intercept))
    }
}

impl Schedule {
    pub open spec fn wf(self) -> bool {
        &&& self.bird_rates.wf()
        &&& self.fish_rates.wf()
        &&& self.ship_rates.wf()
        &&& self.iceberg_rates.wf()
    }

    /// The timers and rates at the start of a journey.
    pub open spec fn initial() -> Schedule {
        Schedule {
            bird: Some(12_000_000),
            fish: Some(17_000_000),
            ship: Some(45_000_000),
            iceberg: Some(1_000_000),
            adult_whale: None,
            bird_rates: Rates {
                north: Rate { slope: 0, lo: 18_000_000, hi: 22_000_000 },
                south: Rate { slope: 0, lo: 18_000_000, hi: 24_000_000 },
            },
            fish_rates: Rates {
                north: Rate { slope: 0, lo: 12_000_000, hi: 22_000_000 },
                south: Rate { slope: 0, lo: 12_000_000, hi: 22_000_000 },
            },
            ship_rates: Rates {
                north: Rate { slope: -24_000_000, lo: 40_000_000, hi: 50_000_000 },
                south: Rate { slope: -24_000_000, lo: 40_000_000, hi: 50_000_000 },
            },
            iceberg_rates: Rates {
                north: Rate { slope: 34_000_000, lo: -7_000_000, hi: -3_000_000 },
                south: Rate { slope: -67_000_000, lo: 2_000_000, hi: 5_000_000 },
            },
        }
    }

    /// The timers and rates at the start of a leg: heading south, the first
    /// iceberg comes late.
    pub open spec fn for_leg(direction: TravelDirection) -> Schedule {
        Schedule {
            iceberg: match direction {
                TravelDirection::North => Some(1_000_000),
                TravelDirection::South => Some(65_000_000),
            },
            ..Schedule::initial()
        }
    }

    /// Whether each of `draws` can be drawn from its kind's rate on the
    /// given heading.
    pub open spec fn admits(self, direction: TravelDirection, draws: Intercepts) -> bool {
        &&& self.bird_rates.of(direction).admits(draws.bird as int)
        &&& self.fish_rates.of(direction).admits(draws.fish as int)
        &&& self.ship_rates.of(direction).admits(draws.ship as int)
        &&& self.iceberg_rates.of(direction).admits(draws.iceberg as int)
    }

    /// The encounters due at `now`, in the order bird, fish, ship, iceberg,
    /// adult whale.
    pub open spec fn requests(self, now: int) -> Seq<SpawnEncounter> {
        let none = Seq::<SpawnEncounter>::empty();
        let bird = if is_due(self.bird, now) {
            none.push(SpawnEncounter { encounter_type: EncounterType::Bird })
        } else {
            none
        };
        let fish = if is_due(self.fish, now) {
            bird.push(SpawnEncounter { encounter_type: EncounterType::Fish })
        } else {
            bird
        };
        let ship = if is_due(self.ship, now) {
            fish.push(SpawnEncounter { encounter_type: EncounterType::Ship })
        } else {
            fish
        };
        let iceberg = if is_due(self.iceberg, now) {
            ship.push(SpawnEncounter { encounter_type: EncounterType::Iceberg })
        } else {
            ship
        };
        if is_due(self.adult_whale, now) {
            iceberg.push(SpawnEncounter { encounter_type: EncounterType::AdultWhale })
        } else {
            iceberg
        }
    }

    /// The schedule after the encounters due at `now` have been requested:
    /// each of them is scheduled anew by its rate and its draw. Ships end
    /// for the leg after `SHIP_CUTOFF` heading south, icebergs after
    /// `ICEBERG_CUTOFF` heading north, and an adult whale comes once.
    pub open spec fn tick(self, now: int, direction: TravelDirection, draws: Intercepts) -> Schedule {
        Schedule {
            bird: rescheduled(
                self.bird,
                now,
                self.bird_rates.of(direction),
                draws.bird as int,
                false,
            ),
            fish: rescheduled(
                self.fish,
                now,
                self.fish_rates.of(direction),
                draws.fish as int,
                false,
            ),
            ship: rescheduled(
                self.ship,
                now,
                self.ship_rates.of(direction),
                draws.ship as int,
                direction == TravelDirection::South && now > SHIP_CUTOFF,
            ),
            iceberg: rescheduled(
                self.iceberg,
                now,
                self.iceberg_rates.of(direction),
                draws.iceberg as int,
                direction == TravelDirection::North && now > ICEBERG_CUTOFF,
            ),
            adult_whale: if is_due(self.adult_whale, now) {
                None
            } else {
                self.adult_whale
            },
            ..self
        }
    }

    /// The schedule with an adult whale due at `time`.
    pub open spec fn with_adult_spawn(self, time: int) -> Schedule {
        Schedule { adult_whale: Some(time), ..self }
    }

    /// The schedule after a flip has completed: an adult whale is planned
    /// only heading north, and then after the first flip or when the coin
    /// says so.
    pub open spec fn plan_adult(
        self,
        direction: TravelDirection,
        flips: nat,
        coin: bool,
        time: int,
    ) -> Schedule {
        if direction == TravelDirection::North && (flips == 1 || coin) {
            self.with_adult_spawn(time)
        } else {
            self
        }
    }
}

/// The integer behind an optional timer.
pub open spec fn timer_view(timer: Option<i64>) -> Option<int> {
    match timer {
        Some(at) => Some(at as int),
        None => None,
    }
}

/// The distance at which the next encounter of each kind is due, and the
/// rates by which the one after it is scheduled.
pub struct EncounterTimers {
    bird: Option<i64>,
    fish: Option<i64>,
    ship: Option<i64>,
    iceberg: Option<i64>,
    adult_whale: Option<i64>,
    bird_config: EncounterConfig,
    fish_config: EncounterConfig,
    ship_config: EncounterConfig,
    iceberg_config: EncounterConfig,
}

impl View for EncounterTimers {
    type V = Schedule;

    closed spec fn view(&self) -> Schedule {
        Schedule {
            bird: timer_view(self.bird),
            fish: timer_view(self.fish),
            ship: timer_view(self.ship),
            iceberg: timer_view(self.iceberg),
            adult_whale: timer_view(self.adult_whale),
            bird_rates: self.bird_config@,
            fish_rates: self.fish_config@,
            ship_rates: self.ship_config@,
            iceberg_rates: self.iceberg_config@,
        }
    }
}

impl Default for EncounterTimers {
    fn default() -> (timers: Self)
        ensures
            timers@ == Schedule::initial(),
    {
        EncounterTimers {
            bird: Some(12_000_000),
            fish: Some(17_000_000),
            ship: Some(45_000_000),
            iceberg: Some(1_000_000),
            adult_whale: None,
            bird_config: EncounterConfig::new(
                EncounterSpawnRate::new(0, 18_000_000..22_000_000),
                EncounterSpawnRate::new(0, 18_000_000..24_000_000),
            ),
            fish_config: EncounterConfig::new(
                EncounterSpawnRate::new(0, 12_000_000..22_000_000),
                EncounterSpawnRate::new(0, 12_000_000..22_000_000),
            ),
            ship_config: EncounterConfig::new(
                EncounterSpawnRate::new(-24_000_000, 40_000_000..50_000_000),
                EncounterSpawnRate::new(-24_000_000, 40_000_000..50_000_000),
            ),
            iceberg_config: EncounterConfig::new(
                EncounterSpawnRate::new(34_000_000, -7_000_000..-3_000_000),
                EncounterSpawnRate::new(-67_000_000, 2_000_000..5_000_000),
            ),
        }
    }
}

/// Schedules one kind of encounter anew if it is due.
fn reschedule(
    timer: Option<i64>,
    now: i64,
    rate: &EncounterSpawnRate,
    intercept: i64,
    suppressed: bool,
) -> (next: Option<i64>)
    ensures
        timer_view(next) == rescheduled(
            timer_view(timer),
            now as int,
            rate@,
            intercept as int,
            suppressed,
        ),
{
    match timer {
        Some(at) if at <= now => {
            if suppressed {
                None
            } else {
                Some(rate.next_spawn_with(now, intercept))
            }
        },
        _ => timer,
    }
}

impl EncounterTimers {
    /// Restores the timers and rates for a leg on the given heading.
    pub fn reset(&mut self, direction: TravelDirection)
        ensures
            final(self)@ == Schedule::for_leg(direction),
    {
        *self = Self::default();
        self.iceberg = match direction {
            TravelDirection::North => Some(1_000_000),
            TravelDirection::South => Some(65_000_000),
        };
    }

    /// Sets a time for an adult whale to be spawned.
    pub fn set_adult_spawn(&mut self, time: i64)
        ensures
            final(self)@ == old(self)@.with_adult_spawn(time as int),
    {
        self.adult_whale = Some(time);
    }

    /// Draws an intercept for each kind of encounter on the given heading.
    pub fn draw(&self, direction: TravelDirection) -> (draws: Intercepts)
        ensures
            self@.admits(direction, draws),
    {
        Intercepts {
            bird: self.bird_config.get(direction).draw(),
            fish: self.fish_config.get(direction).draw(),
            ship: self.ship_config.get(direction).draw(),
            iceberg: self.iceberg_config.get(direction).draw(),
        }
    }

    /// Requests the encounters due at `now` and schedules each of them anew
    /// with its draw.
    pub fn tick_with(&mut self, now: i64, direction: TravelDirection, draws: Intercepts) -> (requests:
        Vec<SpawnEncounter>)
        ensures
            requests@ == old(self)@.requests(now as int),
            final(self)@ == old(self)@.tick(now as int, direction, draws),
    {
        let mut requests: Vec<SpawnEncounter> = Vec::new();
        if let Some(at) = self.bird {
            if at <= now {
                requests.push(SpawnEncounter { encounter_type: EncounterType::Bird });
            }
        }
        if let Some(at) = self.fish {
            if at <= now {
                requests.push(SpawnEncounter { encounter_type: EncounterType::Fish });
            }
        }
        if let Some(at) = self.ship {
            if at <= now {
                requests.push(SpawnEncounter { encounter_type: EncounterType::Ship });
            }
        }
        if let Some(at) = self.iceberg {
            if at <= now {
                requests.push(SpawnEncounter { encounter_type: EncounterType::Iceberg });
            }
        }
        if let Some(at) = self.adult_whale {
            if at <= now {
                requests.push(SpawnEncounter { encounter_type: EncounterType::AdultWhale });
                self.adult_whale = None;
            }
        }
        let south = match direction {
            TravelDirection::North => false,
            TravelDirection::South => true,
        };
        self.bird = reschedule(self.bird, now, self.bird_config.get(direction), draws.bird, false);
        self.fish = reschedule(self.fish, now, self.fish_config.get(direction), draws.fish, false);
        self.ship = reschedule(
            self.ship,
            now,
            self.ship_config.get(direction),
            draws.ship,
            south && now > SHIP_CUTOFF,
        );
        self.iceberg = reschedule(
            self.iceberg,
            now,
            self.iceberg_config.get(direction),
            draws.iceberg,
            !south && now > ICEBERG_CUTOFF,
        );
        requests
    }

    /// Requests the encounters due at `now` and schedules each of them anew.
    pub fn tick(&mut self, now: i64, direction: TravelDirection) -> (requests: Vec<SpawnEncounter>)
        ensures
            requests@ == old(self)@.requests(now as int),
            exists|draws: Intercepts|
                old(self)@.admits(direction, draws) && final(self)@ == #[trigger] old(self)@.tick(
                    now as int,
                    direction,
                    draws,
                ),
    {
        let draws = self.draw(direction);
        let requests = self.tick_with(now, direction, draws);
        assert(self@ == old(self)@.tick(now as int, direction, draws));
        requests
    }
}

/// Requests the encounters that are due at the distance travelled and
/// schedules each of them anew for the current heading.
pub fn spawn_encounters(distance: &TravelDistance, encounters: &mut EncounterTimers) -> (requests:
    Vec<SpawnEncounter>)
    ensures
        requests@ == old(encounters)@.requests(distance@.distance),
        exists|draws: Intercepts|
            old(encounters)@.admits(distance@.direction(), draws) && final(encounters)@
                == #[trigger] old(encounters)@.tick(
                distance@.distance,
                distance@.direction(),
                draws,
            ),
{
    let now = distance.get();
    let direction = distance.travel_direction();
    encounters.tick(now, direction)
}

/// Schedules the first adult whale of a journey.
pub fn set_initial_adult_spawn(encounter_timers: &mut EncounterTimers)
    ensures
        final(encounter_timers)@ == old(encounter_timers)@.with_adult_spawn(
            INITIAL_ADULT_SPAWN as int,
        ),
{
    encounter_timers.set_adult_spawn(INITIAL_ADULT_SPAWN);
}

/// Plans the adult whale of the leg that starts, given the coin and the
/// time drawn for it.
pub fn plan_adult_spawn(
    distance: &TravelDistance,
    encounter_timers: &mut EncounterTimers,
    coin: bool,
    time: i64,
)
    ensures
        final(encounter_timers)@ == old(encounter_timers)@.plan_adult(
            distance@.direction(),
            distance@.flips,
            coin,
            time as int,
        ),
{
    match distance.travel_direction() {
        TravelDirection::North => {
            if distance.get_flip_number() == 1 || coin {
                encounter_timers.set_adult_spawn(time);
            }
        },
        TravelDirection::South => {},
    }
}

/// Plans the adult whale of the leg that starts: only heading north, and
/// then on an even chance, at a distance drawn from
/// `[ADULT_SPAWN_EARLIEST, ADULT_SPAWN_LATEST)`.
pub fn set_adult_spawn_time(distance: &TravelDistance, encounter_timers: &mut EncounterTimers)
    ensures
        exists|coin: bool, time: int|
            ADULT_SPAWN_EARLIEST <= time < ADULT_SPAWN_LATEST && final(encounter_timers)@
                == #[trigger] old(encounter_timers)@.plan_adult(
                distance@.direction(),
                distance@.flips,
                coin,
                time,
            ),
{
    let coin = gen_ratio(1, 2);
    let time = gen_range(ADULT_SPAWN_EARLIEST, ADULT_SPAWN_LATEST);
    plan_adult_spawn(distance, encounter_timers, coin, time);
    assert(encounter_timers@ == old(encounter_timers)@.plan_adult(
        distance@.direction(),
        distance@.flips,
        coin,
        time as int,
    ));
}

/// Every time that a rate schedules lies ahead of the time it is scheduled
/// at, by no less than `MIN_STEP` and no more than `MAX_STEP`, whatever the
/// slope and the intercept.
pub proof fn lemma_next_spawn_moves_forward(rate: Rate, t: int, intercept: int)
    requires
        i64::MIN <= t,
        t + MAX_STEP <= i64::MAX,
    ensures
        MIN_STEP <= rate.step(t, intercept) <= MAX_STEP,
        rate.next_spawn(t, intercept) == t + rate.step(t, intercept),
        t < rate.next_spawn(t, intercept),
{
}

/// After a tick no timer is due any more: each encounter that was due is
/// either scheduled anew between `MIN_STEP` and `MAX_STEP` ahead of `now`,
/// or has no time at all; the others keep their time.
pub proof fn lemma_tick_schedules_ahead(
    schedule: Schedule,
    now: int,
    direction: TravelDirection,
    draws: Intercepts,
)
    requires
        i64::MIN <= now,
        now + MAX_STEP <= i64::MAX,
    ensures
        schedule.tick(now, direction, draws).requests(now).len() == 0,
        is_due(schedule.bird, now) ==> (schedule.tick(now, direction, draws).bird matches Some(at)
            && now + MIN_STEP <= at <= now + MAX_STEP),
        is_due(schedule.fish, now) ==> (schedule.tick(now, direction, draws).fish matches Some(at)
            && now + MIN_STEP <= at <= now + MAX_STEP),
        is_due(schedule.ship, now) ==> (schedule.tick(now, direction, draws).ship matches Some(at)
            ==> now + MIN_STEP <= at <= now + MAX_STEP),
        is_due(schedule.iceberg, now) ==> (schedule.tick(now, direction, draws).iceberg matches Some(
            at,
        ) ==> now + MIN_STEP <= at <= now + MAX_STEP),
        !is_due(schedule.bird, now) ==> schedule.tick(now, direction, draws).bird == schedule.bird,
        !is_due(schedule.fish, now) ==> schedule.tick(now, direction, draws).fish == schedule.fish,
        !is_due(schedule.ship, now) ==> schedule.tick(now, direction, draws).ship == schedule.ship,
        !is_due(schedule.iceberg, now) ==> schedule.tick(now, direction, draws).iceberg
            == schedule.iceberg,
{
    lemma_next_spawn_moves_forward(schedule.bird_rates.of(direction), now, draws.bird as int);
    lemma_next_spawn_moves_forward(schedule.fish_rates.of(direction), now, draws.fish as int);
    lemma_next_spawn_moves_forward(schedule.ship_rates.of(direction), now, draws.ship as int);
    lemma_next_spawn_moves_forward(schedule.iceberg_rates.of(direction), now, draws.iceberg as int);
}

} // verus!
