//! The travel clock: how far the whale has come on this leg, and when the
//! leg ends in a flip.

use crate::rng::gen_range;
use crate::units::saturated;
use crate::units::sat_add;
use std::ops::Range;
use vstd::prelude::*;

verus! {

/// The distance at which flipping occurs.
pub const DISTANCE_FLIPPING: i64 = 120_000_000;

/// The way the whale is heading on this leg.
#[derive(Copy, Clone, Hash, PartialEq, Eq, Debug, Structural)]
pub enum TravelDirection {
    North,
    South,
}

/// What a [`TravelDistance`] stands for.
pub struct Clock {
    /// Distance travelled on this leg.
    pub distance: int,
    /// Distance travelled on all legs together.
    pub total: int,
    /// Legs completed.
    pub flips: nat,
    /// Whether the last advance saw the leg's end behind it.
    pub flipping: bool,
}

impl Clock {
    /// The clock at the start of a journey.
    pub open spec fn start() -> Clock {
        Clock { distance: 0, total: 0, flips: 0, flipping: false }
    }

    /// States that a journey can reach.
    pub open spec fn wf(self) -> bool {
        &&& 0 <= self.distance <= self.total <= i64::MAX
        &&& self.flips <= u32::MAX
        &&& self.flipping ==> self.distance == 0 || self.distance >= DISTANCE_FLIPPING
    }

    /// The clock after `delta` more distance. A `delta` that is not positive
    /// changes nothing.
    pub open spec fn advance(self, delta: int) -> Clock {
        if delta <= 0 {
            self
        } else {
            let distance = saturated(self.distance + delta);
            Clock {
                distance,
                total: saturated(self.total + delta),
                flips: self.flips,
                flipping: distance % (DISTANCE_FLIPPING as int) < self.distance,
            }
        }
    }

    /// Whether advancing by `delta` raises the flip signal: the leg's end is
    /// seen behind and was not seen behind before.
    pub open spec fn fires(self, delta: int) -> bool {
        self.advance(delta).flipping && !self.flipping
    }

    /// The clock at the start of the next leg.
    pub open spec fn reset(self) -> Clock {
        Clock { distance: 0, flips: self.flips + 1, ..self }
    }

    /// The distance `offset` ahead of the current one, stopping at the end
    /// of the `i64` range.
    pub open spec fn ahead(self, offset: int) -> int {
        saturated(self.distance + offset)
    }

    /// The heading, by the parity of the legs completed.
    pub open spec fn direction(self) -> TravelDirection {
        if self.flips % 2 == 0 {
            TravelDirection::North
        } else {
            TravelDirection::South
        }
    }

    /// The clock after advancing by each of `deltas` in turn.
    pub open spec fn advance_all(self, deltas: Seq<int>) -> Clock
        decreases deltas.len(),
    {
        if deltas.len() == 0 {
            self
        } else {
            self.advance(deltas[0]).advance_all(deltas.drop_first())
        }
    }

    /// How many of the advances by `deltas` raise the flip signal.
    pub open spec fn fired(self, deltas: Seq<int>) -> nat
        decreases deltas.len(),
    {
        if deltas.len() == 0 {
            0
        } else {
            let first: nat = if self.fires(deltas[0]) { 1 } else { 0 };
            first + self.advance(deltas[0]).fired(deltas.drop_first())
        }
    }
}

/// The message shown with a flip after `flips` completed legs.
pub open spec fn flip_message(flips: nat) -> Seq<char> {
    if flips % 2 == 0 {
        "The warm Northern waters for are perfect for winter."@
    } else {
        "The cooler Southern waters are ideal for summer."@
    }
}

/// Advancing keeps a reachable clock reachable, and so does starting the
/// next leg.
pub proof fn lemma_steps_keep_wf(clock: Clock, delta: int)
    requires
        clock.wf(),
    ensures
        clock.advance(delta).wf(),
        clock.flips < u32::MAX ==> clock.reset().wf(),
{
}

/// A new leg starts inside the flipping distance, with exactly one more
/// flip counted.
pub proof fn lemma_reset_starts_a_leg(clock: Clock)
    requires
        clock.wf(),
    ensures
        clock.reset().distance < DISTANCE_FLIPPING,
        clock.reset().flips == clock.flips + 1,
        clock.reset().direction() != clock.direction(),
{
}

/// Within one leg the flip signal is raised at most once, however many
/// advances are made and however large each of them is. When it has been
/// raised, the leg's end lies behind. Advancing counts no flip: the count
/// goes up by the one of the reset that answers the signal.
pub proof fn lemma_one_flip_per_leg(clock: Clock, deltas: Seq<int>)
    requires
        clock.wf(),
    ensures
        clock.fired(deltas) <= 1,
        clock.flipping && clock.distance >= DISTANCE_FLIPPING ==> clock.fired(deltas) == 0,
        clock.fired(deltas) == 1 ==> clock.advance_all(deltas).distance >= DISTANCE_FLIPPING,
        clock.advance_all(deltas).wf(),
        clock.advance_all(deltas).distance >= clock.distance,
        clock.advance_all(deltas).flips == clock.flips,
    decreases deltas.len(),
{
    if deltas.len() > 0 {
        lemma_one_flip_per_leg(clock.advance(deltas[0]), deltas.drop_first());
    }
}

/// A crossing of the flipping distance is signalled by the advance that
/// makes it or by the next positive one, and not by both.
pub proof fn lemma_crossing_is_signalled(clock: Clock, crossing: int, next: int)
    requires
        clock.wf(),
        clock.distance < DISTANCE_FLIPPING <= clock.distance + crossing,
        next > 0,
    ensures
        clock.fires(crossing) != clock.advance(crossing).fires(next),
{
}

/// How far the whale has travelled.
pub struct TravelDistance {
    distance: i64,
    total_distance: i64,
    num_flips: u32,
    is_flipping: bool,
}

impl View for TravelDistance {
    type V = Clock;

    closed spec fn view(&self) -> Clock {
        Clock {
            distance: self.distance as int,
            total: self.total_distance as int,
            flips: self.num_flips as nat,
            flipping: self.is_flipping,
        }
    }
}

impl Default for TravelDistance {
    fn default() -> (clock: Self)
        ensures
            clock@ == Clock::start(),
    {
        TravelDistance { distance: 0, total_distance: 0, num_flips: 0, is_flipping: false }
    }
}

impl TravelDistance {
    #[verifier::type_invariant]
    spec fn inv(self) -> bool {
        self@.wf()
    }

    /// Gets the current travel distance.
    pub fn get(&self) -> (distance: i64)
        ensures
            distance == self@.distance,
            self@.wf(),
    {
        proof {
            use_type_invariant(self);
        }
        self.distance
    }

    /// The number of legs completed.
    pub fn get_flip_number(&self) -> (flips: u32)
        ensures
            flips == self@.flips,
    {
        self.num_flips
    }

    /// Generates a future distance within `now + range`, stopping at the end
    /// of the `i64` range.
    pub fn future_range(&self, range: Range<i64>) -> (future: i64)
        requires
            range.start < range.end,
        ensures
            exists|offset: int|
                range.start <= offset < range.end && future == #[trigger] self@.ahead(offset),
    {
        let offset = gen_range(range.start, range.end);
        let future = sat_add(self.distance, offset);
        assert(future == self@.ahead(offset as int));
        future
    }

    /// Starts the next leg: the distance travelled goes back to 0 and one
    /// more flip is counted.
    pub fn reset_timer(&mut self)
        requires
            old(self)@.flips < u32::MAX,
        ensures
            final(self)@ == old(self)@.reset(),
            final(self)@.wf(),
    {
        proof {
            use_type_invariant(&*self);
        }
        *self = TravelDistance {
            distance: 0,
            total_distance: self.total_distance,
            num_flips: self.num_flips + 1,
            is_flipping: self.is_flipping,
        };
    }

    /// Advances the travel distance by `delta` and returns `true` on the
    /// advance that first sees the end of the leg behind it.
    pub fn update(&mut self, delta: i64) -> (fired: bool)
        ensures
            final(self)@ == old(self)@.advance(delta as int),
            fired == old(self)@.fires(delta as int),
            final(self)@.wf(),
    {
        proof {
            use_type_invariant(&*self);
        }
        if delta <= 0 {
            return false;
        }
        let prev = self.distance;
        let was_flipping = self.is_flipping;
        let distance = sat_add(prev, delta);
        let is_flipping = distance % DISTANCE_FLIPPING < prev;
        *self = TravelDistance {
            distance,
            total_distance: sat_add(self.total_distance, delta),
            num_flips: self.num_flips,
            is_flipping,
        };
        is_flipping && !was_flipping
    }

    /// The message to show with the next flip.
    pub fn get_message(&self) -> (message: String)
        ensures
            message@ == flip_message(self@.flips),
    {
        if self.num_flips % 2 == 0 {
            "The warm Northern waters for are perfect for winter.".to_owned()
        } else {
            "The cooler Southern waters are ideal for summer.".to_owned()
        }
    }

    /// The heading on this leg.
    pub fn travel_direction(&self) -> (direction: TravelDirection)
        ensures
            direction == self@.direction(),
    {
        if self.num_flips % 2 == 0 {
            TravelDirection::North
        } else {
            TravelDirection::South
        }
    }
}

} // verus!
