//! Adult whales: one that comes near the whale takes an interest in it and
//! follows it from then on.

use crate::assets::SfxKey;
use crate::baby_whale::BabyWhaleStatus;
use crate::bird::Curious;
use crate::geometry::along;
use crate::geometry::difference;
use crate::geometry::is_within;
use crate::geometry::Point;
use crate::movement::follow;
use crate::movement::pursuit;
use crate::movement::WHALE_TRAVEL_SPEED;
use crate::sfx::PlaySfx;
use vstd::prelude::*;

verus! {

/// An adult whale takes an interest in a point near the whale that lies
/// closer than this.
pub const WHALE_CURIOSITY_DISTANCE: i64 = 80_000_000;

/// An adult whale keeps this close to the point it follows.
pub const ADULT_FOLLOWING_DISTANCE: i64 = 70_000_000;

/// The deadline of an interest that does not end.
pub const FOREVER: i64 = i64::MAX;

/// The states of an adult whale.
#[derive(Debug, Clone, Copy, PartialEq, Eq, Structural)]
pub enum AdultWhaleState {
    Travelling,
    Curious(Curious),
}

/// An adult whale after it has looked at a point near the whale: a
/// travelling one that finds it near is curious for good.
pub open spec fn adult_looked(state: AdultWhaleState, near: bool) -> AdultWhaleState {
    if state is Travelling && near {
        AdultWhaleState::Curious(Curious { until: FOREVER })
    } else {
        state
    }
}

/// An adult whale after it has looked at a point near the whale once for
/// each of `nears`.
pub open spec fn adult_looked_all(state: AdultWhaleState, nears: Seq<bool>) -> AdultWhaleState
    decreases nears.len(),
{
    if nears.len() == 0 {
        state
    } else {
        adult_looked_all(adult_looked(state, nears[0]), nears.drop_first())
    }
}

/// How many of the looks make the adult whale curious.
pub open spec fn adult_times_made_curious(state: AdultWhaleState, nears: Seq<bool>) -> nat
    decreases nears.len(),
{
    if nears.len() == 0 {
        0
    } else {
        let first: nat = if adult_looked(state, nears[0]) != state {
            1
        } else {
            0
        };
        first + adult_times_made_curious(adult_looked(state, nears[0]), nears.drop_first())
    }
}

/// An adult whale is made curious at most once, and a curious one stays as
/// it is however often the whale comes near again.
pub proof fn lemma_adult_curious_at_most_once(state: AdultWhaleState, nears: Seq<bool>)
    ensures
        adult_times_made_curious(state, nears) <= 1,
        state is Curious ==> adult_times_made_curious(state, nears) == 0 && adult_looked_all(
            state,
            nears,
        ) == state,
    decreases nears.len(),
{
    if nears.len() > 0 {
        lemma_adult_curious_at_most_once(adult_looked(state, nears[0]), nears.drop_first());
    }
}

/// An adult whale.
#[derive(Debug, Clone, Copy)]
pub struct AdultWhale {
    state: AdultWhaleState,
}

impl View for AdultWhale {
    type V = AdultWhaleState;

    closed spec fn view(&self) -> AdultWhaleState {
        self.state
    }
}

impl AdultWhale {
    /// An adult whale as it enters the world.
    pub fn new() -> (adult: Self)
        ensures
            adult@ is Travelling,
    {
        AdultWhale { state: AdultWhaleState::Travelling }
    }

    pub fn state(&self) -> (state: AdultWhaleState)
        ensures
            state == self@,
    {
        self.state
    }

    pub fn is_curious(&self) -> (curious: bool)
        ensures
            curious == (self@ is Curious),
    {
        match self.state {
            AdultWhaleState::Curious(_) => true,
            AdultWhaleState::Travelling => false,
        }
    }

    /// Looks from `position` at `target`, a point near the whale. A
    /// travelling whale that finds it within `WHALE_CURIOSITY_DISTANCE`
    /// becomes curious, and the whale has then met a whale on this leg.
    /// Returns the song of a whale that became curious, and its velocity
    /// towards the target.
    pub fn adult_whale_gain_curiosity(
        &mut self,
        baby_status: &mut BabyWhaleStatus,
        position: Point,
        target: Point,
    ) -> (reaction: Option<(PlaySfx, Point)>)
        ensures
            final(self)@ == adult_looked(
                old(self)@,
                is_within(target, position, WHALE_CURIOSITY_DISTANCE as int),
            ),
            reaction is Some <==> final(self)@ != old(self)@,
            reaction matches Some(song) ==> song.0 == PlaySfx::plain(SfxKey::AdultWhaleSong, false)
                && song.1 == along(difference(target, position), WHALE_TRAVEL_SPEED as int),
            final(baby_status).has_whale == (old(baby_status).has_whale || reaction is Some),
            final(baby_status).departure_time == old(baby_status).departure_time,
    {
        match self.state {
            AdultWhaleState::Travelling => {
                if target.within(&position, WHALE_CURIOSITY_DISTANCE) {
                    baby_status.has_whale = true;
                    self.state = AdultWhaleState::Curious(Curious { until: FOREVER });
                    Some(
                        (
                            PlaySfx::once(SfxKey::AdultWhaleSong),
                            position.way_to(target).along(WHALE_TRAVEL_SPEED),
                        ),
                    )
                } else {
                    None
                }
            },
            AdultWhaleState::Curious(_) => None,
        }
    }

    /// The velocity with which a curious adult whale at `position` follows
    /// a whale at `whale` with heading `up`; `None` for one that travels on.
    pub fn adult_whale_follows_player_whale(&self, whale: Point, up: Point, position: Point) -> (next:
        Option<Point>)
        ensures
            next == if self@ is Curious {
                Some(pursuit(whale, up, position, ADULT_FOLLOWING_DISTANCE as int))
            } else {
                None
            },
    {
        match self.state {
            AdultWhaleState::Curious(_) => Some(follow(whale, up, position, ADULT_FOLLOWING_DISTANCE)),
            AdultWhaleState::Travelling => None,
        }
    }
}

} // verus!
