//! Birds, and how one of them takes an interest in the whale and loses it
//! again.
//!
//! A bird is `Neutral` until the whale comes near. It is then `Curious`
//! until a deadline, after which it is `LosingCuriosity` while it grows back
//! to its full size, and `Incurious` from then on. Some birds are
//! `Incurious` from the start.

use crate::assets::SfxKey;
use crate::creature::SPRITE_SIZE;
use crate::geometry::along;
use crate::geometry::difference;
use crate::geometry::is_within;
use crate::geometry::shifted;
use crate::movement::MoveTowardsLocation;
use crate::sfx::PlaySfx;
use crate::window::get_creature_path;
use crate::window::halved;
use crate::window::is_path;
use crate::window::path_range;
use crate::geometry::Point;
use crate::rng::gen_range;
use crate::rng::gen_ratio;
use crate::units::clamp_to;
use crate::units::clamped;
use crate::units::sat_add;
use crate::units::saturated;
use crate::units::UNIT;
use vstd::prelude::*;

verus! {

/// How fast a bird flies.
pub const BIRD_SPEED: i64 = 480_000;

/// A bird takes an interest in a point near the whale that lies closer than
/// this.
pub const BIRD_CURIOSITY_THRESHOLD: i64 = 120_000_000;

/// The point that birds look at lies this far from the whale at most, along
/// each axis.
pub const CURIOSITY_JITTER: i64 = 20_000_000;

/// A bird stays curious for a time drawn from
/// `[CURIOSITY_MIN_DURATION, CURIOSITY_MAX_DURATION)`.
pub const CURIOSITY_MIN_DURATION: i64 = 10_000_000;

pub const CURIOSITY_MAX_DURATION: i64 = 25_000_000;

/// The smallest size that a curious bird shrinks to.
pub const BIRD_MIN_SCALE: i64 = 650_000;

/// By how much a curious bird shrinks with each step.
pub const BIRD_SHRINK_STEP: i64 = 1_000;

/// By how much a bird that loses its curiosity grows with each step.
pub const BIRD_GROW_STEP: i64 = 3_000;

/// By how much a bird that loses its curiosity speeds up with each step.
pub const BIRD_SPEED_STEP: i64 = 100;

/// Out of ten birds, this many are incurious from the start.
pub const INCURIOUS_IN_TEN: u32 = 3;

/// The interest of a creature in the whale, with the time at which it ends.
#[derive(Debug, Clone, Copy, PartialEq, Eq, Structural)]
pub struct Curious {
    pub until: i64,
}

/// The states of a bird.
#[derive(Debug, Clone, Copy, PartialEq, Eq, Structural)]
pub enum BirdState {
    Neutral,
    Incurious,
    Curious(Curious),
    LosingCuriosity,
}

/// What happens to a bird.
pub enum BirdEvent {
    /// The point near the whale was looked at, at time `now`: `near` says
    /// whether it lay within the threshold, and `duration` is how long an
    /// interest taken now lasts.
    Looked { now: int, near: bool, duration: int },
    /// The deadline of a curious bird was checked at time `now`.
    Checked { now: int },
    /// One step of shrinking while curious.
    Shrunk,
    /// One step of growing back while losing curiosity.
    Grown,
}

/// What a [`Bird`] stands for.
pub struct BirdModel {
    pub state: BirdState,
    /// The size, where `UNIT` is full size.
    pub scale: int,
}

impl BirdModel {
    pub open spec fn wf(self) -> bool {
        BIRD_MIN_SCALE <= self.scale <= UNIT
    }

    /// A bird as it enters the world.
    pub open spec fn spawned(incurious: bool) -> BirdModel {
        BirdModel {
            state: if incurious {
                BirdState::Incurious
            } else {
                BirdState::Neutral
            },
            scale: UNIT as int,
        }
    }

    pub open spec fn is_curious(self) -> bool {
        self.state is Curious
    }

    /// The bird after it has looked at a point near the whale.
    pub open spec fn looked(self, now: int, near: bool, duration: int) -> BirdModel {
        if self.state is Neutral && near {
            BirdModel {
                state: BirdState::Curious(Curious { until: saturated(now + duration) as i64 }),
                ..self
            }
        } else {
            self
        }
    }

    /// The bird after its deadline has been checked.
    pub open spec fn checked(self, now: int) -> BirdModel {
        match self.state {
            BirdState::Curious(curious) if curious.until <= now => BirdModel {
                state: BirdState::LosingCuriosity,
                ..self
            },
            _ => self,
        }
    }

    /// The bird after one step of shrinking.
    pub open spec fn shrunk(self) -> BirdModel {
        if self.state is Curious {
            BirdModel {
                scale: clamped(self.scale - BIRD_SHRINK_STEP, BIRD_MIN_SCALE as int, UNIT as int),
                ..self
            }
        } else {
            self
        }
    }

    /// The bird after one step of growing back: at full size it has lost
    /// its curiosity for good.
    pub open spec fn grown(self) -> BirdModel {
        if self.state is LosingCuriosity {
            if self.scale + BIRD_GROW_STEP >= UNIT {
                BirdModel { state: BirdState::Incurious, scale: UNIT as int }
            } else {
                BirdModel { scale: self.scale + BIRD_GROW_STEP, ..self }
            }
        } else {
            self
        }
    }

    /// The bird after one event.
    pub open spec fn after(self, event: BirdEvent) -> BirdModel {
        match event {
            BirdEvent::Looked { now, near, duration } => self.looked(now, near, duration),
            BirdEvent::Checked { now } => self.checked(now),
            BirdEvent::Shrunk => self.shrunk(),
            BirdEvent::Grown => self.grown(),
        }
    }

    /// The bird after each of `events` in turn.
    pub open spec fn after_all(self, events: Seq<BirdEvent>) -> BirdModel
        decreases events.len(),
    {
        if events.len() == 0 {
            self
        } else {
            self.after(events[0]).after_all(events.drop_first())
        }
    }

    /// How many of `events` make the bird curious.
    pub open spec fn times_made_curious(self, events: Seq<BirdEvent>) -> nat
        decreases events.len(),
    {
        if events.len() == 0 {
            0
        } else {
            let first: nat = if !self.is_curious() && self.after(events[0]).is_curious() {
                1
            } else {
                0
            };
            first + self.after(events[0]).times_made_curious(events.drop_first())
        }
    }

    /// Whether the bird is curious after some beginning of `events`.
    pub open spec fn ever_curious(self, events: Seq<BirdEvent>) -> bool {
        exists|n: int| 0 <= n <= events.len() && #[trigger] self.after_all(events.take(n)).is_curious()
    }
}

/// The speed of a bird that flies off after one more step, never above
/// `BIRD_SPEED`.
pub open spec fn sped_up(speed: int) -> int {
    if speed + BIRD_SPEED_STEP < BIRD_SPEED {
        speed + BIRD_SPEED_STEP
    } else {
        BIRD_SPEED as int
    }
}

/// An incurious bird stays incurious whatever happens to it: it is never
/// curious again.
pub proof fn lemma_incurious_is_final(bird: BirdModel, events: Seq<BirdEvent>)
    requires
        bird.state is Incurious,
    ensures
        bird.after_all(events) == bird,
        bird.times_made_curious(events) == 0,
        !bird.ever_curious(events),
    decreases events.len(),
{
    if events.len() > 0 {
        lemma_incurious_is_final(bird, events.drop_first());
    }
    assert forall|n: int| 0 <= n <= events.len() implies !(#[trigger] bird.after_all(
        events.take(n),
    )).is_curious() by {
        lemma_incurious_is_final_prefix(bird, events.take(n));
    }
}

/// An incurious bird is the same bird after any events.
proof fn lemma_incurious_is_final_prefix(bird: BirdModel, events: Seq<BirdEvent>)
    requires
        bird.state is Incurious,
    ensures
        bird.after_all(events) == bird,
    decreases events.len(),
{
    if events.len() > 0 {
        lemma_incurious_is_final_prefix(bird, events.drop_first());
    }
}

/// A bird is made curious at most once in its life, and only while it is
/// neutral: looking at the whale again changes nothing for a bird that is
/// curious, losing its curiosity, or incurious.
pub proof fn lemma_curious_at_most_once(bird: BirdModel, events: Seq<BirdEvent>)
    requires
        bird.wf(),
    ensures
        bird.times_made_curious(events) <= 1,
        !(bird.state is Neutral) ==> bird.times_made_curious(events) == 0,
        bird.after_all(events).wf(),
        !(bird.state is Neutral) ==> !(bird.after_all(events).state is Neutral),
    decreases events.len(),
{
    if events.len() > 0 {
        lemma_curious_at_most_once(bird.after(events[0]), events.drop_first());
    }
}

/// Looking at the whale changes a bird only if the bird is neutral and the
/// whale is near.
pub proof fn lemma_look_changes_only_neutral(bird: BirdModel, now: int, near: bool, duration: int)
    ensures
        !(bird.state is Neutral) || !near ==> bird.looked(now, near, duration) == bird,
        bird.state is Neutral && near ==> bird.looked(now, near, duration).state
            == BirdState::Curious(Curious { until: saturated(now + duration) as i64 }),
{
}

/// A bird: its state and its size.
#[derive(Debug, Clone, Copy)]
pub struct Bird {
    state: BirdState,
    scale: i64,
}

impl View for Bird {
    type V = BirdModel;

    closed spec fn view(&self) -> BirdModel {
        BirdModel { state: self.state, scale: self.scale as int }
    }
}

impl Bird {
    #[verifier::type_invariant]
    spec fn inv(self) -> bool {
        self@.wf()
    }

    /// A bird as it enters the world, incurious or not.
    pub fn spawn_with(incurious: bool) -> (bird: Self)
        ensures
            bird@ == BirdModel::spawned(incurious),
    {
        Bird {
            state: if incurious {
                BirdState::Incurious
            } else {
                BirdState::Neutral
            },
            scale: UNIT,
        }
    }

    /// A bird as it enters the world: some birds are just incurious.
    pub fn spawn() -> (bird: Self)
        ensures
            bird@ == BirdModel::spawned(true) || bird@ == BirdModel::spawned(false),
    {
        Self::spawn_with(gen_ratio(INCURIOUS_IN_TEN, 10))
    }

    pub fn state(&self) -> (state: BirdState)
        ensures
            state == self@.state,
    {
        self.state
    }

    pub fn scale(&self) -> (scale: i64)
        ensures
            scale == self@.scale,
            self@.wf(),
    {
        proof {
            use_type_invariant(self);
        }
        self.scale
    }

    pub fn is_curious(&self) -> (curious: bool)
        ensures
            curious == self@.is_curious(),
    {
        match self.state {
            BirdState::Curious(_) => true,
            _ => false,
        }
    }

    /// Looks from `position` at `target`, a point near the whale, at time
    /// `now`. A neutral bird that finds it within the threshold becomes
    /// curious for `duration`. Returns whether it did.
    pub fn gain_curiosity_for(&mut self, now: i64, position: Point, target: Point, duration: i64) -> (gained:
        bool)
        ensures
            final(self)@ == old(self)@.looked(
                now as int,
                is_within(target, position, BIRD_CURIOSITY_THRESHOLD as int),
                duration as int,
            ),
            gained == (old(self)@.state is Neutral && is_within(
                target,
                position,
                BIRD_CURIOSITY_THRESHOLD as int,
            )),
    {
        proof {
            use_type_invariant(&*self);
        }
        match self.state {
            BirdState::Neutral => {
                if target.within(&position, BIRD_CURIOSITY_THRESHOLD) {
                    *self = Bird {
                        state: BirdState::Curious(Curious { until: sat_add(now, duration) }),
                        scale: self.scale,
                    };
                    true
                } else {
                    false
                }
            },
            _ => false,
        }
    }

    /// Looks from `position` at `target`, a point near the whale, at time
    /// `now`. A neutral bird that finds it within the threshold becomes
    /// curious, for a time drawn from
    /// `[CURIOSITY_MIN_DURATION, CURIOSITY_MAX_DURATION)`. Returns whether
    /// it did.
    pub fn gain_curiosity(&mut self, now: i64, position: Point, target: Point) -> (gained: bool)
        ensures
            exists|duration: int|
                CURIOSITY_MIN_DURATION <= duration < CURIOSITY_MAX_DURATION && final(self)@
                    == #[trigger] old(self)@.looked(
                    now as int,
                    is_within(target, position, BIRD_CURIOSITY_THRESHOLD as int),
                    duration,
                ),
            gained == (old(self)@.state is Neutral && is_within(
                target,
                position,
                BIRD_CURIOSITY_THRESHOLD as int,
            )),
    {
        let duration = gen_range(CURIOSITY_MIN_DURATION, CURIOSITY_MAX_DURATION);
        let gained = self.gain_curiosity_for(now, position, target, duration);
        assert(self@ == old(self)@.looked(
            now as int,
            is_within(target, position, BIRD_CURIOSITY_THRESHOLD as int),
            duration as int,
        ));
        gained
    }

    /// After the deadline, marks the bird as losing curiosity. Returns
    /// whether it did: the bird then flies back off the screen.
    pub fn lose_curiosity(&mut self, now: i64) -> (lost: bool)
        ensures
            final(self)@ == old(self)@.checked(now as int),
            lost == (final(self)@.state is LosingCuriosity && old(self)@.state is Curious),
    {
        proof {
            use_type_invariant(&*self);
        }
        match self.state {
            BirdState::Curious(curious) => {
                if curious.until <= now {
                    *self = Bird { state: BirdState::LosingCuriosity, scale: self.scale };
                    true
                } else {
                    false
                }
            },
            _ => false,
        }
    }

    /// Shrinks a curious bird by one step, down to `BIRD_MIN_SCALE`.
    pub fn scale_curious_birds(&mut self)
        ensures
            final(self)@ == old(self)@.shrunk(),
    {
        proof {
            use_type_invariant(&*self);
        }
        match self.state {
            BirdState::Curious(_) => {
                *self = Bird {
                    state: self.state,
                    scale: clamp_to(self.scale - BIRD_SHRINK_STEP, BIRD_MIN_SCALE, UNIT),
                };
            },
            _ => {},
        }
    }

    /// Lets a bird that is losing its curiosity grow by one step and speed
    /// up; at full size it is ready to leave. Returns the new speed: that
    /// given for a bird in another state.
    pub fn return_to_flying_off(&mut self, speed: i64) -> (new_speed: i64)
        ensures
            final(self)@ == old(self)@.grown(),
            new_speed == if old(self)@.state is LosingCuriosity {
                sped_up(speed as int)
            } else {
                speed as int
            },
    {
        proof {
            use_type_invariant(&*self);
        }
        match self.state {
            BirdState::LosingCuriosity => {
                if self.scale + BIRD_GROW_STEP >= UNIT {
                    *self = Bird { state: BirdState::Incurious, scale: UNIT };
                } else {
                    *self = Bird { state: self.state, scale: self.scale + BIRD_GROW_STEP };
                }
                if speed < BIRD_SPEED - BIRD_SPEED_STEP {
                    speed + BIRD_SPEED_STEP
                } else {
                    BIRD_SPEED
                }
            },
            _ => speed,
        }
    }
}

/// The point near the whale that the birds look at: drawn anew each time.
pub fn curiosity_target(whale: Point) -> (target: Point)
    ensures
        exists|dx: int, dy: int|
            -CURIOSITY_JITTER <= dx < CURIOSITY_JITTER && -CURIOSITY_JITTER <= dy
                < CURIOSITY_JITTER && target == #[trigger] shifted(whale, dx, dy),
{
    whale.jittered(CURIOSITY_JITTER)
}

/// Lets a bird at `position` look at `target`, a point near the whale, at
/// time `now`. A bird that becomes curious calls, and heads for the
/// target: returns the call and the velocity, of `BIRD_SPEED`.
pub fn gain_curiosity(bird: &mut Bird, now: i64, position: Point, target: Point) -> (reaction: Option<
    (PlaySfx, Point),
>)
    ensures
        exists|duration: int|
            CURIOSITY_MIN_DURATION <= duration < CURIOSITY_MAX_DURATION && final(bird)@
                == #[trigger] old(bird)@.looked(
                now as int,
                is_within(target, position, BIRD_CURIOSITY_THRESHOLD as int),
                duration,
            ),
        reaction is Some <==> old(bird)@.state is Neutral && is_within(
            target,
            position,
            BIRD_CURIOSITY_THRESHOLD as int,
        ),
        reaction matches Some(call) ==> call.0 == PlaySfx::plain(SfxKey::Gull, false) && call.1
            == along(difference(target, position), BIRD_SPEED as int),
{
    if bird.gain_curiosity(now, position, target) {
        Some((PlaySfx::once(SfxKey::Gull), position.way_to(target).along(BIRD_SPEED)))
    } else {
        None
    }
}

/// The velocity of a curious bird at `position`: at `BIRD_SPEED` towards a
/// point near the whale that is drawn anew each time. None for a bird that
/// is not curious.
pub fn curious_birds_follow_whale(bird: &Bird, whale: Point, position: Point) -> (velocity: Option<
    Point,
>)
    ensures
        velocity is Some <==> bird@.is_curious(),
        velocity matches Some(v) ==> exists|dx: int, dy: int|
            -CURIOSITY_JITTER <= dx < CURIOSITY_JITTER && -CURIOSITY_JITTER <= dy
                < CURIOSITY_JITTER && v == along(
                difference(#[trigger] shifted(whale, dx, dy), position),
                BIRD_SPEED as int,
            ),
{
    if bird.is_curious() {
        let target = curiosity_target(whale);
        Some(position.way_to(target).along(BIRD_SPEED))
    } else {
        None
    }
}

/// Whether a path across a window that reaches `half` to each side ends at
/// `target`.
pub open spec fn is_way_out(half: Point, target: Point) -> bool {
    exists|start: Point| #[trigger] is_path(half, SPRITE_SIZE as int, (start, target))
}

/// After the deadline, marks a curious bird as losing curiosity and sends
/// it off the screen: returns where it flies, the end of a path across a
/// window of the given size. Nothing happens to the bird while the window
/// is too small for a path.
pub fn lose_curiosity(bird: &mut Bird, now: i64, size: Point) -> (mover: Option<
    MoveTowardsLocation,
>)
    ensures
        mover is Some ==> old(bird)@.state is Curious && final(bird)@.state is LosingCuriosity,
        mover is Some ==> final(bird)@ == old(bird)@.checked(now as int),
        mover is None ==> final(bird)@ == old(bird)@,
        mover matches Some(details) ==> details.speed == BIRD_SPEED && is_way_out(
            halved(size),
            details.target,
        ),
        ({
            let half = halved(size);
            let x_range = path_range(half.x as int, SPRITE_SIZE as int);
            let y_range = path_range(half.y as int, SPRITE_SIZE as int);
            x_range.0 < x_range.1 && y_range.0 < y_range.1 && old(bird)@.checked(now as int)
                != old(bird)@ ==> mover is Some
        }),
{
    if !bird.is_curious() {
        return None;
    }
    match get_creature_path(size, SPRITE_SIZE) {
        Some(path) => {
            if bird.lose_curiosity(now) {
                assert(is_way_out(halved(size), path.1)) by {
                    assert(is_path(halved(size), SPRITE_SIZE as int, (path.0, path.1)));
                }
                Some(MoveTowardsLocation { target: path.1, speed: BIRD_SPEED })
            } else {
                None
            }
        },
        None => None,
    }
}

} // verus!
