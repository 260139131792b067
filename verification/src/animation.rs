//! Sprite animation: which frame of its strip a sprite shows.
//!
//! The frame timer itself runs outside this module; an animation is told
//! when the timer has finished a frame.

use vstd::prelude::*;

verus! {

/// The first frame of the bird in its atlas.
pub const BIRD_START_FRAME: usize = 48;

/// The first frame of the whale's breath in its atlas.
pub const BREATH_START_FRAME: usize = 8;

/// The first frame of the breaching whale in its atlas.
pub const BREACH_START_FRAME: usize = 24;

/// The first frame of the baby whale in its atlas.
pub const BABY_START_FRAME: usize = 56;

/// The milliseconds that one frame of the whale's breath is shown.
pub const WHALE_BREATH_FRAME_RATE: u64 = 150;

/// The milliseconds that one frame of the swimming whale is shown.
pub const WHALE_FRAME_MILLIS: u64 = 230;

pub const FAST_WHALE_FRAME_MILLIS: u64 = 180;

pub const SLOW_WHALE_FRAME_MILLIS: u64 = 290;

/// What is animated.
#[derive(PartialEq, Eq, Clone, Copy, Debug, Structural)]
pub enum AnimationPlayerState {
    WhaleSwimming,
    BabyWhaleSwimming,
    WhaleBreaching,
    Wave,
    Bird,
    Ship,
    Fish,
    WhaleBreath,
    RainDrop,
}

/// A one-shot animation has shown its last frame.
#[derive(PartialEq, Eq, Clone, Copy, Debug, Structural)]
pub struct AnimationComplete(pub AnimationPlayerState);

/// The number of frames in the strip of `state`.
pub open spec fn frame_count(state: AnimationPlayerState) -> int {
    match state {
        AnimationPlayerState::Ship => 4,
        AnimationPlayerState::WhaleSwimming
        | AnimationPlayerState::Bird
        | AnimationPlayerState::Fish
        | AnimationPlayerState::RainDrop
        | AnimationPlayerState::BabyWhaleSwimming => 8,
        AnimationPlayerState::Wave => 9,
        AnimationPlayerState::WhaleBreath => 16,
        AnimationPlayerState::WhaleBreaching => 24,
    }
}

/// Where the strip of `state` starts in its atlas.
pub open spec fn first_frame(state: AnimationPlayerState) -> int {
    match state {
        AnimationPlayerState::Ship
        | AnimationPlayerState::WhaleSwimming
        | AnimationPlayerState::Wave
        | AnimationPlayerState::Fish
        | AnimationPlayerState::RainDrop => 0,
        AnimationPlayerState::Bird => BIRD_START_FRAME as int,
        AnimationPlayerState::WhaleBreath => BREATH_START_FRAME as int,
        AnimationPlayerState::WhaleBreaching => BREACH_START_FRAME as int,
        AnimationPlayerState::BabyWhaleSwimming => BABY_START_FRAME as int,
    }
}

/// What a [`SpriteAnimationPlayer`] stands for.
pub struct Animation {
    /// The frame shown, counted from the start of the strip.
    pub frame: int,
    pub state: AnimationPlayerState,
    /// Whether the animation is over once its last frame has been shown.
    pub oneshot: bool,
    /// The milliseconds that one frame is shown.
    pub interval: int,
    /// Whether the frame changed with the last tick.
    pub changed: bool,
}

impl Animation {
    pub open spec fn wf(self) -> bool {
        0 <= self.frame < frame_count(self.state) && 0 <= self.interval <= u64::MAX
    }

    /// An animation of `state` at its first frame.
    pub open spec fn start(state: AnimationPlayerState, interval: int, oneshot: bool) -> Animation {
        Animation { frame: 0, state, oneshot, interval, changed: false }
    }

    /// The animation after a tick in which the frame timer finished or not:
    /// a finished frame gives way to the next one of the strip, and the
    /// last one to the first.
    pub open spec fn ticked(self, finished: bool) -> Animation {
        if finished {
            Animation {
                frame: (self.frame + 1) % frame_count(self.state),
                changed: true,
                ..self
            }
        } else {
            Animation { changed: false, ..self }
        }
    }

    /// Whether that tick ends a one-shot animation: the strip has started
    /// over.
    pub open spec fn completes(self, finished: bool) -> bool {
        finished && self.oneshot && self.ticked(finished).frame < self.frame
    }

    /// The animation after a change to `state` was asked for: only swimming
    /// and breaching can be changed to, and either starts at the first
    /// frame.
    pub open spec fn switched(self, state: AnimationPlayerState) -> Animation {
        if self.state == state {
            self
        } else {
            match state {
                AnimationPlayerState::WhaleSwimming => Animation::start(
                    state,
                    WHALE_FRAME_MILLIS as int,
                    false,
                ),
                AnimationPlayerState::WhaleBreaching => Animation::start(
                    state,
                    FAST_WHALE_FRAME_MILLIS as int,
                    true,
                ),
                _ => self,
            }
        }
    }

    /// The index of the frame shown in the atlas.
    pub open spec fn atlas_index(self) -> int {
        first_frame(self.state) + self.frame
    }
}

/// A one-shot animation completes exactly on the tick that leaves its last
/// frame, and an animation that repeats never completes.
pub proof fn lemma_completes_after_last_frame(animation: Animation, finished: bool)
    requires
        animation.wf(),
    ensures
        animation.ticked(finished).wf(),
        animation.completes(finished) <==> finished && animation.oneshot && animation.frame
            == frame_count(animation.state) - 1,
{
}

/// Tracks the animation state of a sprite. It is tightly bound to the
/// texture atlas in use.
#[derive(Clone, Copy, Debug)]
pub struct SpriteAnimationPlayer {
    frame: usize,
    state: AnimationPlayerState,
    oneshot: bool,
    frame_interval: u64,
    changed: bool,
}

impl View for SpriteAnimationPlayer {
    type V = Animation;

    closed spec fn view(&self) -> Animation {
        Animation {
            frame: self.frame as int,
            state: self.state,
            oneshot: self.oneshot,
            interval: self.frame_interval as int,
            changed: self.changed,
        }
    }
}

/// The number of frames in the strip of `state`.
pub fn frames_of(state: AnimationPlayerState) -> (count: usize)
    ensures
        count == frame_count(state),
{
    match state {
        AnimationPlayerState::Ship => 4,
        AnimationPlayerState::WhaleSwimming
        | AnimationPlayerState::Bird
        | AnimationPlayerState::Fish
        | AnimationPlayerState::RainDrop
        | AnimationPlayerState::BabyWhaleSwimming => 8,
        AnimationPlayerState::Wave => 9,
        AnimationPlayerState::WhaleBreath => 16,
        AnimationPlayerState::WhaleBreaching => 24,
    }
}

impl SpriteAnimationPlayer {
    #[verifier::type_invariant]
    spec fn inv(self) -> bool {
        self@.wf()
    }

    fn start(state: AnimationPlayerState, frame_interval: u64, oneshot: bool) -> (player: Self)
        ensures
            player@ == Animation::start(state, frame_interval as int, oneshot),
    {
        SpriteAnimationPlayer { frame: 0, state, oneshot, frame_interval, changed: false }
    }

    pub fn swimming() -> (player: Self)
        ensures
            player@ == Animation::start(
                AnimationPlayerState::WhaleSwimming,
                WHALE_FRAME_MILLIS as int,
                false,
            ),
    {
        Self::start(AnimationPlayerState::WhaleSwimming, WHALE_FRAME_MILLIS, false)
    }

    pub fn baby_swimming() -> (player: Self)
        ensures
            player@ == Animation::start(
                AnimationPlayerState::BabyWhaleSwimming,
                FAST_WHALE_FRAME_MILLIS as int,
                false,
            ),
    {
        Self::start(AnimationPlayerState::BabyWhaleSwimming, FAST_WHALE_FRAME_MILLIS, false)
    }

    pub fn breaching() -> (player: Self)
        ensures
            player@ == Animation::start(
                AnimationPlayerState::WhaleBreaching,
                FAST_WHALE_FRAME_MILLIS as int,
                true,
            ),
    {
        Self::start(AnimationPlayerState::WhaleBreaching, FAST_WHALE_FRAME_MILLIS, true)
    }

    pub fn wave() -> (player: Self)
        ensures
            player@ == Animation::start(AnimationPlayerState::Wave, 450, false),
    {
        Self::start(AnimationPlayerState::Wave, 450, false)
    }

    pub fn bird() -> (player: Self)
        ensures
            player@ == Animation::start(AnimationPlayerState::Bird, 250, false),
    {
        Self::start(AnimationPlayerState::Bird, 250, false)
    }

    pub fn ship() -> (player: Self)
        ensures
            player@ == Animation::start(AnimationPlayerState::Ship, 250, false),
    {
        Self::start(AnimationPlayerState::Ship, 250, false)
    }

    pub fn raindrop() -> (player: Self)
        ensures
            player@ == Animation::start(AnimationPlayerState::RainDrop, 100, true),
    {
        Self::start(AnimationPlayerState::RainDrop, 100, true)
    }

    pub fn fish() -> (player: Self)
        ensures
            player@ == Animation::start(AnimationPlayerState::Fish, 200, false),
    {
        Self::start(AnimationPlayerState::Fish, 200, false)
    }

    pub fn breath() -> (player: Self)
        ensures
            player@ == Animation::start(
                AnimationPlayerState::WhaleBreath,
                WHALE_BREATH_FRAME_RATE as int,
                true,
            ),
    {
        Self::start(AnimationPlayerState::WhaleBreath, WHALE_BREATH_FRAME_RATE, true)
    }

    pub fn new() -> (player: Self)
        ensures
            player@ == Animation::start(
                AnimationPlayerState::WhaleSwimming,
                WHALE_FRAME_MILLIS as int,
                false,
            ),
    {
        Self::swimming()
    }

    /// Shows the given frame of the strip.
    pub fn set_frame(&mut self, frame: usize)
        requires
            frame < frame_count(old(self)@.state),
        ensures
            final(self)@ == (Animation { frame: frame as int, ..old(self)@ }),
    {
        proof {
            use_type_invariant(&*self);
        }
        *self = SpriteAnimationPlayer {
            frame,
            state: self.state,
            oneshot: self.oneshot,
            frame_interval: self.frame_interval,
            changed: self.changed,
        };
    }

    /// Changes the time that one frame is shown.
    pub fn set_frame_interval(&mut self, interval: u64)
        ensures
            final(self)@ == (Animation { interval: interval as int, ..old(self)@ }),
    {
        proof {
            use_type_invariant(&*self);
        }
        *self = SpriteAnimationPlayer {
            frame: self.frame,
            state: self.state,
            oneshot: self.oneshot,
            frame_interval: interval,
            changed: self.changed,
        };
    }

    /// The milliseconds that one frame is shown.
    pub fn frame_interval(&self) -> (interval: u64)
        ensures
            interval == self@.interval,
    {
        self.frame_interval
    }

    /// Takes note of a tick in which the frame timer finished or not.
    /// Returns true if
    /// - the animation ticked,
    /// - this is a oneshot animation, and
    /// - the animation index has wrapped back to the start.
    pub fn update_timer(&mut self, finished: bool) -> (complete: bool)
        ensures
            final(self)@ == old(self)@.ticked(finished),
            complete == old(self)@.completes(finished),
    {
        proof {
            use_type_invariant(&*self);
        }
        if !finished {
            *self = SpriteAnimationPlayer {
                frame: self.frame,
                state: self.state,
                oneshot: self.oneshot,
                frame_interval: self.frame_interval,
                changed: false,
            };
            return false;
        }
        let prev = self.frame;
        let frame = (prev + 1) % frames_of(self.state);
        *self = SpriteAnimationPlayer {
            frame,
            state: self.state,
            oneshot: self.oneshot,
            frame_interval: self.frame_interval,
            changed: true,
        };
        self.oneshot && frame < prev
    }

    /// Update animation state if it changes.
    pub fn update_state(&mut self, state: AnimationPlayerState)
        ensures
            final(self)@ == old(self)@.switched(state),
    {
        if self.state != state {
            match state {
                AnimationPlayerState::WhaleSwimming => {
                    *self = Self::swimming();
                },
                AnimationPlayerState::WhaleBreaching => {
                    *self = Self::breaching();
                },
                _ => {},
            }
        }
    }

    /// What is animated.
    pub fn state(&self) -> (state: AnimationPlayerState)
        ensures
            state == self@.state,
    {
        self.state
    }

    /// Check whether the animation player is currently in the given state.
    pub fn in_state(&self, state: AnimationPlayerState) -> (is: bool)
        ensures
            is == (self@.state == state),
    {
        self.state == state
    }

    /// Whether the animation changed this tick.
    pub fn changed(&self) -> (changed: bool)
        ensures
            changed == self@.changed,
    {
        self.changed
    }

    /// Return the sprite index in the atlas.
    pub fn get_atlas_index(&self) -> (index: usize)
        ensures
            index == self@.atlas_index(),
    {
        proof {
            use_type_invariant(self);
        }
        match self.state {
            AnimationPlayerState::Ship
            | AnimationPlayerState::WhaleSwimming
            | AnimationPlayerState::Wave
            | AnimationPlayerState::Fish
            | AnimationPlayerState::RainDrop => self.frame,
            AnimationPlayerState::Bird => BIRD_START_FRAME + self.frame,
            AnimationPlayerState::WhaleBreath => BREATH_START_FRAME + self.frame,
            AnimationPlayerState::WhaleBreaching => BREACH_START_FRAME + self.frame,
            AnimationPlayerState::BabyWhaleSwimming => BABY_START_FRAME + self.frame,
        }
    }
}

/// What follows from a tick of the frame timer of one sprite: the event of
/// a one-shot animation that is over, and the atlas index to show if the
/// frame changed.
pub fn update_animation(animation: &mut SpriteAnimationPlayer, finished: bool) -> (outcome: (
    Option<AnimationComplete>,
    Option<usize>,
))
    ensures
        final(animation)@ == old(animation)@.ticked(finished),
        outcome.0 == if old(animation)@.completes(finished) {
            Some(AnimationComplete(old(animation)@.state))
        } else {
            None
        },
        outcome.1 == if finished {
            Some(final(animation)@.atlas_index() as usize)
        } else {
            None
        },
{
    let complete = if animation.update_timer(finished) {
        Some(AnimationComplete(animation.state))
    } else {
        None
    };
    let index = if animation.changed() {
        Some(animation.get_atlas_index())
    } else {
        None
    };
    (complete, index)
}

} // verus!
