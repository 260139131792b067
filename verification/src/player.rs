//! The whale that the player steers: how it enters the window, turns, and
//! breathes.

use crate::animation::AnimationComplete;
use crate::animation::AnimationPlayerState;
use crate::animation::SpriteAnimationPlayer;
use crate::animation::WHALE_BREATH_FRAME_RATE;
use crate::assets::SfxKey;
use crate::geometry::Point;
use crate::movement::DEAD_ZONE;
use crate::movement::WHALE_SCREEN_BUFFER_FRACTION;
use crate::movement::WHALE_TRAVEL_SPEED;
use crate::movement::WHALE_TURN_SPEED;
use crate::rng::gen_range;
use crate::sfx::PlaySfx;
use crate::units::product;
use crate::units::sat_add;
use crate::units::sat_mul;
use crate::units::sat_sub;
use crate::units::saturated;
use crate::units::UNIT;
use vstd::prelude::*;

verus! {

/// How far above the window the whale enters the world.
pub const WHALE_SPAWN_HEIGHT: i64 = 64_000_000;

/// The seconds before the whale breathes for the first time.
pub const FIRST_BREATH: i64 = 8_000_000;

/// The seconds that the whale stays under water between two breaths are
/// drawn from `[MIN_DIVE, MAX_DIVE)`.
pub const MIN_DIVE: i64 = 12_000_000;

pub const MAX_DIVE: i64 = 17_000_000;

/// The frames of a breath that are shown before it is heard.
pub const BREATH_FRAMES_BEFORE_SOUND: u64 = 5;

/// The heading of the whale, and the heading it turns to, in radians.
#[derive(Debug, Clone, Copy, PartialEq, Eq, Structural)]
pub struct WhaleRotation {
    pub current_rotation: i64,
    pub target_rotation: i64,
}

impl Default for WhaleRotation {
    fn default() -> (rotation: Self)
        ensures
            rotation == (WhaleRotation { current_rotation: 0, target_rotation: 0 }),
    {
        WhaleRotation { current_rotation: 0, target_rotation: 0 }
    }
}

/// The rotation after one step with the sideways intent `intent_x`: without
/// an intent the whale stops turning; with one, the target moves on, and
/// the heading follows by a share of what is left.
pub open spec fn steered(rotation: WhaleRotation, intent_x: int) -> WhaleRotation {
    let held = if -DEAD_ZONE < intent_x < DEAD_ZONE {
        rotation.current_rotation
    } else {
        rotation.target_rotation
    };
    let target = saturated(held + saturated(product(WHALE_TURN_SPEED as int, intent_x)));
    let current = saturated(
        rotation.current_rotation + saturated(
            product(saturated(target - rotation.current_rotation), WHALE_TURN_SPEED as int),
        ),
    );
    WhaleRotation { current_rotation: current as i64, target_rotation: target as i64 }
}

impl WhaleRotation {
    /// Turns the whale by one step.
    pub fn steer(&mut self, intent_x: i64)
        ensures
            *final(self) == steered(*old(self), intent_x as int),
    {
        if -DEAD_ZONE < intent_x && intent_x < DEAD_ZONE {
            self.target_rotation = self.current_rotation;
        }
        self.target_rotation = sat_add(self.target_rotation, sat_mul(WHALE_TURN_SPEED, intent_x));
        self.current_rotation = sat_add(
            self.current_rotation,
            sat_mul(sat_sub(self.target_rotation, self.current_rotation), WHALE_TURN_SPEED),
        );
    }
}

/// Marks a whale that is still on its way into the window: it has arrived
/// below `target_y`.
#[derive(Debug, Clone, Copy, PartialEq, Eq, Structural)]
pub struct WhaleArrivalMarker {
    pub target_y: i64,
}

/// Where the whale enters the world, for a window of the given half height.
pub open spec fn whale_start(half_height: int) -> Point {
    Point { x: 0, y: saturated(half_height + WHALE_SPAWN_HEIGHT) as i64 }
}

/// The height below which the whale has arrived.
pub open spec fn arrival_height(half_height: int) -> int {
    saturated(product(half_height, UNIT - WHALE_SCREEN_BUFFER_FRACTION))
}

/// Where the whale enters the world, and the marker of its arrival.
pub fn spawn_player(half_height: i64) -> (spawn: (Point, WhaleArrivalMarker))
    ensures
        spawn.0 == whale_start(half_height as int),
        spawn.1.target_y == arrival_height(half_height as int),
{
    (
        Point { x: 0, y: sat_add(half_height, WHALE_SPAWN_HEIGHT) },
        WhaleArrivalMarker { target_y: sat_mul(half_height, UNIT - WHALE_SCREEN_BUFFER_FRACTION) },
    )
}

/// Moves a whale at height `y` one step into the window. Returns its new
/// height and whether it has arrived.
pub fn move_in_spawning_whale(y: i64, arrival_marker: &WhaleArrivalMarker) -> (step: (i64, bool))
    ensures
        step.0 == saturated(y - WHALE_TRAVEL_SPEED),
        step.1 == (step.0 < arrival_marker.target_y),
{
    let next = sat_sub(y, WHALE_TRAVEL_SPEED);
    (next, next < arrival_marker.target_y)
}

/// Whether the whale is under water or breathes.
#[derive(Debug, Clone, Copy, PartialEq, Eq, Structural)]
pub enum BreathingPhase {
    Underwater,
    AboveWater,
}

/// What the whale does when its breathing timer has run out.
#[derive(Debug, Clone, Copy, PartialEq, Eq, Structural)]
pub enum Breath {
    /// It comes up: its breath is shown.
    Surface,
    /// It goes down: its breath is heard.
    Dive(PlaySfx),
}

/// The phase of the whale's breathing.
#[derive(Debug, Clone, Copy, PartialEq, Eq, Structural)]
pub struct BreathingTimer {
    pub phase: BreathingPhase,
}

/// The seconds that a breath is shown before it is heard.
pub open spec fn surface_time() -> int {
    BREATH_FRAMES_BEFORE_SOUND * WHALE_BREATH_FRAME_RATE * 1_000
}

impl BreathingTimer {
    pub fn new() -> (timer: Self)
        ensures
            timer.phase == BreathingPhase::Underwater,
    {
        BreathingTimer { phase: BreathingPhase::Underwater }
    }

    /// Changes the phase when the timer has run out, for a drawn time
    /// under water. Returns what the whale does and the seconds until the
    /// timer runs out again.
    pub fn breathe(&mut self, dive: i64) -> (next: (Breath, i64))
        ensures
            old(self).phase == BreathingPhase::Underwater ==> final(self).phase
                == BreathingPhase::AboveWater && next.0 == Breath::Surface && next.1
                == surface_time(),
            old(self).phase == BreathingPhase::AboveWater ==> final(self).phase
                == BreathingPhase::Underwater && next.0 == Breath::Dive(
                PlaySfx::plain(SfxKey::WhaleBreath, false),
            ) && next.1 == dive,
    {
        match self.phase {
            BreathingPhase::Underwater => {
                self.phase = BreathingPhase::AboveWater;
                (Breath::Surface, (BREATH_FRAMES_BEFORE_SOUND * WHALE_BREATH_FRAME_RATE * 1_000) as i64)
            },
            BreathingPhase::AboveWater => {
                self.phase = BreathingPhase::Underwater;
                (Breath::Dive(PlaySfx::once(SfxKey::WhaleBreath)), dive)
            },
        }
    }
}

/// Changes the phase of the whale's breathing when its timer has run out.
/// Returns what the whale does and the seconds until the timer runs out
/// again; nothing while the timer runs.
pub fn spawn_breaths(breath: &mut BreathingTimer, finished: bool) -> (next: Option<(Breath, i64)>)
    ensures
        next is Some <==> finished,
        !finished ==> *final(breath) == *old(breath),
        finished && old(breath).phase == BreathingPhase::Underwater ==> final(breath).phase
            == BreathingPhase::AboveWater && next == Some((Breath::Surface, surface_time() as i64)),
        finished && old(breath).phase == BreathingPhase::AboveWater ==> final(breath).phase
            == BreathingPhase::Underwater && (next matches Some(step) && step.0 == Breath::Dive(
            PlaySfx::plain(SfxKey::WhaleBreath, false),
        ) && MIN_DIVE <= step.1 < MAX_DIVE),
{
    if !finished {
        return None;
    }
    let dive = gen_range(MIN_DIVE, MAX_DIVE);
    Some(breath.breathe(dive))
}

/// Lets the whale swim again when it has breached.
pub fn animation_completed(event: &AnimationComplete, whale: &mut SpriteAnimationPlayer)
    ensures
        final(whale)@ == if event.0 == AnimationPlayerState::WhaleBreaching {
            old(whale)@.switched(AnimationPlayerState::WhaleSwimming)
        } else {
            old(whale)@
        },
{
    match event.0 {
        AnimationPlayerState::WhaleBreaching => {
            whale.update_state(AnimationPlayerState::WhaleSwimming);
        },
        _ => {},
    }
}

/// Lets the whale breach. Returns the sound to play.
pub fn handle_player_action(whale: &mut SpriteAnimationPlayer) -> (sound: PlaySfx)
    ensures
        final(whale)@ == old(whale)@.switched(AnimationPlayerState::WhaleBreaching),
        sound == PlaySfx::plain(SfxKey::WhaleBreach, false),
{
    whale.update_state(AnimationPlayerState::WhaleBreaching);
    PlaySfx::once(SfxKey::WhaleBreach)
}

} // verus!
