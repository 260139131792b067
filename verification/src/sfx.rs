//! Requests to play a sound effect, and how a sound fades in and out.

use crate::assets::SfxKey;
use crate::units::product;
use crate::units::sat_add;
use crate::units::sat_mul;
use crate::units::sat_sub;
use crate::units::saturated;
use crate::units::UNIT;
use vstd::prelude::*;

verus! {

/// A sound that grows louder until it has its final volume.
#[derive(Debug, Clone, Copy, PartialEq, Eq, Structural)]
pub struct FadeIn {
    pub final_volume: i64,
    pub rate_per_second: i64,
}

/// A sound that grows softer until it is gone.
#[derive(Debug, Clone, Copy, PartialEq, Eq, Structural)]
pub struct FadeOut {
    pub rate_per_second: i64,
}

/// A request to play a single sound effect.
#[derive(Debug, Clone, Copy, PartialEq, Eq, Structural)]
pub struct PlaySfx {
    pub key: SfxKey,
    pub looped: bool,
    /// The entity that the sound belongs to, by its number.
    pub parent_entity: Option<u64>,
    pub fade_in: Option<FadeIn>,
    pub volume: i64,
}

/// What becomes of a sound when it has been played.
#[derive(Debug, Clone, Copy, PartialEq, Eq, Structural)]
pub enum PlaybackMode {
    Loop,
    Despawn,
}

impl PlaySfx {
    /// A request with nothing set but the key and whether it repeats.
    pub open spec fn plain(key: SfxKey, looped: bool) -> PlaySfx {
        PlaySfx { key, looped, parent_entity: None, fade_in: None, volume: UNIT }
    }

    pub fn once(key: SfxKey) -> (request: Self)
        ensures
            request == PlaySfx::plain(key, false),
    {
        PlaySfx { key, looped: false, parent_entity: None, fade_in: None, volume: UNIT }
    }

    pub fn looped(key: SfxKey) -> (request: Self)
        ensures
            request == PlaySfx::plain(key, true),
    {
        PlaySfx { key, looped: true, parent_entity: None, fade_in: None, volume: UNIT }
    }

    pub fn with_parent(self, entity: u64) -> (request: Self)
        ensures
            request == (PlaySfx { parent_entity: Some(entity), ..self }),
    {
        let mut request = self;
        request.parent_entity = Some(entity);
        request
    }

    pub fn with_volume(self, volume: i64) -> (request: Self)
        ensures
            request == (PlaySfx { volume, ..self }),
    {
        let mut request = self;
        request.volume = volume;
        request
    }

    pub fn with_fade_in(self, fade: FadeIn) -> (request: Self)
        ensures
            request == (PlaySfx { fade_in: Some(fade), ..self }),
    {
        let mut request = self;
        request.fade_in = Some(fade);
        request
    }

    /// A sound that repeats plays on; another is removed when it is over.
    pub fn mode(&self) -> (mode: PlaybackMode)
        ensures
            mode == if self.looped {
                PlaybackMode::Loop
            } else {
                PlaybackMode::Despawn
            },
    {
        if self.looped {
            PlaybackMode::Loop
        } else {
            PlaybackMode::Despawn
        }
    }
}

/// The volume of a sound that fades out, after `dt` seconds: none when the
/// sound is gone.
pub open spec fn faded_out(volume: int, rate: int, dt: int) -> Option<int> {
    let next = saturated(volume - saturated(product(rate, dt)));
    if next <= 0 {
        None
    } else {
        Some(next)
    }
}

/// The volume of a sound that fades in, after `dt` seconds, and whether it
/// has its final volume.
pub open spec fn faded_in(volume: int, fade: FadeIn, dt: int) -> (int, bool) {
    let next = saturated(volume + saturated(product(fade.rate_per_second as int, dt)));
    if next >= fade.final_volume {
        (fade.final_volume as int, true)
    } else {
        (next, false)
    }
}

/// Lowers the volume of a sound that fades out. Returns the new volume, or
/// none when the sound is to be removed.
pub fn fade_out(volume: i64, details: &FadeOut, dt: i64) -> (next_volume: Option<i64>)
    ensures
        next_volume matches Some(v) ==> faded_out(
            volume as int,
            details.rate_per_second as int,
            dt as int,
        ) == Some(v as int),
        next_volume is None ==> faded_out(volume as int, details.rate_per_second as int, dt as int)
            is None,
{
    let next = sat_sub(volume, sat_mul(details.rate_per_second, dt));
    if next <= 0 {
        None
    } else {
        Some(next)
    }
}

/// Raises the volume of a sound that fades in. Returns the new volume and
/// whether the fade is over.
pub fn fade_in(volume: i64, details: &FadeIn, dt: i64) -> (next: (i64, bool))
    ensures
        next.0 == faded_in(volume as int, *details, dt as int).0,
        next.1 == faded_in(volume as int, *details, dt as int).1,
{
    let next_volume = sat_add(volume, sat_mul(details.rate_per_second, dt));
    if next_volume >= details.final_volume {
        (details.final_volume, true)
    } else {
        (next_volume, false)
    }
}

} // verus!
