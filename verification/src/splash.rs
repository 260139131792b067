//! A screen that fades in, stays, and fades out again, and the splash screen
//! that shows two of them.

use crate::units::clamped;
use crate::units::div_toward_zero;
use crate::units::lemma_product_fits;
use crate::units::sat_add;
use crate::units::saturated;
use crate::units::UNIT;
use vstd::prelude::*;

verus! {

/// The fade is over.
#[derive(Debug, Clone, Copy, PartialEq, Eq, Structural)]
pub struct UiFadeComplete;

/// What a [`UiImageFadeInOut`] stands for.
pub struct Fade {
    /// Total duration in seconds.
    pub total_duration: int,
    /// Fade duration in seconds.
    pub fade_duration: int,
    /// Current progress in seconds.
    pub t: int,
}

impl Fade {
    pub open spec fn wf(self) -> bool {
        &&& 0 < self.fade_duration <= i64::MAX
        &&& 0 < self.total_duration <= i64::MAX
        &&& i64::MIN <= self.t <= i64::MAX
    }

    /// The progress as a share of the total duration, between 0 and `UNIT`.
    pub open spec fn progress(self) -> int {
        clamped(div_toward_zero(self.t * UNIT, self.total_duration), 0, UNIT as int)
    }

    /// How far the progress is from the nearer end, twice over: 0 at both
    /// ends and `UNIT` half way.
    pub open spec fn height(self) -> int {
        let twice = 2 * self.progress() - UNIT;
        UNIT - if twice < 0 {
            -twice
        } else {
            twice
        }
    }

    /// The opacity: a trapezoid over the progress that rises over the fade
    /// duration, stays at `UNIT`, and falls over the fade duration.
    pub open spec fn alpha(self) -> int {
        let raw = div_toward_zero(self.height() * self.total_duration, self.fade_duration);
        if raw < UNIT {
            raw
        } else {
            UNIT as int
        }
    }

    /// The fade after `dt` more seconds.
    pub open spec fn ticked(self, dt: int) -> Fade {
        Fade { t: saturated(self.t + dt), ..self }
    }

    /// Whether the fade ends within the next `dt` seconds.
    pub open spec fn completes(self, dt: int) -> bool {
        self.t <= self.total_duration && self.ticked(dt).t >= self.total_duration
    }
}

/// The opacity is one: between nothing and `UNIT`.
pub proof fn lemma_alpha_in_range(fade: Fade)
    requires
        fade.wf(),
    ensures
        0 <= fade.alpha() <= UNIT,
{
    let h = fade.height();
    assert(0 <= h <= UNIT);
    assert(0 <= h * fade.total_duration) by (nonlinear_arith)
        requires
            0 <= h,
            0 < fade.total_duration,
    ;
    assert(0 <= (h * fade.total_duration) / fade.fade_duration) by (nonlinear_arith)
        requires
            0 <= h * fade.total_duration,
            0 < fade.fade_duration,
    ;
}

/// A fade of an image or a background.
#[derive(Debug, Clone, Copy)]
pub struct UiImageFadeInOut {
    total_duration: i64,
    fade_duration: i64,
    t: i64,
}

impl View for UiImageFadeInOut {
    type V = Fade;

    closed spec fn view(&self) -> Fade {
        Fade {
            total_duration: self.total_duration as int,
            fade_duration: self.fade_duration as int,
            t: self.t as int,
        }
    }
}

impl UiImageFadeInOut {
    #[verifier::type_invariant]
    spec fn inv(self) -> bool {
        self@.wf()
    }

    pub fn new(fade_duration: i64, total_duration: i64) -> (fade: Self)
        requires
            0 < fade_duration,
            0 < total_duration,
        ensures
            fade@ == (Fade {
                total_duration: total_duration as int,
                fade_duration: fade_duration as int,
                t: 0,
            }),
    {
        UiImageFadeInOut { total_duration, fade_duration, t: 0 }
    }

    /// The opacity now.
    pub fn alpha(&self) -> (alpha: i64)
        ensures
            alpha == self@.alpha(),
            0 <= alpha <= UNIT,
    {
        proof {
            use_type_invariant(self);
            lemma_alpha_in_range(self@);
            lemma_product_fits(self.t as int, UNIT as int);
        }
        let share: i128 = (self.t as i128) * (UNIT as i128) / (self.total_duration as i128);
        let progress: i128 = if share < 0 {
            0
        } else if share > UNIT as i128 {
            UNIT as i128
        } else {
            share
        };
        let twice: i128 = 2 * progress - UNIT as i128;
        let height: i128 = UNIT as i128 - if twice < 0 {
            -twice
        } else {
            twice
        };
        proof {
            lemma_product_fits(height as int, self.total_duration as int);
        }
        let raw: i128 = height * (self.total_duration as i128) / (self.fade_duration as i128);
        if raw < UNIT as i128 {
            raw as i64
        } else {
            UNIT
        }
    }

    /// Lets `dt` seconds pass. Returns the event of a fade that has come to
    /// its end.
    pub fn tick_fade_in_out(&mut self, dt: i64) -> (complete: Option<UiFadeComplete>)
        ensures
            final(self)@ == old(self)@.ticked(dt as int),
            complete is Some <==> old(self)@.completes(dt as int),
    {
        proof {
            use_type_invariant(&*self);
        }
        let prev = self.t;
        let t = sat_add(prev, dt);
        *self = UiImageFadeInOut {
            total_duration: self.total_duration,
            fade_duration: self.fade_duration,
            t,
        };
        if prev <= self.total_duration && t >= self.total_duration {
            Some(UiFadeComplete)
        } else {
            None
        }
    }
}

/// What the splash screen does next.
#[derive(Debug, Clone, Copy, PartialEq, Eq, Structural)]
pub enum SplashStep {
    /// Go on showing the image.
    Stay,
    /// Show the second image, and start the timer again.
    ShowNext,
    /// Both images have been shown: go on to loading.
    Leave,
}

/// Decides what the splash screen does when its timer has just finished
/// or not, where `splash_screen` counts the images shown beyond the first.
pub fn check_splash_timer(just_finished: bool, splash_screen: &mut u8) -> (step: SplashStep)
    ensures
        step == if !just_finished {
            SplashStep::Stay
        } else if *old(splash_screen) >= 1 {
            SplashStep::Leave
        } else {
            SplashStep::ShowNext
        },
        *final(splash_screen) == if step == SplashStep::ShowNext {
            1
        } else {
            *old(splash_screen)
        },
{
    if !just_finished {
        return SplashStep::Stay;
    }
    if *splash_screen >= 1 {
        return SplashStep::Leave;
    }
    *splash_screen = 1;
    SplashStep::ShowNext
}

} // verus!
