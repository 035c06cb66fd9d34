//! Defender AI — the discrete side of the probe → observe → correct loop.
//!
//! The gun measures each splash's error (`impact x − target x`); the
//! platform layer grades its size into an [`ErrBand`] and says whether the
//! charge is pinned at the limit the error asks to cross. This module
//! decides the rest: the zeroed-in hysteresis (in at |err| ≤ 3.5 m, out
//! at |err| > 6 m), the big-miss re-probe (|err| > 45 m forgets the shot
//! history), and which correction the next shot gets.

use vstd::prelude::*;

verus! {

/// Size class of a splash error `|impact x − target x|`.
#[derive(Copy, Clone, PartialEq, Eq, Debug, Structural)]
pub enum ErrBand {
    /// At most the zero-in radius (3.5 m): on target.
    Close,
    /// Above the zero-in radius, at most the zero-out radius (6 m).
    Drift,
    /// Above the zero-out radius, at most the big-miss radius (45 m).
    Off,
    /// Beyond the big-miss radius: the wind estimate was useless.
    Wild,
}

/// The correction applied after a splash.
#[derive(Copy, Clone, PartialEq, Eq, Debug, Structural)]
pub enum Correction {
    /// Zeroed in: keep the locked elevation and charge.
    Hold,
    /// Secant (or nudge) the charge toward zero error.
    Charge,
    /// Charge is pinned at the boundary: walk the elevation one step.
    Angle,
    /// Forget the shot history and grid-search afresh.
    Reprobe,
}

/// How the next shot is aimed.
#[derive(Copy, Clone, PartialEq, Eq, Debug, Structural)]
pub enum PlanMode {
    /// No usable history: grid-search angle and charge, then add launch
    /// sloppiness.
    Probe,
    /// Zeroed in: keep the aim, add a little charge scatter.
    Scatter,
    /// Mid-correction: fire the corrected aim as is.
    Reuse,
}

/// The outcome of observing one splash.
#[derive(Copy, Clone, PartialEq, Eq, Debug, Structural)]
pub struct Observation {
    /// Zeroed-in state after the splash.
    pub zeroed: bool,
    /// The correction to apply.
    pub correction: Correction,
    /// Whether this shot's `(charge, err)` pair is kept for the secant.
    pub remember: bool,
}

/// Zeroed-in hysteresis: a close splash zeroes the gun, drift keeps the
/// previous state, anything farther un-zeroes it.
pub open spec fn zeroed_after(zeroed: bool, band: ErrBand) -> bool {
    match band {
        ErrBand::Close => true,
        ErrBand::Drift => zeroed,
        ErrBand::Off | ErrBand::Wild => false,
    }
}

/// The decision table of [`observe_decision`].
pub open spec fn observation(zeroed: bool, band: ErrBand, pinned: bool) -> Observation {
    if band == ErrBand::Wild {
        Observation { zeroed: false, correction: Correction::Reprobe, remember: false }
    } else if zeroed_after(zeroed, band) {
        Observation { zeroed: true, correction: Correction::Hold, remember: true }
    } else if pinned {
        Observation { zeroed: false, correction: Correction::Angle, remember: true }
    } else {
        Observation { zeroed: false, correction: Correction::Charge, remember: true }
    }
}

/// Decide what a splash does to the gun. `zeroed` is the state before the
/// splash, `band` the size class of its error, and `pinned` whether the
/// charge already sits at the limit the error asks to cross (full charge
/// yet short, or minimum charge yet long).
pub fn observe_decision(zeroed: bool, band: ErrBand, pinned: bool) -> (r: Observation)
    ensures
        r == observation(zeroed, band, pinned),
        band == ErrBand::Wild ==> !r.zeroed && r.correction == Correction::Reprobe && !r.remember,
        band != ErrBand::Wild ==> r.remember,
        band == ErrBand::Close ==> r.zeroed,
        band == ErrBand::Drift ==> r.zeroed == zeroed,
        band == ErrBand::Off ==> !r.zeroed,
        band != ErrBand::Wild && r.zeroed ==> r.correction == Correction::Hold,
        band != ErrBand::Wild && !r.zeroed && pinned ==> r.correction == Correction::Angle,
        band != ErrBand::Wild && !r.zeroed && !pinned ==> r.correction == Correction::Charge,
{
    let mut z = zeroed;
    match band {
        ErrBand::Close => {
            z = true;
        },
        ErrBand::Off | ErrBand::Wild => {
            z = false;
        },
        ErrBand::Drift => {},
    }
    if band == ErrBand::Wild {
        return Observation { zeroed: false, correction: Correction::Reprobe, remember: false };
    }
    let correction = if z {
        Correction::Hold
    } else if pinned {
        Correction::Angle
    } else {
        Correction::Charge
    };
    Observation { zeroed: z, correction, remember: true }
}

/// The aiming rule of [`plan_mode`].
pub open spec fn spec_plan_mode(has_history: bool, zeroed: bool) -> PlanMode {
    if !has_history {
        PlanMode::Probe
    } else if zeroed {
        PlanMode::Scatter
    } else {
        PlanMode::Reuse
    }
}

/// How to aim the next shot: probe when no shot pair is remembered,
/// scatter around the locked aim when zeroed, else reuse the correction.
pub fn plan_mode(has_history: bool, zeroed: bool) -> (r: PlanMode)
    ensures
        r == spec_plan_mode(has_history, zeroed),
        !has_history ==> r == PlanMode::Probe,
        has_history && zeroed ==> r == PlanMode::Scatter,
        has_history && !zeroed ==> r == PlanMode::Reuse,
{
    if !has_history {
        PlanMode::Probe
    } else if zeroed {
        PlanMode::Scatter
    } else {
        PlanMode::Reuse
    }
}

/// Hysteresis law: a close splash always zeroes the gun in; once zeroed it
/// stays zeroed (holding its aim) while splashes drift no farther than the
/// zero-out radius; a farther splash always sends it back to correcting.
pub proof fn lemma_zeroing_hysteresis(zeroed: bool, pinned: bool)
    ensures
        observation(zeroed, ErrBand::Close, pinned).zeroed,
        observation(zeroed, ErrBand::Close, pinned).correction == Correction::Hold,
        observation(true, ErrBand::Drift, pinned) == (Observation {
            zeroed: true,
            correction: Correction::Hold,
            remember: true,
        }),
        !observation(zeroed, ErrBand::Off, pinned).zeroed,
        observation(zeroed, ErrBand::Off, pinned).correction != Correction::Hold,
        observation(false, ErrBand::Drift, pinned).correction != Correction::Hold,
{
}

/// Big-miss law: a wild splash un-zeroes the gun and forgets the history,
/// so the next shot is a fresh probe; no other splash triggers a probe.
pub proof fn lemma_big_miss_reprobes(zeroed: bool, band: ErrBand, pinned: bool, z2: bool)
    ensures
        observation(zeroed, ErrBand::Wild, pinned).correction == Correction::Reprobe,
        spec_plan_mode(observation(zeroed, ErrBand::Wild, pinned).remember, z2)
            == PlanMode::Probe,
        band != ErrBand::Wild ==> observation(zeroed, band, pinned).remember,
        band != ErrBand::Wild ==> spec_plan_mode(
            observation(zeroed, band, pinned).remember,
            observation(zeroed, band, pinned).zeroed,
        ) != PlanMode::Probe,
{
}

/// Correction law: for every splash short of a big miss and every prior
/// state, the correction depends only on where the splash leaves the gun —
/// zeroed in it holds; still correcting it walks the angle exactly when the
/// charge is pinned and otherwise corrects the charge — and the shot is
/// remembered. In particular a zeroed gun knocked off by a drift splash
/// with a free charge corrects the charge.
pub proof fn lemma_correction_from_outcome(zeroed: bool, band: ErrBand, pinned: bool)
    requires
        band != ErrBand::Wild,
    ensures
        observation(zeroed, band, pinned).remember,
        observation(zeroed, band, pinned).zeroed ==> observation(zeroed, band, pinned).correction
            == Correction::Hold,
        !observation(zeroed, band, pinned).zeroed && pinned ==> observation(
            zeroed,
            band,
            pinned,
        ).correction == Correction::Angle,
        !observation(zeroed, band, pinned).zeroed && !pinned ==> observation(
            zeroed,
            band,
            pinned,
        ).correction == Correction::Charge,
        band == ErrBand::Off ==> !observation(zeroed, band, pinned).zeroed,
        band == ErrBand::Close ==> observation(zeroed, band, pinned).zeroed,
        band == ErrBand::Drift ==> observation(zeroed, band, pinned).zeroed == zeroed,
        observation(true, ErrBand::Off, false) == (Observation {
            zeroed: false,
            correction: Correction::Charge,
            remember: true,
        }),
{
}

/// Saturation law: a gun that is still correcting walks its angle exactly
/// when the charge is pinned, and otherwise corrects the charge; a zeroed
/// gun keeps scattering around its locked aim.
pub proof fn lemma_correction_choice(band: ErrBand, pinned: bool)
    requires
        band == ErrBand::Off || band == ErrBand::Drift,
    ensures
        observation(false, band, pinned).correction == (if pinned {
            Correction::Angle
        } else {
            Correction::Charge
        }),
        spec_plan_mode(true, observation(false, ErrBand::Close, pinned).zeroed)
            == PlanMode::Scatter,
{
}

} // verus!
