//! Two LEDs blink in turn: the green one for half a second, then the red one
//! for a second.

use vstd::prelude::*;

verus! {

/// Which LED is lit.
#[derive(Clone, Copy, Debug, PartialEq, Eq, Structural)]
pub enum BlinkPhase {
    /// The green LED is lit.
    Green,
    /// The red LED is lit.
    Red,
}

/// What the firmware does in one phase.
#[derive(Clone, Copy, Debug, PartialEq, Eq, Structural)]
pub struct BlinkStep {
    /// Level of the green LED's pin.
    pub green_on: bool,
    /// Level of the red LED's pin.
    pub red_on: bool,
    /// How long the phase lasts.
    pub hold_ms: u64,
    /// The phase that follows.
    pub next: BlinkPhase,
}

/// How long the green LED stays lit.
pub const GREEN_MS: u64 = 500;

/// How long the red LED stays lit.
pub const RED_MS: u64 = 1000;

/// The step of `phase`.
pub open spec fn spec_blink_step(phase: BlinkPhase) -> BlinkStep {
    match phase {
        BlinkPhase::Green => BlinkStep {
            green_on: true,
            red_on: false,
            hold_ms: GREEN_MS,
            next: BlinkPhase::Red,
        },
        BlinkPhase::Red => BlinkStep {
            green_on: false,
            red_on: true,
            hold_ms: RED_MS,
            next: BlinkPhase::Green,
        },
    }
}

/// The LED levels and duration of `phase`, and the phase after it.
pub fn blink_step(phase: BlinkPhase) -> (step: BlinkStep)
    ensures
        step == spec_blink_step(phase),
        phase == BlinkPhase::Green ==> step.green_on && !step.red_on && step.hold_ms == 500
            && step.next == BlinkPhase::Red,
        phase == BlinkPhase::Red ==> !step.green_on && step.red_on && step.hold_ms == 1000
            && step.next == BlinkPhase::Green,
{
    proof {
        lemma_blink_timing(phase);
    }
    match phase {
        BlinkPhase::Green => BlinkStep {
            green_on: true,
            red_on: false,
            hold_ms: GREEN_MS,
            next: BlinkPhase::Red,
        },
        BlinkPhase::Red => BlinkStep {
            green_on: false,
            red_on: true,
            hold_ms: RED_MS,
            next: BlinkPhase::Green,
        },
    }
}

/// The green LED is lit for 500 ms, then the red one for 1000 ms.
pub proof fn lemma_blink_timing(phase: BlinkPhase)
    ensures
        phase == BlinkPhase::Green ==> spec_blink_step(phase).green_on && !spec_blink_step(
            phase,
        ).red_on && spec_blink_step(phase).hold_ms == 500 && spec_blink_step(phase).next
            == BlinkPhase::Red,
        phase == BlinkPhase::Red ==> !spec_blink_step(phase).green_on && spec_blink_step(
            phase,
        ).red_on && spec_blink_step(phase).hold_ms == 1000 && spec_blink_step(phase).next
            == BlinkPhase::Green,
{
}

/// Exactly one LED is lit in every phase, the phases alternate, and a full
/// period of two phases lasts a second and a half.
pub proof fn lemma_blink_alternates(phase: BlinkPhase)
    ensures
        spec_blink_step(phase).green_on != spec_blink_step(phase).red_on,
        spec_blink_step(phase).next != phase,
        spec_blink_step(spec_blink_step(phase).next).next == phase,
        spec_blink_step(phase).hold_ms + spec_blink_step(spec_blink_step(phase).next).hold_ms
            == 1500,
{
}

} // verus!
