//! Two buttons lower and raise the compare values of two PWM slices in steps of a
//! tenth of the period. Both outputs of a slice always carry the same
//! compare value.

use vstd::prelude::*;
use crate::pwm::{PwmConfig, PWM_TOP};

verus! {

/// The two buttons of the dimmer: A lowers, B raises.
#[derive(Clone, Copy, Debug, PartialEq, Eq, Structural)]
pub enum Adjust {
    /// Lowers both compare values by one step (button A).
    Lower,
    /// Raises both compare values by one step (button B).
    Raise,
}

/// The dimmer's state: the configuration written to the slices and the
/// size of one step.
pub struct Dimmer {
    /// The configuration last written to the PWM slices.
    pub config: PwmConfig,
    /// The amount one press moves the compare values by.
    pub step: u16,
}

impl Dimmer {
    /// Both outputs carry the same compare value, which stays within the
    /// period.
    pub open spec fn wf(self) -> bool {
        &&& self.config.compare_a == self.config.compare_b
        &&& self.config.compare_a <= self.config.top
        &&& self.step <= self.config.top
    }

    /// The dimmer after a press of `button`; `None` in place of a new
    /// configuration when the press would leave the range and is ignored.
    pub open spec fn spec_press(self, button: Adjust) -> (Dimmer, Option<PwmConfig>) {
        let c = self.config;
        match button {
            Adjust::Lower => if c.compare_a < self.step {
                (self, None)
            } else {
                let n = PwmConfig {
                    top: c.top,
                    compare_a: (c.compare_a - self.step) as u16,
                    compare_b: (c.compare_b - self.step) as u16,
                };
                (Dimmer { config: n, step: self.step }, Some(n))
            },
            Adjust::Raise => if c.compare_a > c.top - self.step {
                (self, None)
            } else {
                let n = PwmConfig {
                    top: c.top,
                    compare_a: (c.compare_a + self.step) as u16,
                    compare_b: (c.compare_b + self.step) as u16,
                };
                (Dimmer { config: n, step: self.step }, Some(n))
            },
        }
    }

    /// The dimmer as the firmware starts it: outputs at the full period,
    /// steps of a tenth of it.
    pub fn new() -> (d: Dimmer)
        ensures
            d.wf(),
            d.config == (PwmConfig { top: PWM_TOP, compare_a: PWM_TOP, compare_b: PWM_TOP }),
            d.step == PWM_TOP / 10,
            d.config.top == 32768 && d.config.compare_a == 32768 && d.step == 3276,
    {
        let top: u16 = PWM_TOP;
        Dimmer { config: PwmConfig { top, compare_a: top, compare_b: top }, step: top / 10 }
    }

    /// Handles a press: moves both compare values one step down or up and
    /// returns the configuration to write, or returns `None` and changes
    /// nothing when the step would go below zero or above the period.
    pub fn press(&mut self, button: Adjust) -> (update: Option<PwmConfig>)
        requires
            old(self).wf(),
        ensures
            (*final(self), update) == old(self).spec_press(button),
            final(self).wf(),
            final(self).step == old(self).step,
            final(self).config.top == old(self).config.top,
            update is None ==> *final(self) == *old(self),
            update matches Some(c) ==> c == final(self).config,
            button == Adjust::Lower ==> (update is Some <==> old(self).config.compare_a >= old(
                self,
            ).step),
            button == Adjust::Raise ==> (update is Some <==> old(self).config.compare_a + old(
                self,
            ).step <= old(self).config.top),
            button == Adjust::Lower && update is Some ==> final(self).config.compare_a == old(
                self,
            ).config.compare_a - old(self).step,
            button == Adjust::Raise && update is Some ==> final(self).config.compare_a == old(
                self,
            ).config.compare_a + old(self).step,
            final(self).config.compare_b == final(self).config.compare_a,
    {
        proof {
            lemma_press_moves_one_step(*old(self), button);
        }
        match button {
            Adjust::Lower => {
                if self.config.compare_a < self.step {
                    return None;
                }
                self.config.compare_a = self.config.compare_a - self.step;
                self.config.compare_b = self.config.compare_b - self.step;
            },
            Adjust::Raise => {
                if self.config.compare_a > self.config.top - self.step {
                    return None;
                }
                self.config.compare_a = self.config.compare_a + self.step;
                self.config.compare_b = self.config.compare_b + self.step;
            },
        }
        Some(self.config)
    }
}

/// A lower press is taken exactly when the compare value is at least one
/// step, and then takes one step off both outputs; a raise press is taken
/// exactly when one more step stays within the period, and then adds one step
/// to both. The period and the step never change, and an ignored press
/// changes nothing.
pub proof fn lemma_press_moves_one_step(d: Dimmer, button: Adjust)
    requires
        d.wf(),
    ensures
        ({
            let (after, update) = d.spec_press(button);
            &&& after.step == d.step && after.config.top == d.config.top
            &&& after.config.compare_b == after.config.compare_a
            &&& update is None ==> after == d
            &&& update matches Some(c) ==> c == after.config
            &&& button == Adjust::Lower ==> (update is Some <==> d.config.compare_a >= d.step)
            &&& button == Adjust::Raise ==> (update is Some <==> d.config.compare_a + d.step
                <= d.config.top)
            &&& button == Adjust::Lower && update is Some ==> after.config.compare_a
                == d.config.compare_a - d.step
            &&& button == Adjust::Raise && update is Some ==> after.config.compare_a
                == d.config.compare_a + d.step
        }),
{
}

/// A press keeps the dimmer well formed: both outputs equal and within the
/// period.
pub proof fn lemma_press_keeps_wf(d: Dimmer, button: Adjust)
    requires
        d.wf(),
    ensures
        d.spec_press(button).0.wf(),
{
}

/// Lowering one step and then raising one step gives back the
/// configuration one started from, and so does the other order.
pub proof fn lemma_press_undoes(d: Dimmer)
    requires
        d.wf(),
    ensures
        d.spec_press(Adjust::Lower).1 is Some ==> d.spec_press(Adjust::Lower).0.spec_press(
            Adjust::Raise,
        ).0 == d,
        d.spec_press(Adjust::Raise).1 is Some ==> d.spec_press(
            Adjust::Raise,
        ).0.spec_press(Adjust::Lower).0 == d,
{
}

/// A press that is ignored changes nothing, and a press that is taken
/// reports exactly the configuration now held.
pub proof fn lemma_update_reports_state(d: Dimmer, button: Adjust)
    requires
        d.wf(),
    ensures
        d.spec_press(button).1 is None ==> d.spec_press(button).0 == d,
        d.spec_press(button).1 matches Some(c) ==> c == d.spec_press(button).0.config,
{
}

} // verus!
