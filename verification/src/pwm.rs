//! The PWM settings that the programs compute: the counter's wrap value and
//! the compare values of the two outputs of a slice.

use vstd::prelude::*;

verus! {

/// The wrap value every program gives its PWM slices.
pub const PWM_TOP: u16 = 0x8000;

/// The part of a PWM slice configuration that the programs read and write.
#[derive(Clone, Copy, Debug, PartialEq, Eq, Structural)]
pub struct PwmConfig {
    /// The value at which the counter wraps.
    pub top: u16,
    /// Compare value of output A.
    pub compare_a: u16,
    /// Compare value of output B.
    pub compare_b: u16,
}

/// The compare value that is `percent` hundredths of `top`, with the period
/// divided by one hundred first, as the firmware computes it.
pub open spec fn spec_duty(top: u16, percent: int) -> int {
    (top / 100) * percent
}

/// Compare value for an output that is high for `percent` hundredths of
/// `top`.
pub fn duty(top: u16, percent: u16) -> (d: u16)
    requires
        percent <= 100,
    ensures
        d == spec_duty(top, percent as int),
        d <= top,
        d == (top / 100) * percent,
{
    let unit: u16 = top / 100;
    assert(unit * percent <= unit * 100) by (nonlinear_arith)
        requires
            percent <= 100,
    ;
    unit * percent
}

impl PwmConfig {
    /// A configuration with both outputs low all the time.
    pub fn off(top: u16) -> (c: PwmConfig)
        ensures
            c == (PwmConfig { top: top, compare_a: 0, compare_b: 0 }),
    {
        PwmConfig { top, compare_a: 0, compare_b: 0 }
    }

    /// A configuration whose outputs are high for the given hundredths of
    /// `top`.
    pub fn with_percents(top: u16, percent_a: u16, percent_b: u16) -> (c: PwmConfig)
        requires
            percent_a <= 100,
            percent_b <= 100,
        ensures
            c.top == top,
            c.compare_a == spec_duty(top, percent_a as int),
            c.compare_b == spec_duty(top, percent_b as int),
    {
        PwmConfig { top, compare_a: duty(top, percent_a), compare_b: duty(top, percent_b) }
    }
}

/// A compare value never exceeds the period it is taken of.
pub proof fn lemma_duty_within_top(top: u16, percent: int)
    requires
        0 <= percent <= 100,
    ensures
        0 <= spec_duty(top, percent) <= top,
{
    assert(0 <= (top / 100) * percent <= (top / 100) * 100) by (nonlinear_arith)
        requires
            0 <= percent <= 100,
    ;
}

/// A compare value is the period's whole hundredths, `percent` times: it
/// never exceeds the exact share of the period, falls short of it by less
/// than `percent`, and grows with `percent`.
pub proof fn lemma_duty_rounds_down(top: u16, low: int, high: int)
    requires
        0 <= low <= high <= 100,
    ensures
        spec_duty(top, low) == (top / 100) * low,
        100 * spec_duty(top, low) <= top * low,
        top * low < 100 * spec_duty(top, low) + 100 * low || low == 0,
        spec_duty(top, low) <= spec_duty(top, high),
        spec_duty(top, 0) == 0,
{
    let u = top / 100;
    assert(100 * u <= top < 100 * u + 100) by (nonlinear_arith)
        requires
            u == top / 100,
    ;
    assert(100 * (u * low) <= top * low) by (nonlinear_arith)
        requires
            100 * u <= top,
            0 <= low,
    ;
    assert(low == 0 || top * low < 100 * (u * low) + 100 * low) by (nonlinear_arith)
        requires
            top < 100 * u + 100,
            0 <= low,
    ;
    assert(u * low <= u * high) by (nonlinear_arith)
        requires
            0 <= low <= high,
            0 <= u,
    ;
}

} // verus!
