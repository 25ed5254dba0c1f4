//! Colours of an RGB LED driven by two PWM slices: red and green on the two
//! outputs of the first slice, blue on output A of the second. The compare
//! values are inverted: a colour byte of 255 gives a compare value of zero,
//! a byte of 0 the whole period. The colours come from a table of ten in the
//! EEPROM, read one after the other.

use vstd::prelude::*;
use crate::pwm::{PwmConfig, spec_duty, duty, lemma_duty_within_top};

verus! {

/// Number of colours in the EEPROM table.
pub const COLOR_COUNT: u8 = 10;

/// Pause before the first colour of a pass over the table.
pub const FIRST_COLOR_WAIT_MS: u64 = 2000;

/// Pause before each further colour.
pub const NEXT_COLOR_WAIT_MS: u64 = 500;

/// The share of the period, in hundredths, that an output stays high for a
/// colour byte: the byte scaled to hundredths (rounded down), taken from one
/// hundred.
pub open spec fn spec_inverse_percent(level: u8) -> int {
    100 - (level * 100) / 255
}

/// The configurations of the two slices that show the colour `rgb`, made
/// from the slices' current configurations.
pub open spec fn spec_change_color(rgb: Seq<u8>, config1: PwmConfig, config2: PwmConfig) -> (
    PwmConfig,
    PwmConfig,
) {
    (
        PwmConfig {
            top: config1.top,
            compare_a: spec_duty(config1.top, spec_inverse_percent(rgb[0])) as u16,
            compare_b: spec_duty(config1.top, spec_inverse_percent(rgb[1])) as u16,
        },
        PwmConfig {
            top: config2.top,
            compare_a: spec_duty(config2.top, spec_inverse_percent(rgb[2])) as u16,
            compare_b: config2.compare_b,
        },
    )
}

/// The share of the period, in hundredths, that an output stays high for the
/// colour byte `level`.
pub fn inverse_percent(level: u8) -> (percent: u16)
    ensures
        percent == spec_inverse_percent(level),
        percent <= 100,
        255 * (100 - percent) <= 100 * level < 255 * (101 - percent),
{
    let scaled: u16 = level as u16 * 100 / 255;
    assert(scaled <= 100) by (nonlinear_arith)
        requires
            scaled == level as u16 * 100 / 255,
            level <= 255,
    ;
    proof {
        lemma_inverse_percent_rounds(level);
    }
    100 - scaled
}

/// The configurations that show the colour `rgb` (red, green, blue): each
/// compare value is the inverse share of its colour byte; the periods and the
/// unused output B of the second slice stay as they were.
pub fn change_color(rgb: [u8; 3], config1: PwmConfig, config2: PwmConfig) -> (configs: (
    PwmConfig,
    PwmConfig,
))
    ensures
        configs == spec_change_color(rgb@, config1, config2),
        configs.0.top == config1.top,
        configs.0.compare_a == (config1.top / 100) * (100 - (rgb[0] * 100) / 255),
        configs.0.compare_b == (config1.top / 100) * (100 - (rgb[1] * 100) / 255),
        configs.1.top == config2.top,
        configs.1.compare_a == (config2.top / 100) * (100 - (rgb[2] * 100) / 255),
        configs.1.compare_b == config2.compare_b,
{
    proof {
        lemma_change_color_shares(rgb@, config1, config2);
    }
    let red: u16 = inverse_percent(rgb[0]);
    let green: u16 = inverse_percent(rgb[1]);
    let blue: u16 = inverse_percent(rgb[2]);
    let first = PwmConfig {
        top: config1.top,
        compare_a: duty(config1.top, red),
        compare_b: duty(config1.top, green),
    };
    let second = PwmConfig {
        top: config2.top,
        compare_a: duty(config2.top, blue),
        compare_b: config2.compare_b,
    };
    (first, second)
}

/// How a colour is fetched from the EEPROM.
#[derive(Clone, Copy, Debug, PartialEq, Eq, Structural)]
pub enum ColorRead {
    /// Set the EEPROM's address to the start of the table, then read.
    FromStart,
    /// Read on from where the last read ended.
    Next,
}

/// One step of the pass over the colour table.
#[derive(Clone, Copy, Debug, PartialEq, Eq, Structural)]
pub struct CycleStep {
    /// How long to wait before reading.
    pub wait_ms: u64,
    /// How to read the colour.
    pub read: ColorRead,
    /// The position of the next step.
    pub next: u8,
}

/// The step at `position` of the pass over the table.
pub open spec fn spec_cycle_step(position: u8) -> CycleStep {
    if position == 0 {
        CycleStep { wait_ms: FIRST_COLOR_WAIT_MS, read: ColorRead::FromStart, next: 1 }
    } else {
        CycleStep {
            wait_ms: NEXT_COLOR_WAIT_MS,
            read: ColorRead::Next,
            next: if position + 1 == COLOR_COUNT {
                0
            } else {
                (position + 1) as u8
            },
        }
    }
}

/// The position reached after `steps` steps from `position`.
pub open spec fn spec_position_after(position: u8, steps: nat) -> u8
    decreases steps,
{
    if steps == 0 {
        position
    } else {
        spec_position_after(spec_cycle_step(position).next, (steps - 1) as nat)
    }
}

/// The total wait of `steps` steps from `position`.
pub open spec fn spec_wait_after(position: u8, steps: nat) -> int
    decreases steps,
{
    if steps == 0 {
        0
    } else {
        spec_cycle_step(position).wait_ms + spec_wait_after(
            spec_cycle_step(position).next,
            (steps - 1) as nat,
        )
    }
}

/// What to do at `position` of the pass over the colour table: the first
/// colour after a long wait, read from the start of the table; the other nine
/// after a short wait, each read on from the previous one.
pub fn cycle_step(position: u8) -> (step: CycleStep)
    requires
        position < COLOR_COUNT,
    ensures
        step == spec_cycle_step(position),
        step.next < COLOR_COUNT,
        position == 0 ==> step.wait_ms == 2000 && step.read == ColorRead::FromStart && step.next
            == 1,
        position > 0 ==> step.wait_ms == 500 && step.read == ColorRead::Next && step.next == (
        position + 1) % 10,
{
    proof {
        lemma_cycle_step_timing(position);
    }
    if position == 0 {
        CycleStep { wait_ms: FIRST_COLOR_WAIT_MS, read: ColorRead::FromStart, next: 1 }
    } else {
        let next: u8 = if position + 1 == COLOR_COUNT {
            0
        } else {
            position + 1
        };
        CycleStep { wait_ms: NEXT_COLOR_WAIT_MS, read: ColorRead::Next, next }
    }
}

/// The share of a colour byte is the byte scaled to hundredths, rounded
/// down, taken from one hundred: `100 - percent` is the largest number of
/// hundredths that the byte, as a fraction of 255, reaches.
pub proof fn lemma_inverse_percent_rounds(level: u8)
    ensures
        0 <= spec_inverse_percent(level) <= 100,
        255 * (100 - spec_inverse_percent(level)) <= 100 * level,
        100 * level < 255 * (101 - spec_inverse_percent(level)),
{
    let q = (level * 100) / 255;
    assert(255 * q <= 100 * level < 255 * (q + 1) && 0 <= q <= 100) by (nonlinear_arith)
        requires
            q == (level * 100) / 255,
            0 <= level <= 255,
    ;
}

/// Each compare value of a shown colour is the inverse share of its own byte
/// of the period of its own slice, and of nothing else: red drives output A
/// and green output B of the first slice, blue output A of the second; the
/// periods and the second slice's output B are kept.
pub proof fn lemma_change_color_shares(rgb: Seq<u8>, config1: PwmConfig, config2: PwmConfig)
    requires
        rgb.len() == 3,
    ensures
        ({
            let (first, second) = spec_change_color(rgb, config1, config2);
            &&& first.top == config1.top
            &&& first.compare_a == (config1.top / 100) * (100 - (rgb[0] * 100) / 255)
            &&& first.compare_b == (config1.top / 100) * (100 - (rgb[1] * 100) / 255)
            &&& second.top == config2.top
            &&& second.compare_a == (config2.top / 100) * (100 - (rgb[2] * 100) / 255)
            &&& second.compare_b == config2.compare_b
        }),
{
    lemma_inverse_percent_rounds(rgb[0]);
    lemma_inverse_percent_rounds(rgb[1]);
    lemma_inverse_percent_rounds(rgb[2]);
    lemma_duty_within_top(config1.top, spec_inverse_percent(rgb[0]));
    lemma_duty_within_top(config1.top, spec_inverse_percent(rgb[1]));
    lemma_duty_within_top(config2.top, spec_inverse_percent(rgb[2]));
}

/// The first colour of a pass is read from the start of the table after two
/// seconds; every other colour is read on from the last one after half a
/// second; the steps go round the ten positions in order.
pub proof fn lemma_cycle_step_timing(position: u8)
    requires
        position < 10,
    ensures
        position == 0 ==> spec_cycle_step(position).wait_ms == 2000,
        position == 0 ==> spec_cycle_step(position).read == ColorRead::FromStart,
        position > 0 ==> spec_cycle_step(position).wait_ms == 500,
        position > 0 ==> spec_cycle_step(position).read == ColorRead::Next,
        spec_cycle_step(position).next == (position + 1) % 10,
{
}

/// A brighter colour byte never gives a larger compare value: a zero byte
/// gives the whole hundred hundredths, a full byte none, and in between the
/// share falls as the byte rises.
pub proof fn lemma_inverse_percent_falls(low: u8, high: u8, top: u16)
    requires
        low <= high,
    ensures
        spec_inverse_percent(0) == 100,
        spec_inverse_percent(255) == 0,
        0 <= spec_inverse_percent(high) <= spec_inverse_percent(low) <= 100,
        spec_duty(top, spec_inverse_percent(high)) <= spec_duty(top, spec_inverse_percent(low)),
        spec_duty(top, spec_inverse_percent(low)) <= top,
{
    assert((low * 100) / 255 <= (high * 100) / 255) by (nonlinear_arith)
        requires
            low <= high,
    ;
    assert((high * 100) / 255 <= 100) by (nonlinear_arith)
        requires
            high <= 255,
    ;
    let pl = spec_inverse_percent(low);
    let ph = spec_inverse_percent(high);
    assert((top / 100) * ph <= (top / 100) * pl) by (nonlinear_arith)
        requires
            ph <= pl,
    ;
    lemma_duty_within_top(top, pl);
}

/// A pass over the table returns to its start after ten steps, reads from the
/// start of the table exactly at its first step, and waits 6.5 seconds in all.
pub proof fn lemma_cycle_returns(position: u8)
    requires
        position < COLOR_COUNT,
    ensures
        spec_position_after(0, 10) == 0,
        spec_wait_after(0, 10) == 6500,
        spec_cycle_step(position).read == ColorRead::FromStart <==> position == 0,
        spec_cycle_step(position).next < COLOR_COUNT,
{
    reveal_with_fuel(spec_position_after, 11);
    reveal_with_fuel(spec_wait_after, 11);
}

} // verus!
