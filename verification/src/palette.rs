//! Four buttons select a colour of the RGB LED from a fixed palette: off,
//! light blue, pink and light green. The buttons send their numbers; any
//! other number ends the program.

use vstd::prelude::*;
use crate::pwm::{PwmConfig, PWM_TOP, spec_duty, lemma_duty_within_top};

verus! {

/// The two slice configurations whose outputs are high for the given
/// hundredths of [`PWM_TOP`]: red and green on the first slice, blue on
/// output A of the second.
pub open spec fn spec_palette_entry(red: int, green: int, blue: int) -> (PwmConfig, PwmConfig) {
    (
        PwmConfig {
            top: PWM_TOP,
            compare_a: spec_duty(PWM_TOP, red) as u16,
            compare_b: spec_duty(PWM_TOP, green) as u16,
        },
        PwmConfig { top: PWM_TOP, compare_a: spec_duty(PWM_TOP, blue) as u16, compare_b: 0 },
    )
}

/// The configurations selected by button number `value`.
pub open spec fn spec_palette(value: i32) -> Option<(PwmConfig, PwmConfig)> {
    if value == 0 {
        Some(spec_palette_entry(0, 0, 0))
    } else if value == 1 {
        Some(spec_palette_entry(74, 11, 2))
    } else if value == 2 {
        Some(spec_palette_entry(0, 75, 20))
    } else if value == 3 {
        Some(spec_palette_entry(58, 3, 73))
    } else {
        None
    }
}

/// The configurations of the two slices for button number `value`: 0 turns
/// the LED off, 1 shows light blue, 2 pink, 3 light green; any other number
/// selects nothing and ends the program.
pub fn palette_configs(value: i32) -> (configs: Option<(PwmConfig, PwmConfig)>)
    ensures
        configs == spec_palette(value),
        configs is Some <==> 0 <= value <= 3,
        configs matches Some((first, second)) ==> first.top == 32768 && second.top == 32768
            && second.compare_b == 0,
{
    proof {
        lemma_palette_values(value);
    }
    if value == 0 {
        let off = PwmConfig::off(PWM_TOP);
        Some((off, off))
    } else if value == 1 {
        Some((PwmConfig::with_percents(PWM_TOP, 74, 11), PwmConfig::with_percents(PWM_TOP, 2, 0)))
    } else if value == 2 {
        Some((PwmConfig::with_percents(PWM_TOP, 0, 75), PwmConfig::with_percents(PWM_TOP, 20, 0)))
    } else if value == 3 {
        Some((PwmConfig::with_percents(PWM_TOP, 58, 3), PwmConfig::with_percents(PWM_TOP, 73, 0)))
    } else {
        None
    }
}

/// The compare values of each colour, as the firmware sets them: off is all
/// zero; light blue 74 %, 11 % and 2 %; pink 0 %, 75 % and 20 %; light green
/// 58 %, 3 % and 73 % of the period 32768, each counted in whole hundredths
/// of 327.
pub proof fn lemma_palette_values(value: i32)
    ensures
        spec_palette(value) is Some <==> 0 <= value <= 3,
        spec_palette(value) matches Some((first, second)) ==> first.top == 32768 && second.top
            == 32768 && second.compare_b == 0,
        value == 0 ==> spec_palette(value) == Some(
            (
                PwmConfig { top: 32768, compare_a: 0, compare_b: 0 },
                PwmConfig { top: 32768, compare_a: 0, compare_b: 0 },
            ),
        ),
        value == 1 ==> spec_palette(value) == Some(
            (
                PwmConfig { top: 32768, compare_a: 24198, compare_b: 3597 },
                PwmConfig { top: 32768, compare_a: 654, compare_b: 0 },
            ),
        ),
        value == 2 ==> spec_palette(value) == Some(
            (
                PwmConfig { top: 32768, compare_a: 0, compare_b: 24525 },
                PwmConfig { top: 32768, compare_a: 6540, compare_b: 0 },
            ),
        ),
        value == 3 ==> spec_palette(value) == Some(
            (
                PwmConfig { top: 32768, compare_a: 18966, compare_b: 981 },
                PwmConfig { top: 32768, compare_a: 23871, compare_b: 0 },
            ),
        ),
{
}

/// Every colour of the palette keeps its compare values within the period,
/// and exactly the numbers 0 to 3 select a colour.
pub proof fn lemma_palette_within_period(value: i32)
    ensures
        spec_palette(value) is Some <==> 0 <= value <= 3,
        spec_palette(value) matches Some((first, second)) ==> {
            &&& first.top == PWM_TOP && second.top == PWM_TOP
            &&& first.compare_a <= PWM_TOP && first.compare_b <= PWM_TOP
            &&& second.compare_a <= PWM_TOP && second.compare_b <= PWM_TOP
        },
{
    lemma_duty_within_top(PWM_TOP, 74);
    lemma_duty_within_top(PWM_TOP, 75);
    lemma_duty_within_top(PWM_TOP, 73);
    lemma_duty_within_top(PWM_TOP, 58);
    lemma_duty_within_top(PWM_TOP, 20);
    lemma_duty_within_top(PWM_TOP, 11);
}

} // verus!
