use pico_lab::palette::palette_configs;
use pico_lab::pwm::{duty, PwmConfig, PWM_TOP};

#[test]
fn duty_divides_period_first() {
    assert_eq!(duty(0x8000, 100), 32700);
    assert_eq!(duty(0x8000, 50), 16350);
    assert_eq!(duty(0x8000, 0), 0);
    assert_eq!(duty(99, 100), 0);
    assert_eq!(duty(u16::MAX, 100), 65500);
}

#[test]
fn pwm_off_and_percents() {
    assert_eq!(
        PwmConfig::off(PWM_TOP),
        PwmConfig { top: 0x8000, compare_a: 0, compare_b: 0 }
    );
    assert_eq!(
        PwmConfig::with_percents(PWM_TOP, 74, 11),
        PwmConfig { top: 0x8000, compare_a: 24198, compare_b: 3597 }
    );
}

#[test]
fn palette_off() {
    let off = PwmConfig { top: 0x8000, compare_a: 0, compare_b: 0 };
    assert_eq!(palette_configs(0), Some((off, off)));
}

#[test]
fn palette_light_blue() {
    assert_eq!(
        palette_configs(1),
        Some((
            PwmConfig { top: 0x8000, compare_a: 24198, compare_b: 3597 },
            PwmConfig { top: 0x8000, compare_a: 654, compare_b: 0 },
        ))
    );
}

#[test]
fn palette_pink() {
    assert_eq!(
        palette_configs(2),
        Some((
            PwmConfig { top: 0x8000, compare_a: 0, compare_b: 24525 },
            PwmConfig { top: 0x8000, compare_a: 6540, compare_b: 0 },
        ))
    );
}

#[test]
fn palette_light_green() {
    assert_eq!(
        palette_configs(3),
        Some((
            PwmConfig { top: 0x8000, compare_a: 18966, compare_b: 981 },
            PwmConfig { top: 0x8000, compare_a: 23871, compare_b: 0 },
        ))
    );
}

#[test]
fn palette_other_numbers_stop() {
    assert_eq!(palette_configs(4), None);
    assert_eq!(palette_configs(-1), None);
    assert_eq!(palette_configs(i32::MAX), None);
}
