use pico_lab::blink::{blink_step, BlinkPhase, BlinkStep};
use pico_lab::dimmer::{Adjust, Dimmer};
use pico_lab::pwm::PwmConfig;

#[test]
fn dimmer_starts_full() {
    let d = Dimmer::new();
    assert_eq!(d.config, PwmConfig { top: 0x8000, compare_a: 0x8000, compare_b: 0x8000 });
    assert_eq!(d.step, 3276);
}

#[test]
fn dimmer_raise_at_full_is_ignored() {
    let mut d = Dimmer::new();
    assert_eq!(d.press(Adjust::Raise), None);
    assert_eq!(d.config.compare_a, 0x8000);
}

#[test]
fn dimmer_lower_until_floor() {
    let mut d = Dimmer::new();
    let mut taken = 0;
    while d.press(Adjust::Lower).is_some() {
        taken += 1;
    }
    assert_eq!(taken, 10);
    assert_eq!(d.config.compare_a, 8);
    assert_eq!(d.config.compare_b, 8);
    assert_eq!(d.press(Adjust::Lower), None);
    assert_eq!(d.config.compare_a, 8);
}

#[test]
fn dimmer_lower_then_raise_undoes() {
    let mut d = Dimmer::new();
    let first = d.press(Adjust::Lower);
    assert_eq!(first, Some(PwmConfig { top: 0x8000, compare_a: 29492, compare_b: 29492 }));
    let second = d.press(Adjust::Raise);
    assert_eq!(second, Some(PwmConfig { top: 0x8000, compare_a: 0x8000, compare_b: 0x8000 }));
}

#[test]
fn blink_alternates() {
    assert_eq!(
        blink_step(BlinkPhase::Green),
        BlinkStep { green_on: true, red_on: false, hold_ms: 500, next: BlinkPhase::Red }
    );
    assert_eq!(
        blink_step(BlinkPhase::Red),
        BlinkStep { green_on: false, red_on: true, hold_ms: 1000, next: BlinkPhase::Green }
    );
}
