use pico_lab::color::{change_color, cycle_step, inverse_percent, ColorRead, CycleStep};
use pico_lab::pwm::PwmConfig;

#[test]
fn inverse_percent_values() {
    assert_eq!(inverse_percent(0), 100);
    assert_eq!(inverse_percent(255), 0);
    assert_eq!(inverse_percent(128), 50);
    assert_eq!(inverse_percent(66), 75);
    assert_eq!(inverse_percent(3), 99);
}

#[test]
fn inverse_percent_falls_as_level_rises() {
    let mut last = inverse_percent(0);
    for level in 1..=255u8 {
        let p = inverse_percent(level);
        assert!(p <= last);
        last = p;
    }
}

#[test]
fn change_color_sets_three_outputs() {
    let c1 = PwmConfig { top: 0x8000, compare_a: 0, compare_b: 0 };
    let c2 = PwmConfig { top: 0x8000, compare_a: 0, compare_b: 7 };
    let (a, b) = change_color([255, 0, 128], c1, c2);
    assert_eq!(a, PwmConfig { top: 0x8000, compare_a: 0, compare_b: 32700 });
    assert_eq!(b, PwmConfig { top: 0x8000, compare_a: 16350, compare_b: 7 });
}

#[test]
fn change_color_keeps_each_period() {
    let c1 = PwmConfig { top: 1000, compare_a: 5, compare_b: 5 };
    let c2 = PwmConfig { top: 200, compare_a: 5, compare_b: 5 };
    let (a, b) = change_color([0, 0, 0], c1, c2);
    assert_eq!(a, PwmConfig { top: 1000, compare_a: 1000, compare_b: 1000 });
    assert_eq!(b, PwmConfig { top: 200, compare_a: 200, compare_b: 5 });
}

#[test]
fn cycle_first_step_reads_from_start() {
    assert_eq!(
        cycle_step(0),
        CycleStep { wait_ms: 2000, read: ColorRead::FromStart, next: 1 }
    );
    assert_eq!(cycle_step(5), CycleStep { wait_ms: 500, read: ColorRead::Next, next: 6 });
    assert_eq!(cycle_step(9), CycleStep { wait_ms: 500, read: ColorRead::Next, next: 0 });
}

#[test]
fn cycle_returns_after_ten_steps() {
    let mut position = 0u8;
    let mut waited = 0u64;
    let mut from_start = 0;
    for _ in 0..10 {
        let step = cycle_step(position);
        waited += step.wait_ms;
        if step.read == ColorRead::FromStart {
            from_start += 1;
        }
        position = step.next;
    }
    assert_eq!(position, 0);
    assert_eq!(waited, 6500);
    assert_eq!(from_start, 1);
}
