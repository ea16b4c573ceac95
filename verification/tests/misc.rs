use pi_labs::dice::{draw_outcome, outcome_from_value, outcome_message, MyEnum};
use pi_labs::led::{fade_schedule, reading_pulse_width_ms, FADE_STEPS};
use pi_labs::stepper::run_time;
use std::time::Duration;

#[test]
fn values_map_to_outcomes() {
    assert_eq!(outcome_from_value(0), MyEnum::Error);
    assert_eq!(outcome_from_value(1), MyEnum::One);
    assert_eq!(outcome_from_value(2), MyEnum::Two);
    assert_eq!(outcome_from_value(3), MyEnum::Three);
    assert_eq!(outcome_from_value(4), MyEnum::Error);
    assert_eq!(outcome_from_value(-1), MyEnum::Error);
}

#[test]
fn draws_never_give_three() {
    let mut seen = [false; 3];
    for _ in 0..2000 {
        match draw_outcome() {
            MyEnum::Error => seen[0] = true,
            MyEnum::One => seen[1] = true,
            MyEnum::Two => seen[2] = true,
            MyEnum::Three => panic!("three drawn"),
        }
    }
    assert_eq!(seen, [true, true, true]);
}

#[test]
fn messages_name_the_outcome() {
    assert_eq!(outcome_message(MyEnum::One), "User got a one");
    assert_eq!(outcome_message(MyEnum::Two), "User got a two");
    assert_eq!(outcome_message(MyEnum::Three), "User got a three");
}

#[test]
fn fade_goes_up_then_down() {
    let f = fade_schedule();
    assert_eq!(f.len(), FADE_STEPS);
    assert_eq!(f[0], 0);
    assert_eq!(f[999], 999);
    assert_eq!(f[1000], 1500);
    assert_eq!(f[1999], 501);
    assert!(f[..1000].windows(2).all(|w| w[0] < w[1]));
    assert!(f[1000..].windows(2).all(|w| w[0] > w[1]));
}

#[test]
fn reading_scales_by_five() {
    assert_eq!(reading_pulse_width_ms(0), 0);
    assert_eq!(reading_pulse_width_ms(255), 1275);
}

#[test]
fn stepper_run_time_multiplies() {
    assert_eq!(run_time(Duration::from_millis(100), 100), Some(Duration::from_secs(10)));
    assert_eq!(run_time(Duration::from_millis(100), 0), Some(Duration::ZERO));
    assert_eq!(run_time(Duration::MAX, 2), None);
}
