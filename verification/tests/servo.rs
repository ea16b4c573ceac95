use pi_labs::servo::{
    adjust_step, pitch_to_step_signal, roll_to_pulse_offset, ServoFollower, ServoPhase,
    INITIAL_STEP, PULSE_NEUTRAL_US,
};

#[test]
fn roll_offsets_round_toward_zero() {
    assert_eq!(roll_to_pulse_offset(90), 500);
    assert_eq!(roll_to_pulse_offset(-45), -250);
    assert_eq!(roll_to_pulse_offset(1), 5);
    assert_eq!(roll_to_pulse_offset(-1), -5);
    assert_eq!(roll_to_pulse_offset(180), 1000);
    assert_eq!(roll_to_pulse_offset(0), 0);
}

#[test]
fn pitch_signals_round_toward_zero() {
    assert_eq!(pitch_to_step_signal(30), 1);
    assert_eq!(pitch_to_step_signal(-60), -3);
    assert_eq!(pitch_to_step_signal(90), 5);
    assert_eq!(pitch_to_step_signal(-17), 0);
}

#[test]
fn step_moves_by_one_within_bounds() {
    assert_eq!(adjust_step(10, 4), 11);
    assert_eq!(adjust_step(10, 3), 10);
    assert_eq!(adjust_step(10, -4), 9);
    assert_eq!(adjust_step(20, 5), 20);
    assert_eq!(adjust_step(1, -5), 1);
    assert_eq!(adjust_step(19, 100), 20);
}

#[test]
fn step_stays_in_range_over_many_readings() {
    let mut step = INITIAL_STEP;
    let signals = [5, 5, 5, 5, 5, 5, 5, 5, 5, 5, 5, 5, -9, -9, -9, -9, -9, -9, -9, -9, -9, -9,
        -9, -9, -9, -9, -9, -9, -9, -9, -9, -9, -9, -9, 0];
    for s in signals {
        let next = adjust_step(step, s);
        assert!((1..=20).contains(&next));
        assert!((next - step).abs() <= 1);
        step = next;
    }
    assert_eq!(step, 1);
}

#[test]
fn follower_starts_neutral() {
    let f = ServoFollower::new();
    assert_eq!(f.pulse, PULSE_NEUTRAL_US);
    assert_eq!(f.phase, ServoPhase::Idle);
}

#[test]
fn follower_walks_up_and_stops_short_of_reading() {
    let mut f = ServoFollower::new();
    assert!(f.can_accept(20, 10));
    assert_eq!(f.on_reading(20, 10), None);
    assert_eq!(f.pulse, 1510);
    assert_eq!(f.phase, ServoPhase::Rising { target: 1520 });
    assert_eq!(f.on_reading(20, 10), Some(1510));
    assert_eq!(f.pulse, 1520);
    assert_eq!(f.on_reading(20, 10), None);
    assert_eq!(f.phase, ServoPhase::Idle);
    assert_eq!(f.pulse, 1520);
}

#[test]
fn follower_walk_ends_at_its_target() {
    let mut f = ServoFollower::new();
    f.on_reading(20, 10);
    assert_eq!(f.on_reading(100, 10), Some(1510));
    assert_eq!(f.on_reading(100, 5), Some(1520));
    assert_eq!(f.phase, ServoPhase::Idle);
    assert_eq!(f.pulse, 1520);
}

#[test]
fn follower_walks_down() {
    let mut f = ServoFollower::new();
    assert_eq!(f.on_reading(-30, 10), None);
    assert_eq!(f.pulse, 1490);
    assert_eq!(f.phase, ServoPhase::Falling { target: 1470 });
    assert_eq!(f.on_reading(-30, 10), Some(1490));
    assert_eq!(f.pulse, 1480);
    assert_eq!(f.on_reading(-30, 10), Some(1480));
    assert_eq!(f.pulse, 1470);
    assert_eq!(f.on_reading(-30, 10), None);
    assert_eq!(f.phase, ServoPhase::Idle);
}

#[test]
fn follower_ignores_equal_reading() {
    let mut f = ServoFollower::new();
    assert_eq!(f.on_reading(0, 10), None);
    assert_eq!(f.pulse, 1500);
    assert_eq!(f.phase, ServoPhase::Idle);
}

#[test]
fn follower_refuses_underflow() {
    let f = ServoFollower { pulse: 3, phase: ServoPhase::Idle };
    assert!(!f.can_accept(-1500, 10));
    assert!(f.can_accept(-1500, 3));
    assert!(!f.can_accept(i64::MAX, 1));
}
