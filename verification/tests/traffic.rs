use pi_labs::traffic::{Location, StopLights};
use std::time::Duration;

fn lamps(s: &StopLights) -> (bool, bool, bool) {
    (s.red, s.yellow, s.green)
}

#[test]
fn new_light_is_red_and_unplaced() {
    let s = StopLights::new(Duration::from_millis(5000));
    assert_eq!(lamps(&s), (true, false, false));
    assert_eq!(s.wait_timer, Duration::from_millis(1000));
    assert_eq!(s.max_time, Duration::from_millis(5000));
    assert_eq!(s.state, 0);
    assert_eq!(s.location, Location::NA);
}

#[test]
fn set_location_changes_only_the_region() {
    let mut s = StopLights::new(Duration::from_millis(5000));
    s.set_location(Location::EU);
    assert_eq!(s.location, Location::EU);
    assert_eq!(s.state, 0);
    assert_eq!(lamps(&s), (true, false, false));
}

#[test]
fn eu_cycle_shows_red_yellow_before_green() {
    let mut s = StopLights::new(Duration::from_millis(5000));
    s.set_location(Location::EU);
    assert!(s.state_machine().is_none());
    assert_eq!(s.state, 1);
    assert_eq!(lamps(&s), (true, false, false));

    let c = s.state_machine().unwrap();
    assert_eq!((c.red, c.yellow, c.green), (true, true, false));
    assert_eq!(c.hold, Duration::from_millis(1000));
    assert_eq!(s.state, 2);

    let c = s.state_machine().unwrap();
    assert_eq!((c.red, c.yellow, c.green), (false, false, true));
    assert_eq!(c.hold, Duration::from_millis(5000));
    assert_eq!(s.state, 3);

    let c = s.state_machine().unwrap();
    assert_eq!((c.red, c.yellow, c.green), (false, true, false));
    assert_eq!(c.hold, Duration::from_millis(1000));
    assert_eq!(s.state, 4);

    let c = s.state_machine().unwrap();
    assert_eq!((c.red, c.yellow, c.green), (true, false, false));
    assert_eq!(c.hold, Duration::from_millis(5000));
    assert_eq!(s.state, 1);
}

#[test]
fn us_cycle_shows_yellow_alone_before_green() {
    let mut s = StopLights::new(Duration::from_millis(3000));
    s.set_location(Location::US);
    s.state_machine();
    let c = s.state_machine().unwrap();
    assert_eq!((c.red, c.yellow, c.green), (false, true, false));
    assert_eq!(c.hold, Duration::from_millis(1000));
}

#[test]
fn four_steps_return_to_the_same_state() {
    let mut s = StopLights::new(Duration::from_millis(2000));
    s.set_location(Location::US);
    s.state_machine();
    let before = (lamps(&s), s.state);
    for _ in 0..4 {
        s.state_machine();
    }
    assert_eq!((lamps(&s), s.state), before);
}

#[test]
fn red_and_green_never_lit_together() {
    let mut s = StopLights::new(Duration::from_millis(2000));
    s.set_location(Location::EU);
    for i in 0..40 {
        if i == 17 {
            s.set_location(Location::US);
        }
        let c = s.state_machine();
        assert!(!(s.red && s.green));
        if let Some(c) = c {
            assert!(!(c.red && c.green));
        }
    }
}

#[test]
fn hold_expires_once_the_limit_is_reached() {
    let limit = Duration::from_millis(1000);
    assert!(!StopLights::hold_expired(Duration::from_millis(500), limit));
    assert!(StopLights::hold_expired(Duration::from_millis(1000), limit));
    assert!(StopLights::hold_expired(Duration::from_millis(1500), limit));
    assert!(!StopLights::hold_expired(Duration::from_nanos(999_999_999), limit));
}

#[test]
fn zero_hold_ends_at_once() {
    assert!(StopLights::hold_expired(Duration::ZERO, Duration::ZERO));
    assert!(StopLights::hold_expired(Duration::from_millis(3), Duration::ZERO));
}

#[test]
fn four_steps_cycle_from_every_phase() {
    for loc in [Location::US, Location::EU] {
        let mut s = StopLights::new(Duration::from_millis(2000));
        s.set_location(loc);
        s.state_machine();
        for _ in 0..4 {
            let before = (lamps(&s), s.state);
            for _ in 0..4 {
                s.state_machine();
            }
            assert_eq!((lamps(&s), s.state), before);
            s.state_machine();
        }
    }
}

#[test]
fn green_is_followed_by_yellow_then_red_across_region_changes() {
    let mut s = StopLights::new(Duration::from_millis(2000));
    s.set_location(Location::EU);
    let mut written = vec![(s.red, s.yellow, s.green)];
    for i in 0..30 {
        if i % 7 == 3 {
            s.set_location(if i % 2 == 0 { Location::US } else { Location::EU });
        }
        if let Some(c) = s.state_machine() {
            written.push((c.red, c.yellow, c.green));
        }
    }
    for i in 0..written.len() - 2 {
        if written[i] == (false, false, true) {
            assert_eq!(written[i + 1], (false, true, false));
            assert_eq!(written[i + 2], (true, false, false));
        }
        if written[i] == (true, false, false) {
            assert!(written[i + 1].1 && !written[i + 1].2);
        }
    }
    assert_eq!(written[0], (true, false, false));
    assert_eq!(written[1], (true, true, false));
}
