use signal2sip::pacing::{Pacer, PERIOD_NS};

#[test]
fn a_period_is_ten_milliseconds() {
    assert_eq!(PERIOD_NS, 10_000_000);
}

#[test]
fn sleeps_until_the_deadline() {
    let mut p = Pacer::new(1_000);
    assert_eq!(p.advance(1_000), Some(PERIOD_NS));
    assert_eq!(p.advance(1_000 + PERIOD_NS + 3), Some(PERIOD_NS - 3));
}

#[test]
fn a_deadline_met_exactly_needs_no_time() {
    let mut p = Pacer::new(0);
    assert_eq!(p.advance(PERIOD_NS), Some(0));
}

#[test]
fn a_missed_deadline_needs_no_sleep() {
    let mut p = Pacer::new(0);
    assert_eq!(p.advance(PERIOD_NS + 1), None);
}

#[test]
fn lateness_is_made_up() {
    let mut p = Pacer::new(0);
    // The first period takes two and a half times as long as it should.
    let mut now = 5 * PERIOD_NS / 2;
    assert_eq!(p.advance(now), None);
    now += 1;
    assert_eq!(p.advance(now), None);
    now += 1;
    let sleep = p.advance(now).unwrap();
    assert_eq!(now + sleep, 3 * PERIOD_NS);
}

#[test]
fn the_schedule_does_not_drift() {
    let mut p = Pacer::new(77);
    let mut now: u64 = 77;
    for period in 1..=500u64 {
        now += 1_234_567 * (period % 8);
        if let Some(sleep) = p.advance(now) {
            now += sleep;
            assert_eq!(now, 77 + period * PERIOD_NS);
        }
    }
}

#[test]
fn the_clock_runs_out() {
    assert!(Pacer::new(u64::MAX - PERIOD_NS).can_advance());
    assert!(!Pacer::new(u64::MAX - PERIOD_NS + 1).can_advance());
    let mut p = Pacer::new(u64::MAX - PERIOD_NS);
    assert_eq!(p.advance(u64::MAX), Some(0));
    assert!(!p.can_advance());
}
