use zombie_germs::cooldown::{Cooldown, Span};

#[test]
fn default_cooldown_ends_on_first_tick() {
    let mut c = Cooldown::default();
    assert!(!c.finished);
    c.tick(Span { secs: 0, nanos: 16_000_000 });
    assert!(c.finished && c.just_finished);
    assert_eq!(c.elapsed, Span { secs: 0, nanos: 0 });
    c.tick(Span { secs: 0, nanos: 16_000_000 });
    assert!(c.finished && !c.just_finished);
}

#[test]
fn elapsed_time_carries_into_seconds() {
    let mut c = Cooldown::default();
    c.restart(Span { secs: 5, nanos: 0 });
    c.tick(Span { secs: 0, nanos: 700_000_000 });
    c.tick(Span { secs: 0, nanos: 500_000_000 });
    assert_eq!(c.elapsed, Span { secs: 1, nanos: 200_000_000 });
    assert!(!c.finished && !c.just_finished);
}

#[test]
fn overshooting_tick_stops_at_duration() {
    let mut c = Cooldown::default();
    c.restart(Span { secs: 2, nanos: 500 });
    c.tick(Span { secs: 3, nanos: 0 });
    assert_eq!(c.elapsed, Span { secs: 2, nanos: 500 });
    assert!(c.finished && c.just_finished);
}

#[test]
fn restart_runs_again() {
    let mut c = Cooldown::default();
    c.tick(Span { secs: 1, nanos: 0 });
    assert!(c.finished);
    c.restart(Span { secs: 1, nanos: 0 });
    assert!(!c.finished && !c.just_finished);
    assert_eq!(c.elapsed, Span { secs: 0, nanos: 0 });
    c.tick(Span { secs: 0, nanos: 999_999_999 });
    assert!(!c.finished);
    c.tick(Span { secs: 0, nanos: 1 });
    assert!(c.just_finished);
}
