use ruok::checker::{outcome_status, tick_due, Checker, Status};
use ruok::config::Service;
use ruok::notifier::NotifierMsg;

fn service(url: &str, interval: u64, notifications: &[&str]) -> Service {
    Service {
        url: url.to_string(),
        interval,
        notifications: notifications.iter().map(|n| n.to_string()).collect(),
    }
}

fn one_service_checker(name: &str) -> Checker {
    Checker::new(vec![(
        name.to_string(),
        service("http://localhost:3000/health_check", 1, &["n1"]),
    )])
}

#[test]
fn outcome_maps_only_ok_to_up() {
    assert_eq!(outcome_status(Some(200)), Status::Up);
    assert_eq!(outcome_status(Some(201)), Status::Down);
    assert_eq!(outcome_status(Some(404)), Status::Down);
    assert_eq!(outcome_status(Some(500)), Status::Down);
    assert_eq!(outcome_status(None), Status::Down);
}

#[test]
fn every_service_starts_up() {
    let checker = Checker::new(vec![
        ("s1".to_string(), service("http://localhost:3000/a", 1, &[])),
        ("s2".to_string(), service("http://localhost:3000/b", 2, &[])),
    ]);

    assert_eq!(checker.statuses.get(&"s1".to_string()), Some(Status::Up));
    assert_eq!(checker.statuses.get(&"s2".to_string()), Some(Status::Up));
    assert_eq!(checker.statuses.get(&"s3".to_string()), None);
}

#[test]
fn first_probe_stores_mapped_outcome() {
    let name = "s1".to_string();

    let mut checker = one_service_checker("s1");
    checker.check_service(&name, Some(404));
    assert_eq!(checker.statuses.get(&name), Some(Status::Down));

    let mut checker = one_service_checker("s1");
    checker.check_service(&name, Some(200));
    assert_eq!(checker.statuses.get(&name), Some(Status::Up));

    let mut checker = one_service_checker("s1");
    checker.check_service(&name, None);
    assert_eq!(checker.statuses.get(&name), Some(Status::Down));
}

#[test]
fn event_exactly_on_change() {
    let name = "s1".to_string();
    let mut checker = one_service_checker("s1");

    // The default is Up, so an Up observation is no transition.
    assert_eq!(checker.check_service(&name, Some(200)), None);
    // Down differs from the stored Up: one event, carrying the new state.
    assert_eq!(
        checker.check_service(&name, Some(404)),
        Some(NotifierMsg::Notify { name: "s1".to_string(), status: Status::Down })
    );
    // The entry now stores Down, so Down again is no transition.
    assert_eq!(checker.check_service(&name, Some(500)), None);
}

#[test]
fn repeated_identical_outcomes_never_notify() {
    let name = "s1".to_string();
    let mut checker = one_service_checker("s1");

    assert_eq!(checker.check_service(&name, Some(404)).is_some(), true);
    for _ in 0..10 {
        assert_eq!(checker.check_service(&name, Some(404)), None);
        assert_eq!(checker.statuses.get(&name), Some(Status::Down));
    }
}

#[test]
fn two_flips_give_exactly_two_events() {
    // s1 goes Up -> Down -> Up across three consecutive probes: exactly two
    // events, one per actual flip, not three.
    let name = "s1".to_string();
    let mut checker = one_service_checker("s1");

    let events = [
        checker.check_service(&name, Some(404)),
        checker.check_service(&name, Some(200)),
        checker.check_service(&name, Some(200)),
    ];

    assert_eq!(events.iter().filter(|e| e.is_some()).count(), 2);
    assert_eq!(
        events[0],
        Some(NotifierMsg::Notify { name: "s1".to_string(), status: Status::Down })
    );
    assert_eq!(
        events[1],
        Some(NotifierMsg::Notify { name: "s1".to_string(), status: Status::Up })
    );
    assert_eq!(events[2], None);
}

#[test]
fn probe_only_touches_its_own_entry() {
    let s1 = "s1".to_string();
    let s2 = "s2".to_string();
    let mut checker = Checker::new(vec![
        ("s1".to_string(), service("http://localhost:3000/a", 1, &[])),
        ("s2".to_string(), service("http://localhost:3000/b", 2, &[])),
    ]);

    checker.check_service(&s1, Some(404));

    assert_eq!(checker.statuses.get(&s1), Some(Status::Down));
    assert_eq!(checker.statuses.get(&s2), Some(Status::Up));
}

#[test]
fn probe_target_resolves_the_registered_url() {
    let checker = Checker::new(vec![
        ("s1".to_string(), service("http://localhost:3000/a", 1, &[])),
        ("s2".to_string(), service("http://localhost:3001/b", 2, &[])),
    ]);

    assert_eq!(
        checker.probe_target(&"s2".to_string()),
        Some(&"http://localhost:3001/b".to_string())
    );
    assert_eq!(checker.probe_target(&"s3".to_string()), None);
}

#[test]
fn ticks_fire_at_multiples_of_the_interval() {
    // A timer with period 1 fires every second, starting at zero.
    for t in 0..5 {
        assert!(tick_due(1, t));
    }
    // A timer with period 2 fires at 0, 2, 4, ... and in between never.
    assert!(tick_due(2, 0));
    assert!(!tick_due(2, 1));
    assert!(tick_due(2, 2));
    assert!(!tick_due(2, 3));
    assert!(tick_due(2, 4));
    // Independent periods: at t = 3 the period-1 timer fires, the period-2
    // and period-3 timers do not and do, each on its own schedule.
    assert!(tick_due(1, 3));
    assert!(!tick_due(2, 3));
    assert!(tick_due(3, 3));
}
