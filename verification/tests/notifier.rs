use ruok::checker::{tick_due, Checker, Status};
use ruok::config::{Config, Service};
use ruok::notifications::{Notification, SlackNotification};
use ruok::notifier::{Notifier, NotifierMsg, SendTask};

fn service(url: &str, interval: u64, notifications: &[&str]) -> Service {
    Service {
        url: url.to_string(),
        interval,
        notifications: notifications.iter().map(|n| n.to_string()).collect(),
    }
}

fn slack(url: &str) -> Notification {
    Notification::Slack(SlackNotification { url: url.to_string() })
}

fn slack_url(task: &SendTask) -> &str {
    match &task.notification {
        Notification::Slack(s) => &s.url,
    }
}

#[test]
fn one_send_per_configured_channel() {
    let notifier = Notifier::new(
        vec![("s1".to_string(), service("http://localhost:3000/s1", 1, &["n1", "n2"]))],
        vec![
            ("n1".to_string(), slack("http://localhost:3000/n1")),
            ("n2".to_string(), slack("http://localhost:3000/n2")),
            ("n3".to_string(), slack("http://localhost:3000/n3")),
        ],
    );

    let sends = notifier.handle_notification(&"s1".to_string(), Status::Down);

    // Exactly one send per configured channel, in configuration order, each
    // carrying the same service name and new state.
    assert_eq!(sends.len(), 2);
    assert_eq!(slack_url(&sends[0]), "http://localhost:3000/n1");
    assert_eq!(slack_url(&sends[1]), "http://localhost:3000/n2");
    for send in &sends {
        assert_eq!(send.name, "s1");
        assert_eq!(send.status, Status::Down);
    }
}

#[test]
fn no_channels_no_sends() {
    let notifier = Notifier::new(
        vec![("s1".to_string(), service("http://localhost:3000/s1", 1, &[]))],
        vec![],
    );

    let sends = notifier.handle_notification(&"s1".to_string(), Status::Up);

    assert_eq!(sends.len(), 0);
}

#[test]
fn payload_text_names_service_and_state() {
    let channel = SlackNotification { url: "http://localhost:3000/n1".to_string() };

    assert_eq!(channel.build_payload("s1", Status::Up), "s1 is up :thumbsup:");
    assert_eq!(channel.build_payload("s1", Status::Down), "s1 is down :thumbsdown:");
    assert_eq!(channel.build_payload("", Status::Up), " is up :thumbsup:");
}

/// Drives one round of probes at second `t`: every service whose timer is
/// due is probed with the outcome `probe` gives for it, and every detected
/// transition is fanned out. Returns the sends issued during the round.
fn run_round(
    checker: &mut Checker,
    notifier: &Notifier,
    t: u64,
    probe: &dyn Fn(&str) -> Option<u16>,
) -> Vec<SendTask> {
    let names: Vec<(String, u64)> = checker
        .services
        .iter()
        .map(|(name, svc)| (name.clone(), svc.interval))
        .collect();
    let mut sends = Vec::new();
    for (name, interval) in names {
        if tick_due(interval, t) {
            if let Some(NotifierMsg::Notify { name, status }) =
                checker.check_service(&name, probe(&name))
            {
                sends.extend(notifier.handle_notification(&name, status));
            }
        }
    }
    sends
}

fn hits(sends: &[SendTask], url: &str) -> usize {
    sends.iter().filter(|s| slack_url(s) == url).count()
}

#[test]
fn two_services_scenario() {
    // s1: interval 1, channels [n1, n2], healthy endpoint.
    // s2: interval 2, channels [n2, n3], endpoint answering 404 at first,
    // 200 from t = 2 on.
    let config = Config::parse(
        vec![
            ("s1".to_string(), service("http://localhost:3000/s1", 1, &["n1", "n2"])),
            ("s2".to_string(), service("http://localhost:3000/s2", 2, &["n2", "n3"])),
        ],
        vec![
            ("n1".to_string(), slack("http://localhost:3000/n1")),
            ("n2".to_string(), slack("http://localhost:3000/n2")),
            ("n3".to_string(), slack("http://localhost:3000/n3")),
        ],
    )
    .unwrap();

    let notifier = Notifier::new(config.services.clone(), config.notifications);
    let mut checker = Checker::new(config.services);

    let n1 = "http://localhost:3000/n1";
    let n2 = "http://localhost:3000/n2";
    let n3 = "http://localhost:3000/n3";

    // t = 0: both timers fire. s1 answers 200 (no transition from the
    // default Up, so n1 gets nothing); s2 answers 404 (transition to Down,
    // one send to n2 and one to n3).
    let sends = run_round(&mut checker, &notifier, 0, &|name| {
        if name == "s1" {
            Some(200)
        } else {
            Some(404)
        }
    });
    assert_eq!(hits(&sends, n1), 0);
    assert_eq!(hits(&sends, n2), 1);
    assert_eq!(hits(&sends, n3), 1);

    // t = 1: only s1's timer fires; s1 is still healthy, no sends at all.
    let sends = run_round(&mut checker, &notifier, 1, &|_| Some(200));
    assert_eq!(sends.len(), 0);

    // t = 2: both timers fire and s2 is back: s2 transitions Down -> Up, so
    // n2 and n3 each get a second send; n1 still has none since s1 never
    // changed.
    let sends = run_round(&mut checker, &notifier, 2, &|_| Some(200));
    assert_eq!(hits(&sends, n1), 0);
    assert_eq!(hits(&sends, n2), 1);
    assert_eq!(hits(&sends, n3), 1);
    for send in &sends {
        assert_eq!(send.name, "s2");
        assert_eq!(send.status, Status::Up);
    }

    // t = 3: only s1's timer fires, and s1 has gone down: n1 and n2 are
    // told, n3 is not a channel of s1 and hears nothing.
    let sends = run_round(&mut checker, &notifier, 3, &|_| Some(404));
    assert_eq!(hits(&sends, n1), 1);
    assert_eq!(hits(&sends, n2), 1);
    assert_eq!(hits(&sends, n3), 0);
    for send in &sends {
        assert_eq!(send.name, "s1");
        assert_eq!(send.status, Status::Down);
    }

    // t = 4: both timers fire; s1 is back up (second send to n1 and n2),
    // s2 is still up and stays silent.
    let sends = run_round(&mut checker, &notifier, 4, &|_| Some(200));
    assert_eq!(hits(&sends, n1), 1);
    assert_eq!(hits(&sends, n2), 1);
    assert_eq!(hits(&sends, n3), 0);
    for send in &sends {
        assert_eq!(send.name, "s1");
        assert_eq!(send.status, Status::Up);
    }

    // Over the five seconds, s1 (interval 1) was due five times and s2
    // (interval 2) three times: once every interval, starting at zero.
    let s1_probes = (0..5).filter(|t| tick_due(1, *t)).count();
    let s2_probes = (0..5).filter(|t| tick_due(2, *t)).count();
    assert_eq!(s1_probes, 5);
    assert_eq!(s2_probes, 3);
}
