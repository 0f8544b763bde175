use honeybee::channel::{Delivery, DispatchChannel};
use honeybee::listener::Listener;
use honeybee::model::Phase;
use honeybee::protocol::{Action, Event, Failure};
use honeybee::registry::Registry;
use honeybee::settings::connection_url;

fn strings(names: &[&str]) -> Vec<String> {
    names.iter().map(|n| n.to_string()).collect()
}

fn listener(names: &[&str], registered: &[&str]) -> Listener {
    Listener::new(connection_url("tms"), Registry::new(strings(names), strings(registered)))
}

/// Answers every action with success until the listener waits or stops.
/// An export sends one path down the channel and is noted in the log, as
/// is every report. The export of `failing` fails.
fn drive(
    listener: &mut Listener,
    channel: &mut DispatchChannel,
    log: &mut Vec<String>,
    failing: Option<&str>,
) -> Action {
    let mut action = listener.action();
    loop {
        let event = match &action {
            Action::Connect { .. } | Action::Execute { .. } => Event::Done,
            Action::Fetch { name, output_dir, .. } => {
                log.push(format!("fetch {}", name));
                if failing == Some(name.as_str()) {
                    Event::Failed
                } else {
                    assert!(channel.send(format!("{}{}", output_dir, name)));
                    Event::Fetched { rows: 5 }
                }
            }
            Action::ReportWrote { name, rows } => {
                log.push(format!("wrote {} {}", name, rows));
                Event::Done
            }
            Action::ReportUnknown { name } => {
                log.push(format!("unknown {}", name));
                Event::Done
            }
            Action::Poll { .. } | Action::Halt { .. } => return action,
        };
        action = listener.step(event);
    }
}

/// Hands in the notifications of one tick and the end of the tick, then
/// drives the listener until it waits again or stops.
fn tick(
    listener: &mut Listener,
    channel: &mut DispatchChannel,
    log: &mut Vec<String>,
    heard: &[&str],
) -> Action {
    for name in heard {
        let action = listener.step(Event::Notified { payload: name.to_string() });
        assert_eq!(action, Action::Poll { millis: 300 });
    }
    listener.step(Event::Quiet);
    drive(listener, channel, log, None)
}

fn received(channel: &mut DispatchChannel) -> Vec<String> {
    let mut paths = Vec::new();
    while let Delivery::Artifact(path) = channel.recv() {
        paths.push(path);
    }
    paths
}

#[test]
fn setup_runs_in_order_before_bootstrap() {
    let mut l = listener(&["incidents"], &["incidents"]);
    assert_eq!(
        l.action(),
        Action::Connect { url: "postgres://tms@%2Frun%2Fpostgresql/tms".to_string() }
    );
    assert_eq!(l.phase(), Phase::Connecting);
    assert_eq!(
        l.step(Event::Done),
        Action::Execute { statement: "SET TIME ZONE 'US/Central'".to_string() }
    );
    assert_eq!(l.phase(), Phase::Configuring);
    assert_eq!(l.step(Event::Done), Action::Execute { statement: "LISTEN tms".to_string() });
    assert_eq!(l.phase(), Phase::Subscribing);
    assert_eq!(
        l.step(Event::Done),
        Action::Fetch {
            name: "incidents".to_string(),
            resource: 0,
            output_dir: "/var/www/html/iris/".to_string(),
        }
    );
    assert_eq!(l.phase(), Phase::Fetching);
    assert!(!l.is_bootstrapped());
}

#[test]
fn bootstrap_emits_two_paths_in_order() {
    let mut l = listener(&["incidents", "cameras"], &["incidents", "cameras"]);
    let mut channel = DispatchChannel::new();
    let mut log = Vec::new();
    let action = drive(&mut l, &mut channel, &mut log, None);
    assert_eq!(action, Action::Poll { millis: 300 });
    assert!(l.is_bootstrapped());
    assert_eq!(channel.len(), 2);
    assert_eq!(
        received(&mut channel),
        vec!["/var/www/html/iris/incidents".to_string(), "/var/www/html/iris/cameras".to_string()]
    );
    assert_eq!(
        log,
        vec!["fetch incidents", "wrote incidents 5", "fetch cameras", "wrote cameras 5"]
    );
}

#[test]
fn duplicate_notifications_coalesce() {
    let mut l = listener(&[], &["incidents", "cameras"]);
    let mut channel = DispatchChannel::new();
    let mut log = Vec::new();
    assert_eq!(drive(&mut l, &mut channel, &mut log, None), Action::Poll { millis: 300 });
    assert!(log.is_empty());

    let action = tick(&mut l, &mut channel, &mut log, &["incidents", "incidents", "cameras"]);
    assert_eq!(action, Action::Poll { millis: 300 });
    let fetches: Vec<&String> = log.iter().filter(|line| line.starts_with("fetch ")).collect();
    assert_eq!(fetches.len(), 2);
    assert_eq!(log.iter().filter(|line| *line == "fetch incidents").count(), 1);
    assert_eq!(log.iter().filter(|line| *line == "fetch cameras").count(), 1);
    assert_eq!(channel.len(), 2);
}

#[test]
fn unknown_notification_is_reported_and_skipped() {
    let mut l = listener(&[], &["incidents", "cameras"]);
    let mut channel = DispatchChannel::new();
    let mut log = Vec::new();
    drive(&mut l, &mut channel, &mut log, None);

    assert_eq!(
        l.step(Event::Notified { payload: "detectors".to_string() }),
        Action::Poll { millis: 300 }
    );
    assert_eq!(l.step(Event::Quiet), Action::ReportUnknown { name: "detectors".to_string() });
    assert_eq!(l.phase(), Phase::Reporting { rows: None });
    assert_eq!(l.step(Event::Done), Action::Poll { millis: 300 });
    assert_eq!(l.failure(), None);
    assert_eq!(channel.len(), 0);
    assert_eq!(channel.recv(), Delivery::Empty);
}

#[test]
fn many_notifications_for_one_name_give_one_fetch() {
    for copies in [1usize, 2, 3, 50, 1000] {
        let mut l = listener(&[], &["incidents"]);
        let mut channel = DispatchChannel::new();
        let mut log = Vec::new();
        drive(&mut l, &mut channel, &mut log, None);
        let heard = vec!["incidents"; copies];
        let action = tick(&mut l, &mut channel, &mut log, &heard);
        assert_eq!(action, Action::Poll { millis: 300 });
        assert_eq!(log, vec!["fetch incidents", "wrote incidents 5"]);
        assert_eq!(channel.len(), 1);
    }
}

#[test]
fn distinct_names_are_each_fetched_once_before_the_next_poll() {
    let mut l = listener(&[], &["a", "b", "c", "d"]);
    let mut channel = DispatchChannel::new();
    let mut log = Vec::new();
    drive(&mut l, &mut channel, &mut log, None);

    for name in ["c", "a", "c", "d", "a", "c"] {
        l.step(Event::Notified { payload: name.to_string() });
    }
    let mut action = l.step(Event::Quiet);
    let mut fetched = Vec::new();
    loop {
        let event = match &action {
            Action::Fetch { name, .. } => {
                fetched.push(name.clone());
                Event::Fetched { rows: 0 }
            }
            Action::ReportWrote { .. } => Event::Done,
            Action::Poll { .. } => break,
            other => panic!("unexpected action {:?}", other),
        };
        action = l.step(event);
    }
    assert_eq!(fetched, vec!["c", "a", "d"]);
    assert_eq!(l.phase(), Phase::Polling);
}

#[test]
fn fetch_carries_the_handle_of_the_resource() {
    let mut l = listener(&["b", "a"], &["a", "b"]);
    l.step(Event::Done);
    l.step(Event::Done);
    assert_eq!(
        l.step(Event::Done),
        Action::Fetch {
            name: "b".to_string(),
            resource: 1,
            output_dir: "/var/www/html/iris/".to_string(),
        }
    );
    assert_eq!(
        l.step(Event::Fetched { rows: 12 }),
        Action::ReportWrote { name: "b".to_string(), rows: 12 }
    );
    assert_eq!(l.phase(), Phase::Reporting { rows: Some(12) });
    assert_eq!(
        l.step(Event::Done),
        Action::Fetch {
            name: "a".to_string(),
            resource: 0,
            output_dir: "/var/www/html/iris/".to_string(),
        }
    );
}

#[test]
fn unknown_name_in_bootstrap_is_reported_and_bootstrap_goes_on() {
    let mut l = listener(&["incidents", "detectors", "cameras"], &["incidents", "cameras"]);
    let mut channel = DispatchChannel::new();
    let mut log = Vec::new();
    let action = drive(&mut l, &mut channel, &mut log, None);
    assert_eq!(action, Action::Poll { millis: 300 });
    assert_eq!(
        log,
        vec![
            "fetch incidents",
            "wrote incidents 5",
            "unknown detectors",
            "fetch cameras",
            "wrote cameras 5",
        ]
    );
    assert_eq!(l.failure(), None);
    assert_eq!(channel.len(), 2);
}

#[test]
fn bootstrap_serves_the_enumeration_in_order() {
    let names = ["e", "b", "d", "a", "c"];
    let mut l = listener(&names, &["a", "b", "c", "d", "e"]);
    let mut channel = DispatchChannel::new();
    let mut log = Vec::new();
    let action = drive(&mut l, &mut channel, &mut log, None);
    assert_eq!(action, Action::Poll { millis: 300 });
    let fetched: Vec<String> = log
        .iter()
        .filter(|line| line.starts_with("fetch "))
        .map(|line| line["fetch ".len()..].to_string())
        .collect();
    assert_eq!(fetched, names);
    let paths: Vec<String> = names.iter().map(|n| format!("/var/www/html/iris/{}", n)).collect();
    assert_eq!(received(&mut channel), paths);
}

#[test]
fn a_name_enumerated_twice_is_exported_twice_at_bootstrap() {
    let mut l = listener(&["a", "a"], &["a"]);
    let mut channel = DispatchChannel::new();
    let mut log = Vec::new();
    drive(&mut l, &mut channel, &mut log, None);
    assert_eq!(log, vec!["fetch a", "wrote a 5", "fetch a", "wrote a 5"]);
}

#[test]
fn empty_enumeration_goes_straight_to_polling() {
    let mut l = listener(&[], &[]);
    l.step(Event::Done);
    l.step(Event::Done);
    assert!(!l.is_bootstrapped());
    assert_eq!(l.step(Event::Done), Action::Poll { millis: 300 });
    assert!(l.is_bootstrapped());
}

#[test]
fn bootstrap_fetch_failure_stops_the_listener() {
    let mut l = listener(&["incidents", "cameras", "signs"], &["incidents", "cameras", "signs"]);
    let mut channel = DispatchChannel::new();
    let mut log = Vec::new();
    let action = drive(&mut l, &mut channel, &mut log, Some("cameras"));
    assert_eq!(action, Action::Halt { failure: Failure::Fetch });
    assert_eq!(log, vec!["fetch incidents", "wrote incidents 5", "fetch cameras"]);
    assert_eq!(l.failure(), Some(Failure::Fetch));
    assert_eq!(l.phase(), Phase::Halted { failure: Failure::Fetch });
    assert!(!l.is_bootstrapped());
    assert_eq!(channel.len(), 1);
}

#[test]
fn a_halted_listener_stays_halted() {
    let mut l = listener(&["incidents"], &["incidents"]);
    let mut channel = DispatchChannel::new();
    let mut log = Vec::new();
    drive(&mut l, &mut channel, &mut log, Some("incidents"));
    for event in [
        Event::Done,
        Event::Fetched { rows: 1 },
        Event::Notified { payload: "incidents".to_string() },
        Event::Quiet,
        Event::Failed,
    ] {
        assert_eq!(l.step(event), Action::Halt { failure: Failure::Fetch });
        assert_eq!(l.action(), Action::Halt { failure: Failure::Fetch });
    }
}

#[test]
fn steady_state_fetch_failure_stops_the_listener() {
    let mut l = listener(&[], &["incidents", "cameras"]);
    let mut channel = DispatchChannel::new();
    let mut log = Vec::new();
    drive(&mut l, &mut channel, &mut log, None);
    l.step(Event::Notified { payload: "incidents".to_string() });
    l.step(Event::Notified { payload: "cameras".to_string() });
    l.step(Event::Quiet);
    let action = drive(&mut l, &mut channel, &mut log, Some("incidents"));
    assert_eq!(action, Action::Halt { failure: Failure::Fetch });
    assert_eq!(log, vec!["fetch incidents"]);
}

#[test]
fn connect_failure_is_a_setup_failure() {
    let mut l = listener(&["incidents"], &["incidents"]);
    assert_eq!(l.step(Event::Failed), Action::Halt { failure: Failure::Setup });
    assert_eq!(l.failure(), Some(Failure::Setup));
}

#[test]
fn configure_failure_is_a_setup_failure() {
    let mut l = listener(&["incidents"], &["incidents"]);
    l.step(Event::Done);
    assert_eq!(l.step(Event::Failed), Action::Halt { failure: Failure::Setup });
}

#[test]
fn subscribe_failure_is_a_setup_failure() {
    let mut l = listener(&["incidents"], &["incidents"]);
    l.step(Event::Done);
    l.step(Event::Done);
    assert_eq!(l.step(Event::Failed), Action::Halt { failure: Failure::Setup });
    assert!(!l.is_bootstrapped());
}

#[test]
fn poll_failure_is_fatal() {
    let mut l = listener(&[], &[]);
    let mut channel = DispatchChannel::new();
    let mut log = Vec::new();
    drive(&mut l, &mut channel, &mut log, None);
    assert_eq!(l.step(Event::Failed), Action::Halt { failure: Failure::Fetch });
}

#[test]
fn an_event_that_answers_nothing_is_a_protocol_failure() {
    let mut l = listener(&["incidents"], &["incidents"]);
    assert_eq!(l.step(Event::Quiet), Action::Halt { failure: Failure::Protocol });

    let mut l = listener(&["incidents"], &["incidents"]);
    l.step(Event::Done);
    l.step(Event::Done);
    l.step(Event::Done);
    assert_eq!(l.phase(), Phase::Fetching);
    assert_eq!(l.step(Event::Done), Action::Halt { failure: Failure::Protocol });

    let mut l = listener(&["incidents"], &["incidents"]);
    l.step(Event::Done);
    l.step(Event::Done);
    l.step(Event::Done);
    l.step(Event::Fetched { rows: 1 });
    assert_eq!(l.step(Event::Failed), Action::Halt { failure: Failure::Protocol });

    let mut l = listener(&[], &[]);
    l.step(Event::Done);
    l.step(Event::Done);
    l.step(Event::Done);
    assert_eq!(l.step(Event::Done), Action::Halt { failure: Failure::Protocol });
}

#[test]
fn an_empty_tick_is_a_no_op() {
    let mut l = listener(&[], &["incidents"]);
    let mut channel = DispatchChannel::new();
    let mut log = Vec::new();
    drive(&mut l, &mut channel, &mut log, None);
    for _ in 0..3 {
        assert_eq!(l.step(Event::Quiet), Action::Poll { millis: 300 });
    }
    assert!(log.is_empty());
    assert_eq!(channel.len(), 0);
}

#[test]
fn a_name_notified_in_two_ticks_is_fetched_in_each() {
    let mut l = listener(&[], &["incidents"]);
    let mut channel = DispatchChannel::new();
    let mut log = Vec::new();
    drive(&mut l, &mut channel, &mut log, None);
    tick(&mut l, &mut channel, &mut log, &["incidents", "incidents"]);
    tick(&mut l, &mut channel, &mut log, &["incidents"]);
    assert_eq!(
        log,
        vec!["fetch incidents", "wrote incidents 5", "fetch incidents", "wrote incidents 5"]
    );
    assert_eq!(
        received(&mut channel),
        vec!["/var/www/html/iris/incidents".to_string(); 2]
    );
}

#[test]
fn names_are_case_sensitive() {
    let mut l = listener(&[], &["incidents"]);
    let mut channel = DispatchChannel::new();
    let mut log = Vec::new();
    drive(&mut l, &mut channel, &mut log, None);
    tick(&mut l, &mut channel, &mut log, &["Incidents", "incidents"]);
    assert_eq!(log, vec!["unknown Incidents", "fetch incidents", "wrote incidents 5"]);
}

#[test]
fn the_listener_keeps_its_registry() {
    let l = listener(&["incidents", "cameras"], &["cameras"]);
    assert_eq!(l.registry().all_names(), &strings(&["incidents", "cameras"]));
    assert_eq!(l.registry().lookup(&"cameras".to_string()), Some(0));
    assert_eq!(l.registry().lookup(&"incidents".to_string()), None);
}
