use kcard::collect::{silent_failure, Collector, FetchError};
use kcard::model::{
    NamingState, NodeIdentity, NodeRouting, PeerSummary, StatusSnapshot, SubscriptionState,
};
use kcard::report::make_text;
use kcard::schedule::{
    Action, AttemptFailure, Event, Phase, Profile, Scheduler, CARD_CONTENT_TYPE, CARD_PATH,
};

fn snapshot(process_count: u64) -> StatusSnapshot {
    StatusSnapshot {
        identity: NodeIdentity {
            networking_key: "key".to_string(),
            routing: NodeRouting::Routed { router_count: 2 },
        },
        peers: PeerSummary { names: vec![] },
        providers: vec![],
        subscriptions: SubscriptionState { active: vec![], outstanding: vec![] },
        process_count,
        naming: NamingState { contract_address: [0u8; 20], name_count: 0 },
    }
}

fn idle(interval: u64) -> Scheduler {
    Scheduler { phase: Phase::Idle, interval }
}

/// Plays the caller for one tick and returns what it did: the number of
/// collections, the reports it was asked to publish, the failures it wrote
/// down, and the seconds it slept. The publisher answers with `publisher`.
fn tick(
    scheduler: &mut Scheduler,
    outcome: Result<StatusSnapshot, FetchError>,
    publisher: Result<(), String>,
) -> (u32, Vec<String>, Vec<AttemptFailure>, Vec<u64>) {
    let mut collections = 0;
    let mut published = Vec::new();
    let mut reported = Vec::new();
    let mut slept = Vec::new();
    let mut outcome = Some(outcome);
    let mut event = Event::Wake;
    loop {
        let (next, action) = scheduler.step(event);
        *scheduler = next;
        event = match action {
            Action::Collect => {
                collections += 1;
                Event::Collected(outcome.take().unwrap())
            }
            Action::Publish { report } => {
                published.push(report);
                Event::Published(publisher.clone())
            }
            Action::Sleep { seconds } => {
                slept.push(seconds);
                break;
            }
            Action::ReportAndSleep { failure, seconds } => {
                reported.push(failure);
                slept.push(seconds);
                break;
            }
            Action::Ignore => panic!("an event of the tick was ignored"),
        };
    }
    (collections, published, reported, slept)
}

#[test]
fn card_is_published_as_a_png() {
    assert_eq!(CARD_PATH, "/kcard.png");
    assert_eq!(CARD_CONTENT_TYPE, "image/png");
}

#[test]
fn profiles_pause_an_hour_or_ten_minutes() {
    assert_eq!(Profile::Hourly.interval(), 3600);
    assert_eq!(Profile::Frequent.interval(), 600);
    assert_eq!(Scheduler::new(Profile::Hourly), idle(3600));
    assert_eq!(Scheduler::new(Profile::Frequent), idle(600));
    assert!(!Scheduler::new(Profile::Hourly).is_refreshing());
}

#[test]
fn wake_starts_an_attempt() {
    let (next, action) = idle(600).step(Event::Wake);
    assert_eq!(next, Scheduler { phase: Phase::Collecting, interval: 600 });
    assert_eq!(action, Action::Collect);
    assert!(next.is_refreshing());
}

#[test]
fn snapshot_is_published_as_its_report() {
    let collecting = Scheduler { phase: Phase::Collecting, interval: 600 };
    let (next, action) = collecting.step(Event::Collected(Ok(snapshot(3))));
    assert_eq!(next, Scheduler { phase: Phase::Publishing, interval: 600 });
    assert_eq!(action, Action::Publish { report: make_text(&snapshot(3)) });
    assert!(next.is_refreshing());
    let (last, pause) = next.step(Event::Published(Ok(())));
    assert_eq!(last, idle(600));
    assert_eq!(pause, Action::Sleep { seconds: 600 });
}

#[test]
fn failed_publish_is_reported_and_the_full_pause_follows() {
    let publishing = Scheduler { phase: Phase::Publishing, interval: 3600 };
    let (next, action) = publishing.step(Event::Published(Err("bind refused".to_string())));
    assert_eq!(next, idle(3600));
    assert_eq!(
        action,
        Action::ReportAndSleep {
            failure: AttemptFailure::Publish { reason: "bind refused".to_string() },
            seconds: 3600,
        }
    );
    let (again, start) = next.step(Event::Wake);
    assert_eq!(again.phase, Phase::Collecting);
    assert_eq!(start, Action::Collect);
}

#[test]
fn failures_are_described_in_one_line() {
    assert_eq!(
        AttemptFailure::Publish { reason: "bind refused".to_string() }.describe(),
        "error publishing card: bind refused"
    );
    let failure = silent_failure(Collector::Peers);
    assert_eq!(AttemptFailure::Collect(failure.clone()).describe(), failure.describe());
}

#[test]
fn failure_is_reported_and_nothing_is_published() {
    let collecting = Scheduler { phase: Phase::Collecting, interval: 3600 };
    let failure = silent_failure(Collector::Providers);
    let (next, action) = collecting.step(Event::Collected(Err(failure.clone())));
    assert_eq!(next, idle(3600));
    assert_eq!(
        action,
        Action::ReportAndSleep { failure: AttemptFailure::Collect(failure), seconds: 3600 }
    );
}

#[test]
fn events_that_do_not_belong_to_the_phase_change_nothing() {
    let failure = silent_failure(Collector::Peers);
    let collecting = Scheduler { phase: Phase::Collecting, interval: 600 };
    let publishing = Scheduler { phase: Phase::Publishing, interval: 600 };
    assert_eq!(idle(600).step(Event::Published(Ok(()))), (idle(600), Action::Ignore));
    assert_eq!(idle(600).step(Event::Published(Err(String::new()))), (idle(600), Action::Ignore));
    assert_eq!(idle(600).step(Event::Collected(Ok(snapshot(1)))), (idle(600), Action::Ignore));
    assert_eq!(idle(600).step(Event::Collected(Err(failure.clone()))), (idle(600), Action::Ignore));
    assert_eq!(collecting.step(Event::Wake), (collecting, Action::Ignore));
    assert_eq!(collecting.step(Event::Published(Ok(()))), (collecting, Action::Ignore));
    assert_eq!(collecting.step(Event::Published(Err(String::new()))), (collecting, Action::Ignore));
    assert_eq!(publishing.step(Event::Wake), (publishing, Action::Ignore));
    assert_eq!(publishing.step(Event::Collected(Ok(snapshot(1)))), (publishing, Action::Ignore));
    assert_eq!(publishing.step(Event::Collected(Err(failure))), (publishing, Action::Ignore));
}

#[test]
fn one_attempt_for_each_tick() {
    let mut scheduler = Scheduler::new(Profile::Frequent);
    let mut clock: u64 = 0;
    let mut attempts = 0;
    let mut published = Vec::new();
    let mut reported = Vec::new();
    let ticks = 12;
    for n in 0..ticks {
        let outcome = if n % 3 == 1 {
            Err(silent_failure(Collector::Naming))
        } else {
            Ok(snapshot(n))
        };
        let publisher = if n % 4 == 0 { Err(format!("refused {}", n)) } else { Ok(()) };
        let (collections, reports, failures, slept) = tick(&mut scheduler, outcome, publisher);
        assert_eq!(collections, 1);
        assert_eq!(slept, vec![600]);
        assert!(!scheduler.is_refreshing());
        attempts += collections;
        published.extend(reports);
        reported.extend(failures);
        clock += slept[0];
    }
    assert_eq!(attempts, 12);
    assert_eq!(clock, 12 * 600);
    assert_eq!(published.len(), 8);
    assert_eq!(
        reported,
        vec![
            AttemptFailure::Publish { reason: "refused 0".to_string() },
            AttemptFailure::Collect(silent_failure(Collector::Naming)),
            AttemptFailure::Collect(silent_failure(Collector::Naming)),
            AttemptFailure::Collect(silent_failure(Collector::Naming)),
            AttemptFailure::Publish { reason: "refused 8".to_string() },
            AttemptFailure::Collect(silent_failure(Collector::Naming)),
        ]
    );
    assert_eq!(published[0], make_text(&snapshot(0)));
    assert_eq!(published[7], make_text(&snapshot(11)));
}

#[test]
fn a_wake_during_an_attempt_starts_no_second_attempt() {
    let mut scheduler = Scheduler::new(Profile::Hourly);
    let mut collections = 0;
    for event in [Event::Wake, Event::Wake, Event::Wake] {
        let (next, action) = scheduler.step(event);
        scheduler = next;
        if action == Action::Collect {
            collections += 1;
        }
    }
    assert_eq!(collections, 1);
    assert_eq!(scheduler.phase, Phase::Collecting);
}
