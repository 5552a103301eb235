use mes_sync::diff::{DiffReason, Diffs, UserDiff};
use mes_sync::store::StoreError;
use mes_sync::watcher::{
    sync_needed_event, watcher_started_message, Phase, Watcher, WatcherAction, WatcherEvent,
    WATCH_INTERVAL_SECS,
};

fn empty() -> Diffs {
    Diffs {
        users: vec![],
        machines: vec![],
        work_types: vec![],
    }
}

fn divergent() -> Diffs {
    Diffs {
        users: vec![UserDiff {
            id: 4,
            username: "ada".to_string(),
            reason: DiffReason::MissingInCache,
        }],
        machines: vec![],
        work_types: vec![],
    }
}

#[test]
fn watcher_checks_at_start_and_then_after_every_sleep() {
    let mut w = Watcher::new();
    assert_eq!(w.current_phase(), Phase::Idle);
    assert!(!w.is_armed());
    assert!(matches!(w.step(WatcherEvent::Start), WatcherAction::Check));
    assert!(w.is_armed());
    assert_eq!(w.current_phase(), Phase::Checking);
    assert!(matches!(
        w.step(WatcherEvent::Checked(Ok(empty()))),
        WatcherAction::Sleep
    ));
    assert_eq!(w.current_phase(), Phase::Sleeping);
    assert!(matches!(w.step(WatcherEvent::Woke), WatcherAction::Check));
    assert_eq!(w.current_phase(), Phase::Checking);
}

#[test]
fn watcher_publishes_only_divergence() {
    let mut w = Watcher::new();
    w.step(WatcherEvent::Start);
    match w.step(WatcherEvent::Checked(Ok(divergent()))) {
        WatcherAction::PublishThenSleep(report) => {
            assert_eq!(report.users.len(), 1);
            assert_eq!(report.users[0].id, 4);
        }
        _ => panic!("divergence should be published"),
    }
    w.step(WatcherEvent::Woke);
    assert!(matches!(
        w.step(WatcherEvent::Checked(Ok(empty()))),
        WatcherAction::Sleep
    ));
}

#[test]
fn watcher_survives_a_failed_check() {
    let mut w = Watcher::new();
    w.step(WatcherEvent::Start);
    assert!(matches!(
        w.step(WatcherEvent::Checked(Err(StoreError::Unreachable))),
        WatcherAction::Sleep
    ));
    assert!(matches!(w.step(WatcherEvent::Woke), WatcherAction::Check));
    assert!(matches!(
        w.step(WatcherEvent::Checked(Ok(divergent()))),
        WatcherAction::PublishThenSleep(_)
    ));
}

#[test]
fn watcher_is_armed_once() {
    let mut w = Watcher::new();
    assert!(matches!(w.step(WatcherEvent::Start), WatcherAction::Check));
    assert!(matches!(w.step(WatcherEvent::Start), WatcherAction::Ignore));
    assert_eq!(w.current_phase(), Phase::Checking);
    w.step(WatcherEvent::Checked(Ok(empty())));
    assert!(matches!(w.step(WatcherEvent::Start), WatcherAction::Ignore));
    assert_eq!(w.current_phase(), Phase::Sleeping);
}

#[test]
fn watcher_ignores_events_that_do_not_fit() {
    let mut w = Watcher::new();
    assert!(matches!(w.step(WatcherEvent::Woke), WatcherAction::Ignore));
    assert!(matches!(
        w.step(WatcherEvent::Checked(Ok(divergent()))),
        WatcherAction::Ignore
    ));
    assert_eq!(w.current_phase(), Phase::Idle);
    w.step(WatcherEvent::Start);
    assert!(matches!(w.step(WatcherEvent::Woke), WatcherAction::Ignore));
    assert_eq!(w.current_phase(), Phase::Checking);
}

#[test]
fn watcher_stops_only_on_cancel_and_stays_stopped() {
    let mut w = Watcher::new();
    w.step(WatcherEvent::Start);
    assert!(matches!(w.step(WatcherEvent::Cancel), WatcherAction::Stop));
    assert_eq!(w.current_phase(), Phase::Stopped);
    assert!(matches!(w.step(WatcherEvent::Woke), WatcherAction::Stop));
    assert!(matches!(w.step(WatcherEvent::Start), WatcherAction::Stop));
    assert!(matches!(
        w.step(WatcherEvent::Checked(Ok(divergent()))),
        WatcherAction::Stop
    ));
    assert_eq!(w.current_phase(), Phase::Stopped);
    let mut idle = Watcher::new();
    assert!(matches!(
        idle.step(WatcherEvent::Cancel),
        WatcherAction::Stop
    ));
    assert!(matches!(
        idle.step(WatcherEvent::Start),
        WatcherAction::Stop
    ));
}

#[test]
fn watcher_names_its_interval_and_event() {
    assert_eq!(WATCH_INTERVAL_SECS, 30);
    assert_eq!(Watcher::new().interval_secs(), 30);
    assert_eq!(sync_needed_event(), "sync:needed");
    assert_eq!(watcher_started_message(), "sync_watcher_started");
}

#[test]
fn starting_twice_confirms_twice_and_checks_once() {
    let mut w = Watcher::new();
    let (confirmation, action) = mes_sync::watcher::start_sync_watcher(&mut w);
    assert_eq!(confirmation, "sync_watcher_started");
    assert!(matches!(action, WatcherAction::Check));
    let (confirmation, action) = mes_sync::watcher::start_sync_watcher(&mut w);
    assert_eq!(confirmation, "sync_watcher_started");
    assert!(matches!(action, WatcherAction::Ignore));
}
