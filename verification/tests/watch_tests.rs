use kube_cache::queue::WorkKind;
use kube_cache::watch::{EventKind, WatchAction, WatchDriver, WatchInput, WatchPhase};

fn event(kind: EventKind, rv: &str) -> WatchInput {
    WatchInput::Event { kind, resource_version: rv.to_string() }
}

#[test]
fn watch_opens_at_resource_version_zero() {
    let (d, a) = WatchDriver::start();
    assert_eq!(d.phase(), WatchPhase::Watching);
    assert_eq!(d.resource_version(), "0");
    assert_eq!(a, WatchAction::Watch { resource_version: "0".to_string() });
}

#[test]
fn events_are_dispatched_and_the_version_is_kept() {
    let (mut d, _) = WatchDriver::start();
    assert_eq!(
        d.step(event(EventKind::Added, "11"), 0),
        WatchAction::Dispatch { kind: WorkKind::Reconcile }
    );
    assert_eq!(
        d.step(event(EventKind::Modified, "12"), 0),
        WatchAction::Dispatch { kind: WorkKind::Reconcile }
    );
    assert_eq!(
        d.step(event(EventKind::Deleted, "13"), 0),
        WatchAction::Dispatch { kind: WorkKind::Forget }
    );
    assert_eq!(d.resource_version(), "13");
}

#[test]
fn a_break_leads_to_a_list_and_then_to_a_watch_from_the_listed_version() {
    let (mut d, _) = WatchDriver::start();
    d.step(event(EventKind::Modified, "41"), 0);
    assert_eq!(d.step(WatchInput::Closed, 200), WatchAction::ListAfter { after_ms: 1000 });
    assert_eq!(d.phase(), WatchPhase::Resyncing);
    assert_eq!(d.step(event(EventKind::Modified, "42"), 0), WatchAction::Nothing);
    assert_eq!(d.step(WatchInput::Closed, 0), WatchAction::Nothing);
    assert_eq!(d.resource_version(), "41");
    assert_eq!(
        d.step(WatchInput::Listed { resource_version: "57".to_string() }, 0),
        WatchAction::Watch { resource_version: "57".to_string() }
    );
    assert_eq!(d.phase(), WatchPhase::Watching);
    assert_eq!(d.resource_version(), "57");
}

#[test]
fn error_events_break_the_stream_too() {
    let (mut d, _) = WatchDriver::start();
    assert_eq!(d.step(event(EventKind::Error, ""), 0), WatchAction::ListAfter { after_ms: 800 });
    assert_eq!(d.phase(), WatchPhase::Resyncing);
    assert_eq!(d.resource_version(), "0");
}

#[test]
fn failed_lists_back_off_up_to_the_cap() {
    let (mut d, _) = WatchDriver::start();
    let mut delays = vec![];
    match d.step(WatchInput::Closed, 0) {
        WatchAction::ListAfter { after_ms } => delays.push(after_ms),
        other => panic!("unexpected {:?}", other),
    }
    for _ in 0..7 {
        match d.step(WatchInput::ListFailed, 0) {
            WatchAction::ListAfter { after_ms } => delays.push(after_ms),
            other => panic!("unexpected {:?}", other),
        }
    }
    assert_eq!(delays, vec![800, 1600, 3200, 6400, 12800, 24000, 24000, 24000]);
    d.step(WatchInput::Listed { resource_version: "9".to_string() }, 0);
    assert_eq!(d.step(WatchInput::Closed, 0), WatchAction::ListAfter { after_ms: 800 });
}

#[test]
fn a_list_that_was_not_asked_for_changes_nothing() {
    let (mut d, _) = WatchDriver::start();
    assert_eq!(
        d.step(WatchInput::Listed { resource_version: "5".to_string() }, 0),
        WatchAction::Nothing
    );
    assert_eq!(d.step(WatchInput::ListFailed, 0), WatchAction::Nothing);
    assert_eq!(d.resource_version(), "0");
}
