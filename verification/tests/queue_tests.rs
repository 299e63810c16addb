use kube_cache::queue::{Queued, WorkKind, WorkQueue};
use kube_cache::workload::Workload;

fn snapshot(name: &str, revision: &str) -> Workload {
    Workload {
        namespace: "default".to_string(),
        name: name.to_string(),
        uid: format!("uid-{}", name),
        node_name: None,
        scheduling_gates: vec![],
        annotations: vec![("revision".to_string(), revision.to_string())],
    }
}

#[test]
fn fresh_event_is_ready_and_handed_out_once() {
    let mut q = WorkQueue::new();
    assert_eq!(q.len(), 0);
    assert!(q.next().is_none());
    assert_eq!(q.enqueue(WorkKind::Reconcile, snapshot("w1", "1")), Queued::Fresh);
    assert_eq!(q.len(), 1);
    let work = q.next().unwrap();
    assert_eq!(work.key, "default/w1");
    assert_eq!(work.kind, WorkKind::Reconcile);
    assert_eq!(work.workload, snapshot("w1", "1"));
    assert_eq!(work.attempt, 0);
    assert!(q.is_running("default/w1"));
    assert!(q.next().is_none());
}

#[test]
fn burst_collapses_to_the_latest_snapshot() {
    let mut q = WorkQueue::new();
    assert_eq!(q.enqueue(WorkKind::Reconcile, snapshot("w1", "1")), Queued::Fresh);
    for rev in ["2", "3", "4", "5"] {
        assert_eq!(q.enqueue(WorkKind::Reconcile, snapshot("w1", rev)), Queued::Collapsed);
    }
    assert_eq!(q.len(), 1);
    assert_eq!(q.next().unwrap().workload, snapshot("w1", "5"));
    assert!(q.next().is_none());
    assert!(!q.finish("default/w1", None));
    assert_eq!(q.len(), 0);
}

#[test]
fn events_during_a_pass_wait_and_rerun_once() {
    let mut q = WorkQueue::new();
    q.enqueue(WorkKind::Reconcile, snapshot("w1", "1"));
    let first = q.next().unwrap();
    assert_eq!(first.workload, snapshot("w1", "1"));
    for rev in ["2", "3", "4", "5"] {
        assert_eq!(q.enqueue(WorkKind::Reconcile, snapshot("w1", rev)), Queued::Deferred);
        assert!(q.next().is_none());
        assert!(q.is_running("default/w1"));
    }
    assert!(q.finish("default/w1", None));
    let second = q.next().unwrap();
    assert_eq!(second.workload, snapshot("w1", "5"));
    assert!(q.next().is_none());
    assert!(!q.finish("default/w1", None));
    assert!(q.next().is_none());
    assert_eq!(q.len(), 0);
}

#[test]
fn distinct_workloads_run_side_by_side() {
    let mut q = WorkQueue::new();
    q.enqueue(WorkKind::Reconcile, snapshot("w2", "1"));
    q.enqueue(WorkKind::Reconcile, snapshot("w3", "1"));
    let a = q.next().unwrap();
    let b = q.next().unwrap();
    assert_ne!(a.key, b.key);
    assert!(q.is_running("default/w2"));
    assert!(q.is_running("default/w3"));
    assert!(q.next().is_none());
}

#[test]
fn failed_pass_is_queued_again_with_one_more_attempt() {
    let mut q = WorkQueue::new();
    q.enqueue(WorkKind::Reconcile, snapshot("w1", "1"));
    let work = q.next().unwrap();
    assert!(q.finish("default/w1", Some(work.workload)));
    let again = q.next().unwrap();
    assert_eq!(again.attempt, 1);
    assert_eq!(again.workload, snapshot("w1", "1"));
    assert!(q.finish("default/w1", Some(again.workload)));
    assert_eq!(q.next().unwrap().attempt, 2);
}

#[test]
fn newer_snapshot_wins_over_the_one_handed_back() {
    let mut q = WorkQueue::new();
    q.enqueue(WorkKind::Reconcile, snapshot("w1", "1"));
    let work = q.next().unwrap();
    q.enqueue(WorkKind::Reconcile, snapshot("w1", "2"));
    assert!(q.finish("default/w1", Some(work.workload)));
    let again = q.next().unwrap();
    assert_eq!(again.workload, snapshot("w1", "2"));
    assert_eq!(again.attempt, 1);
}

#[test]
fn deletion_during_a_pass_interrupts_it() {
    let mut q = WorkQueue::new();
    q.enqueue(WorkKind::Reconcile, snapshot("w1", "1"));
    let _running = q.next().unwrap();
    assert_eq!(q.enqueue(WorkKind::Forget, snapshot("w1", "1")), Queued::Interrupts);
    assert!(q.finish("default/w1", None));
    assert_eq!(q.next().unwrap().kind, WorkKind::Forget);
}

#[test]
fn finishing_an_unknown_key_changes_nothing() {
    let mut q = WorkQueue::new();
    q.enqueue(WorkKind::Reconcile, snapshot("w1", "1"));
    assert!(!q.finish("default/other", None));
    assert_eq!(q.len(), 1);
    assert!(!q.is_running("default/other"));
}

#[test]
fn drain_drops_what_waits_and_names_what_runs() {
    let mut q = WorkQueue::new();
    q.enqueue(WorkKind::Reconcile, snapshot("w1", "1"));
    q.enqueue(WorkKind::Reconcile, snapshot("w2", "1"));
    q.enqueue(WorkKind::Reconcile, snapshot("w3", "1"));
    let first = q.next().unwrap();
    let second = q.next().unwrap();
    q.enqueue(WorkKind::Reconcile, snapshot("w1", "2"));
    let mut running = q.drain();
    running.sort();
    let mut expected = vec![first.key.clone(), second.key.clone()];
    expected.sort();
    assert_eq!(running, expected);
    assert_eq!(q.len(), 2);
    assert!(q.next().is_none());
    assert!(q.is_running(&first.key));
    assert!(!q.finish(&first.key, None));
    assert!(!q.finish(&second.key, None));
    assert_eq!(q.len(), 0);
    assert!(q.drain().is_empty());
}
