use kube_cache::single_flight::{Completion, FetchOutcome, Flight, SingleFlight};

#[test]
fn first_acquire_leads_and_the_rest_follow() {
    let mut r = SingleFlight::new();
    let a = r.acquire("models-m2", 10);
    assert!(a.is_leader);
    assert_eq!(a.key, "models-m2");
    assert_eq!(a.started_at, 10);
    for n in 1..=4u64 {
        let t = r.acquire("models-m2", 10 + n);
        assert!(!t.is_leader);
        assert_eq!(t.started_at, 10);
        assert_eq!(r.flight("models-m2"), Some(Flight { waiters: n, started_at: 10 }));
        assert_eq!(r.len(), 1);
    }
}

#[test]
fn distinct_keys_have_distinct_leaders() {
    let mut r = SingleFlight::new();
    assert!(r.acquire("a", 1).is_leader);
    assert!(r.acquire("b", 2).is_leader);
    assert!(!r.acquire("a", 3).is_leader);
    assert_eq!(r.len(), 2);
    assert!(r.in_flight("a"));
    assert!(r.in_flight("b"));
    assert!(!r.in_flight("c"));
}

#[test]
fn complete_destroys_the_ticket_and_counts_the_waiters() {
    let mut r = SingleFlight::new();
    r.acquire("k", 5);
    r.acquire("k", 6);
    r.acquire("k", 7);
    assert_eq!(
        r.complete("k", FetchOutcome::Failed),
        Some(Completion { outcome: FetchOutcome::Failed, waiters: 2, started_at: 5 })
    );
    assert!(!r.in_flight("k"));
    assert_eq!(r.len(), 0);
    assert_eq!(r.complete("k", FetchOutcome::Present), None);
    let again = r.acquire("k", 9);
    assert!(again.is_leader);
    assert_eq!(again.started_at, 9);
}

#[test]
fn leave_takes_one_waiter_off() {
    let mut r = SingleFlight::new();
    r.acquire("k", 1);
    r.acquire("k", 2);
    r.leave("k");
    assert_eq!(r.flight("k"), Some(Flight { waiters: 0, started_at: 1 }));
    r.leave("k");
    assert_eq!(r.flight("k"), Some(Flight { waiters: 0, started_at: 1 }));
    r.leave("unknown");
    assert_eq!(r.len(), 1);
}

#[test]
fn other_keys_are_untouched() {
    let mut r = SingleFlight::new();
    r.acquire("a", 1);
    r.acquire("b", 2);
    r.acquire("b", 3);
    r.complete("a", FetchOutcome::Present);
    assert_eq!(r.flight("b"), Some(Flight { waiters: 1, started_at: 2 }));
    assert_eq!(r.flight("a"), None);
}
