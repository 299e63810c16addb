use kube_cache::cache::{CacheEntry, CacheIndex, FetchStart, Lookup, Residency};

#[test]
fn lookup_hits_exactly_when_the_file_exists() {
    let mut c = CacheIndex::new("/tmp", 60);
    assert_eq!(c.path_for("s3://models/m1"), "/tmp/models-m1");
    assert_eq!(
        c.lookup("s3://models/m1", None, 100),
        Lookup::Miss { cache_key: "models-m1".to_string(), path: "/tmp/models-m1".to_string() }
    );
    assert_eq!(c.residency("models-m1", 100), Residency::Absent);
    assert_eq!(
        c.lookup("s3://models/m1", Some(0), 101),
        Lookup::Hit { path: "/tmp/models-m1".to_string() }
    );
    assert_eq!(
        c.entry("models-m1"),
        CacheEntry { state: Residency::Present, fetched_at: 101, size_bytes: 0, failed_at: 0 }
    );
}

#[test]
fn present_follows_the_disk() {
    let mut c = CacheIndex::new("/tmp", 60);
    c.lookup("s3://a/b", Some(42), 1);
    c.lookup("s3://a/b", Some(43), 2);
    assert_eq!(
        c.entry("a-b"),
        CacheEntry { state: Residency::Present, fetched_at: 1, size_bytes: 43, failed_at: 0 }
    );
    c.lookup("s3://a/b", None, 3);
    assert_eq!(c.residency("a-b", 3), Residency::Absent);
}

#[test]
fn fetch_starts_once() {
    let mut c = CacheIndex::new("/tmp", 60);
    assert_eq!(c.begin_fetch("k", 1), FetchStart::Started);
    assert_eq!(c.residency("k", 1), Residency::Fetching);
    assert_eq!(c.begin_fetch("k", 2), FetchStart::Joined);
    assert_eq!(c.begin_fetch("other", 2), FetchStart::Started);
}

#[test]
fn commit_publishes_only_what_is_on_disk() {
    let mut c = CacheIndex::new("/tmp", 60);
    c.begin_fetch("k", 1);
    assert!(c.commit("k", Some(7), 9));
    assert_eq!(
        c.entry("k"),
        CacheEntry { state: Residency::Present, fetched_at: 9, size_bytes: 7, failed_at: 0 }
    );
    assert_eq!(c.begin_fetch("k", 10), FetchStart::AlreadyPresent);

    c.begin_fetch("gone", 1);
    assert!(!c.commit("gone", None, 9));
    assert_eq!(c.entry("gone").state, Residency::Failed);
    assert_eq!(c.entry("gone").failed_at, 9);
}

#[test]
fn failure_cools_down_then_reverts_to_absent() {
    let mut c = CacheIndex::new("/tmp", 60);
    c.begin_fetch("k", 100);
    c.fail("k", 130);
    assert_eq!(c.residency("k", 130), Residency::Failed);
    assert_eq!(c.residency("k", 189), Residency::Failed);
    assert_eq!(c.begin_fetch("k", 189), FetchStart::CoolingDown);
    assert_eq!(c.residency("k", 190), Residency::Absent);
    assert_eq!(c.residency("k", 50), Residency::Failed);
    assert_eq!(c.begin_fetch("k", 190), FetchStart::Started);
    assert_eq!(c.residency("k", 190), Residency::Fetching);
}

#[test]
fn fail_and_abandon_touch_only_a_fetch_under_way() {
    let mut c = CacheIndex::new("/tmp", 0);
    c.fail("k", 5);
    assert_eq!(c.residency("k", 5), Residency::Absent);
    c.lookup("s3://k", Some(1), 6);
    c.fail("k", 7);
    c.abandon("k");
    assert_eq!(c.residency("k", 7), Residency::Present);
    c.begin_fetch("j", 1);
    c.abandon("j");
    assert_eq!(c.residency("j", 1), Residency::Absent);
}

#[test]
fn cooldown_near_the_end_of_time_does_not_wrap() {
    let mut c = CacheIndex::new("/tmp", u64::MAX);
    c.begin_fetch("k", 1);
    c.fail("k", 10);
    assert_eq!(c.residency("k", u64::MAX), Residency::Failed);
}
