use kube_cache::cache::Residency;
use kube_cache::config::Config;
use kube_cache::fetch_job::{Fetcher, RestartPolicy};
use kube_cache::metrics::MetricsState;
use kube_cache::orchestrator::EnsureResult;
use kube_cache::reconciler::{
    follower_report, leader_report, Action, GatePatch, Gatekeeper, PassEvent, PatchReply, Phase,
    Step, Wake,
};
use kube_cache::single_flight::FetchOutcome;
use kube_cache::workload::Workload;

const GATE: &str = "kube-cache.openai.com/gate";
const KEY: &str = "x-openai/required-dataset";

fn gated(name: &str, did: &str) -> Workload {
    Workload {
        namespace: "default".to_string(),
        name: name.to_string(),
        uid: format!("uid-{}", name),
        node_name: None,
        scheduling_gates: vec![GATE.to_string()],
        annotations: vec![(KEY.to_string(), did.to_string())],
    }
}

fn gatekeeper(cooldown_secs: u64) -> Gatekeeper {
    let fetcher = Fetcher { image: "fetcher:1".to_string(), command: vec![] };
    let mut config = Config::simulation();
    config.failure_cooldown_secs = cooldown_secs;
    Gatekeeper::new(config, fetcher, MetricsState::new().unwrap()).unwrap()
}

fn release_of(name: &str) -> Action {
    Action::Patch {
        namespace: "default".to_string(),
        name: name.to_string(),
        patch: GatePatch { scheduling_gates: vec![] },
    }
}

fn quiet(action: Action) -> Step {
    Step { action, wake: None }
}

#[test]
fn cold_hit() {
    let mut g = gatekeeper(60);
    let (mut pass, step) = g.observe(gated("w1", "s3://models/m1"), 0, 100);
    assert_eq!(step, quiet(Action::Probe { path: "/tmp/models-m1".to_string() }));
    assert_eq!(pass.phase(), Phase::EnsureFetch);

    let step = g.step(&mut pass, PassEvent::Probed { on_disk: None }, 100, 0);
    assert_eq!(pass.phase(), Phase::AwaitReady);
    assert!(pass.is_leader());
    match step.action {
        Action::Fetch { job, timeout_secs } => {
            assert_eq!(job.name, "fetcher-models-m1");
            assert_eq!(job.node_name, "kind-worker");
            assert_eq!(job.namespace, "default");
            assert_eq!(job.owner.uid, "uid-w1");
            assert_eq!(job.owner.name, "w1");
            assert!(job.owner.controller && job.owner.block_owner_deletion);
            assert_eq!(job.restart_policy, RestartPolicy::Never);
            assert_eq!(job.ttl_seconds_after_finished, 30);
            assert_eq!(timeout_secs, 1800);
        }
        other => panic!("unexpected {:?}", other),
    }
    assert_eq!(g.cache().residency("models-m1", 100), Residency::Fetching);
    assert!(g.flights().in_flight("models-m1"));

    let step = g.step(
        &mut pass,
        PassEvent::Resolved { outcome: FetchOutcome::Present, on_disk: Some(0) },
        130,
        0,
    );
    assert_eq!(
        step,
        Step {
            action: release_of("w1"),
            wake: Some(Wake {
                cache_key: "models-m1".to_string(),
                outcome: FetchOutcome::Present,
                waiters: 0
            }),
        }
    );
    assert_eq!(pass.phase(), Phase::Release);
    assert_eq!(g.cache().residency("models-m1", 130), Residency::Present);
    assert!(!g.flights().in_flight("models-m1"));

    let step = g.step(&mut pass, PassEvent::Patched(PatchReply::Applied), 131, 0);
    assert_eq!(step, quiet(Action::Nothing));
    assert_eq!(pass.phase(), Phase::Done);

    let m = g.metrics();
    assert_eq!(m.cache_miss_total(), 1);
    assert_eq!(m.cache_hit_total(), 0);
    assert_eq!(m.prewarm_success_total("s3://models/m1"), 1);
    assert_eq!(m.warmup_observations(), 1);
    assert_eq!(m.warmup_seconds_sum(), 30);
    assert_eq!(m.queue_observations(), 1);
    assert_eq!(m.queue_seconds_sum(), 31);
    assert_eq!(g.ensure_fetch_passes(), 1);
}

#[test]
fn warm_hit() {
    let mut g = gatekeeper(60);
    let (mut pass, _) = g.observe(gated("w1", "s3://models/m1"), 0, 100);
    let step = g.step(&mut pass, PassEvent::Probed { on_disk: Some(0) }, 100, 0);
    assert_eq!(step, quiet(release_of("w1")));
    assert_eq!(pass.phase(), Phase::Release);
    assert!(!g.flights().in_flight("models-m1"));
    assert_eq!(g.cache().residency("models-m1", 100), Residency::Present);
    g.step(&mut pass, PassEvent::Patched(PatchReply::Applied), 100, 0);
    let m = g.metrics();
    assert_eq!(m.cache_hit_total(), 1);
    assert_eq!(m.cache_miss_total(), 0);
    assert_eq!(m.warmup_observations(), 0);
    assert_eq!(m.warmup_seconds_sum(), 0);
    assert_eq!(m.queue_observations(), 1);
    assert_eq!(m.queue_seconds_sum(), 0);
    assert_eq!(m.prewarm_success_total("s3://models/m1"), 0);
}

#[test]
fn two_workloads_same_dataset() {
    let mut g = gatekeeper(60);
    let (mut p2, _) = g.observe(gated("w2", "s3://models/m2"), 0, 10);
    let (mut p3, _) = g.observe(gated("w3", "s3://models/m2"), 0, 10);
    let s2 = g.step(&mut p2, PassEvent::Probed { on_disk: None }, 10, 0);
    let s3 = g.step(&mut p3, PassEvent::Probed { on_disk: None }, 11, 0);
    assert!(matches!(s2.action, Action::Fetch { .. }));
    assert_eq!(s3, quiet(Action::Await { cache_key: "models-m2".to_string() }));
    assert!(p2.is_leader());
    assert!(!p3.is_leader());
    assert_eq!(g.flights().len(), 1);

    let done = PassEvent::Resolved { outcome: FetchOutcome::Present, on_disk: Some(5) };
    let s2 = g.step(&mut p2, done, 20, 0);
    assert_eq!(
        s2.wake,
        Some(Wake {
            cache_key: "models-m2".to_string(),
            outcome: FetchOutcome::Present,
            waiters: 1
        })
    );
    assert_eq!(s2.action, release_of("w2"));
    let s3 = g.step(&mut p3, done, 20, 0);
    assert_eq!(s3, quiet(release_of("w3")));
    assert_eq!(g.metrics().cache_miss_total(), 2);
    assert_eq!(g.metrics().prewarm_success_total("s3://models/m2"), 1);
    assert_eq!(g.flights().len(), 0);
}

#[test]
fn fetch_failure_then_success() {
    let mut g = gatekeeper(0);
    let mut jobs = 0;
    let mut patches = 0;

    let (mut pass, _) = g.observe(gated("w", "s3://models/m3"), 0, 10);
    if let Action::Fetch { .. } = g.step(&mut pass, PassEvent::Probed { on_disk: None }, 10, 0).action {
        jobs += 1;
    }
    let step = g.step(
        &mut pass,
        PassEvent::Resolved { outcome: FetchOutcome::Failed, on_disk: None },
        20,
        0,
    );
    assert_eq!(step.action, Action::Requeue { after_ms: 800 });
    assert_eq!(step.wake.map(|w| w.outcome), Some(FetchOutcome::Failed));
    assert_eq!(pass.phase(), Phase::BackoffRetry);
    assert_eq!(g.cache().entry("models-m3").state, Residency::Failed);
    assert!(!g.flights().in_flight("models-m3"));

    let (mut pass, _) = g.observe(pass.into_workload(), 1, 21);
    if let Action::Fetch { .. } = g.step(&mut pass, PassEvent::Probed { on_disk: None }, 21, 0).action {
        jobs += 1;
    }
    let step = g.step(
        &mut pass,
        PassEvent::Resolved { outcome: FetchOutcome::Present, on_disk: Some(1) },
        30,
        0,
    );
    if let Action::Patch { .. } = step.action {
        patches += 1;
    }
    assert_eq!(jobs, 2);
    assert_eq!(patches, 1);
    assert_eq!(g.metrics().prewarm_success_total("s3://models/m3"), 1);
    assert_eq!(g.metrics().cache_miss_total(), 2);
}

#[test]
fn failed_fetch_cools_down_before_the_next_job() {
    let mut g = gatekeeper(60);
    let (mut pass, _) = g.observe(gated("w", "s3://models/m3"), 0, 10);
    g.step(&mut pass, PassEvent::Probed { on_disk: None }, 10, 0);
    g.step(&mut pass, PassEvent::Resolved { outcome: FetchOutcome::Failed, on_disk: None }, 20, 0);

    let (mut early, _) = g.observe(pass.into_workload(), 1, 40);
    let step = g.step(&mut early, PassEvent::Probed { on_disk: None }, 40, 400);
    assert_eq!(step, quiet(Action::Requeue { after_ms: 2000 }));
    assert_eq!(early.phase(), Phase::BackoffRetry);
    assert!(!g.flights().in_flight("models-m3"));

    let (mut late, _) = g.observe(early.into_workload(), 2, 80);
    let step = g.step(&mut late, PassEvent::Probed { on_disk: None }, 80, 0);
    assert!(matches!(step.action, Action::Fetch { .. }));
}

#[test]
fn success_without_the_file_is_no_release() {
    let mut g = gatekeeper(60);
    let (mut pass, _) = g.observe(gated("w", "s3://a/b"), 0, 1);
    g.step(&mut pass, PassEvent::Probed { on_disk: None }, 1, 0);
    let step = g.step(
        &mut pass,
        PassEvent::Resolved { outcome: FetchOutcome::Present, on_disk: None },
        2,
        0,
    );
    assert!(matches!(step.action, Action::Requeue { .. }));
    assert_eq!(step.wake.map(|w| w.outcome), Some(FetchOutcome::Failed));
    assert_eq!(g.cache().entry("a-b").state, Residency::Failed);
    assert_eq!(g.metrics().prewarm_success_total("s3://a/b"), 0);
}

#[test]
fn conflicting_patch() {
    let mut g = gatekeeper(60);
    let (mut pass, _) = g.observe(gated("w1", "s3://models/m1"), 0, 1);
    g.step(&mut pass, PassEvent::Probed { on_disk: Some(3) }, 1, 0);
    let step = g.step(&mut pass, PassEvent::Patched(PatchReply::Conflict), 2, 0);
    assert_eq!(step, quiet(Action::Nothing));
    assert_eq!(pass.phase(), Phase::Dropped);
    assert_eq!(g.metrics().queue_observations(), 0);

    let (mut next, step) = g.observe(gated("w1", "s3://models/m1"), 0, 3);
    assert!(matches!(step.action, Action::Probe { .. }));
    let step = g.step(&mut next, PassEvent::Probed { on_disk: Some(3) }, 3, 0);
    assert_eq!(step.action, release_of("w1"));
    g.step(&mut next, PassEvent::Patched(PatchReply::Applied), 4, 0);
    assert_eq!(next.phase(), Phase::Done);
    assert_eq!(g.metrics().cache_hit_total(), 2);
    assert_eq!(g.metrics().queue_observations(), 1);
}

#[test]
fn unavailable_patch_is_retried() {
    let mut g = gatekeeper(60);
    let (mut pass, _) = g.observe(gated("w1", "s3://models/m1"), 2, 1);
    g.step(&mut pass, PassEvent::Probed { on_disk: Some(3) }, 1, 0);
    let step = g.step(&mut pass, PassEvent::Patched(PatchReply::Unavailable), 2, 0);
    assert_eq!(step, quiet(Action::Requeue { after_ms: 3200 }));
    assert_eq!(pass.phase(), Phase::BackoffRetry);
}

#[test]
fn ungated_workload_is_a_no_op_however_often() {
    let mut g = gatekeeper(60);
    let mut w = gated("w1", "s3://models/m1");
    w.scheduling_gates.clear();
    for round in 0..5 {
        let (mut pass, step) = g.observe(w.clone(), 0, round);
        assert_eq!(step, quiet(Action::Nothing));
        assert_eq!(pass.phase(), Phase::NotMine);
        assert!(pass.request().is_none());
        for event in [
            PassEvent::Probed { on_disk: Some(1) },
            PassEvent::Probed { on_disk: None },
            PassEvent::Resolved { outcome: FetchOutcome::Present, on_disk: Some(1) },
            PassEvent::Patched(PatchReply::Applied),
        ] {
            assert_eq!(g.step(&mut pass, event, round, 0), quiet(Action::Nothing));
            assert_eq!(pass.phase(), Phase::NotMine);
        }
    }
    assert_eq!(g.ensure_fetch_passes(), 0);
    assert_eq!(g.metrics().cache_hit_total() + g.metrics().cache_miss_total(), 0);
    assert_eq!(g.flights().len(), 0);
}

#[test]
fn empty_did_is_never_released() {
    let mut g = gatekeeper(60);
    let (mut pass, step) = g.observe(gated("w1", ""), 0, 1);
    assert_eq!(step, quiet(Action::Nothing));
    assert_eq!(pass.phase(), Phase::NotMine);
    let step = g.step(&mut pass, PassEvent::Probed { on_disk: Some(1) }, 1, 0);
    assert_eq!(step, quiet(Action::Nothing));
    let mut bare = gated("w2", "x");
    bare.annotations.clear();
    assert_eq!(g.observe(bare, 0, 1).0.phase(), Phase::NotMine);
}

#[test]
fn lookups_count_the_passes_that_asked_the_cache() {
    let mut g = gatekeeper(60);
    let dids = ["s3://a/1", "s3://a/2", "s3://a/1", "s3://a/3", "s3://a/2"];
    for (i, did) in dids.iter().enumerate() {
        let (mut pass, _) = g.observe(gated("w", did), 0, i as u64);
        let on_disk = if i % 2 == 0 { Some(1) } else { None };
        g.step(&mut pass, PassEvent::Probed { on_disk }, i as u64, 0);
        g.step(&mut pass, PassEvent::Probed { on_disk }, i as u64, 0);
        let m = g.metrics();
        assert_eq!(m.cache_hit_total() + m.cache_miss_total(), g.ensure_fetch_passes());
        assert_eq!(g.ensure_fetch_passes(), i as u64 + 1);
    }
    assert_eq!(g.metrics().cache_hit_total(), 3);
    assert_eq!(g.metrics().cache_miss_total(), 2);
}

#[test]
fn deletion_during_fetch_abandons_the_ticket() {
    let mut g = gatekeeper(60);
    let (mut leader, _) = g.observe(gated("w2", "s3://models/m2"), 0, 1);
    let (mut follower, _) = g.observe(gated("w3", "s3://models/m2"), 0, 1);
    g.step(&mut leader, PassEvent::Probed { on_disk: None }, 1, 0);
    g.step(&mut follower, PassEvent::Probed { on_disk: None }, 1, 0);

    let step = g.step(&mut follower, PassEvent::Deleted, 2, 0);
    assert_eq!(step, quiet(Action::Nothing));
    assert_eq!(follower.phase(), Phase::Abandoned);
    assert_eq!(g.flights().flight("models-m2").map(|f| f.waiters), Some(0));

    let step = g.step(&mut leader, PassEvent::Deleted, 3, 0);
    assert_eq!(
        step,
        Step {
            action: Action::CancelFetch { job_name: "fetcher-models-m2".to_string() },
            wake: Some(Wake {
                cache_key: "models-m2".to_string(),
                outcome: FetchOutcome::Failed,
                waiters: 0
            }),
        }
    );
    assert_eq!(leader.phase(), Phase::Abandoned);
    assert!(!g.flights().in_flight("models-m2"));
    assert_eq!(g.cache().residency("models-m2", 3), Residency::Absent);
}

#[test]
fn reports_that_do_not_fit_the_phase_change_nothing() {
    let mut g = gatekeeper(60);
    let (mut pass, _) = g.observe(gated("w1", "s3://models/m1"), 0, 1);
    let before = pass.clone();
    assert_eq!(
        g.step(&mut pass, PassEvent::Patched(PatchReply::Applied), 1, 0),
        quiet(Action::Nothing)
    );
    assert_eq!(
        g.step(
            &mut pass,
            PassEvent::Resolved { outcome: FetchOutcome::Present, on_disk: Some(1) },
            1,
            0
        ),
        quiet(Action::Nothing)
    );
    assert_eq!(pass, before);
    assert_eq!(g.ensure_fetch_passes(), 0);
}

#[test]
fn gatekeeper_needs_a_ledger_without_lookups() {
    let mut used = MetricsState::new().unwrap();
    used.count_hit();
    let fetcher = Fetcher { image: "fetcher:1".to_string(), command: vec![] };
    assert!(Gatekeeper::new(Config::new(), fetcher, used).is_none());
}

#[test]
fn released_workload_is_left_alone_until_it_is_deleted() {
    let mut g = gatekeeper(60);
    let (mut pass, _) = g.observe(gated("w1", "s3://models/m1"), 0, 1);
    g.step(&mut pass, PassEvent::Probed { on_disk: Some(3) }, 1, 0);
    assert!(!g.was_released("uid-w1"));
    g.step(&mut pass, PassEvent::Patched(PatchReply::Applied), 2, 0);
    assert!(g.was_released("uid-w1"));

    for round in 0..3 {
        let (mut stale, step) = g.observe(gated("w1", "s3://models/m1"), 0, 3 + round);
        assert_eq!(step, quiet(Action::Nothing));
        assert_eq!(stale.phase(), Phase::NotMine);
        let step = g.step(&mut stale, PassEvent::Probed { on_disk: Some(3) }, 3 + round, 0);
        assert_eq!(step, quiet(Action::Nothing));
    }
    assert_eq!(g.metrics().cache_hit_total(), 1);
    assert_eq!(g.ensure_fetch_passes(), 1);

    let mut other = gated("w1", "s3://models/m1");
    other.uid = "uid-of-another-w1".to_string();
    let (_, step) = g.observe(other, 0, 9);
    assert!(matches!(step.action, Action::Probe { .. }));

    g.forget(&gated("w1", "s3://models/m1"));
    assert!(!g.was_released("uid-w1"));
    let (_, step) = g.observe(gated("w1", "s3://models/m1"), 0, 10);
    assert!(matches!(step.action, Action::Probe { .. }));
}

#[test]
fn deletion_forgets_the_release() {
    let mut g = gatekeeper(60);
    let (mut pass, _) = g.observe(gated("w1", "s3://models/m1"), 0, 1);
    g.step(&mut pass, PassEvent::Probed { on_disk: Some(3) }, 1, 0);
    g.step(&mut pass, PassEvent::Patched(PatchReply::Applied), 2, 0);
    assert!(g.was_released("uid-w1"));
    let (mut again, _) = g.observe(gated("w1", "s3://models/m1"), 0, 3);
    g.step(&mut again, PassEvent::Deleted, 3, 0);
    assert!(!g.was_released("uid-w1"));
}

#[test]
fn same_path_is_never_shared_by_two_datasets() {
    let mut g = gatekeeper(60);
    let (mut wa, step) = g.observe(gated("wa", "s3://a/b"), 0, 1);
    assert_eq!(step, quiet(Action::Probe { path: "/tmp/a-b".to_string() }));
    g.step(&mut wa, PassEvent::Probed { on_disk: Some(1) }, 1, 0);
    assert_eq!(wa.phase(), Phase::Release);

    let (mut wb, step) = g.observe(gated("wb", "s3://a-b"), 0, 2);
    assert_eq!(step, quiet(Action::Probe { path: "/tmp/a%-b".to_string() }));
    let step = g.step(&mut wb, PassEvent::Probed { on_disk: None }, 2, 0);
    assert!(matches!(step.action, Action::Fetch { .. }));
    assert_eq!(wb.phase(), Phase::AwaitReady);
    assert_eq!(g.metrics().cache_hit_total(), 1);
    assert_eq!(g.metrics().cache_miss_total(), 1);
}

#[test]
fn reports_are_made_from_what_the_caller_saw() {
    assert_eq!(
        leader_report(EnsureResult::Present, Some(4)),
        PassEvent::Resolved { outcome: FetchOutcome::Present, on_disk: Some(4) }
    );
    assert_eq!(
        leader_report(EnsureResult::Failed, None),
        PassEvent::Resolved { outcome: FetchOutcome::Failed, on_disk: None }
    );
    assert_eq!(leader_report(EnsureResult::Cancelled, Some(4)), PassEvent::Deleted);
    assert_eq!(
        follower_report(Some(FetchOutcome::Present), Some(1)),
        PassEvent::Resolved { outcome: FetchOutcome::Present, on_disk: Some(1) }
    );
    assert_eq!(
        follower_report(None, Some(1)),
        PassEvent::Resolved { outcome: FetchOutcome::Failed, on_disk: Some(1) }
    );
}
