use kube_cache::config::Config;
use kube_cache::fetch_job::{
    build_fetch_job, owner_reference, FetchJob, Fetcher, OwnerReference, RestartPolicy,
    JOB_TTL_SECONDS,
};
use kube_cache::workload::{Classification, Workload};

fn gated(name: &str, did: &str) -> Workload {
    Workload {
        namespace: "team-a".to_string(),
        name: name.to_string(),
        uid: format!("uid-{}", name),
        node_name: None,
        scheduling_gates: vec!["kube-cache.openai.com/gate".to_string()],
        annotations: vec![("x-openai/required-dataset".to_string(), did.to_string())],
    }
}

fn fetcher() -> Fetcher {
    Fetcher {
        image: "registry.local/fetcher:1".to_string(),
        command: vec!["fetch".to_string(), "--quiet".to_string()],
    }
}

#[test]
fn owner_reference_points_at_the_workload() {
    let w = gated("w1", "s3://models/m1");
    assert_eq!(
        owner_reference(&w),
        OwnerReference {
            api_version: "v1".to_string(),
            kind: "Pod".to_string(),
            name: "w1".to_string(),
            uid: "uid-w1".to_string(),
            controller: true,
            block_owner_deletion: true,
        }
    );
}

#[test]
fn fetch_job_has_the_documented_layout() {
    let mut cfg = Config::simulation();
    cfg.s3_endpoint = Some("http://minio:9000".to_string());
    let w = gated("w1", "s3://models/m1");
    let request = match w.classify(&cfg) {
        Classification::Gated(r) => r,
        Classification::NotMine => panic!("not gated"),
    };
    let job = build_fetch_job(&w, &request, &cfg, &fetcher());
    assert_eq!(
        job,
        FetchJob {
            name: "fetcher-models-m1".to_string(),
            namespace: "team-a".to_string(),
            owner: owner_reference(&w),
            ttl_seconds_after_finished: 30,
            node_name: "kind-worker".to_string(),
            restart_policy: RestartPolicy::Never,
            image: "registry.local/fetcher:1".to_string(),
            command: vec!["fetch".to_string(), "--quiet".to_string()],
            args: vec!["s3://models/m1".to_string(), "/tmp/models-m1".to_string()],
            s3_endpoint: Some("http://minio:9000".to_string()),
            cache_root: "/tmp".to_string(),
        }
    );
    assert_eq!(JOB_TTL_SECONDS, 30);
    assert_eq!(RestartPolicy::Never.name(), "Never");
    assert_eq!(RestartPolicy::OnFailure.name(), "OnFailure");
}

#[test]
fn jobs_of_two_workloads_for_one_dataset_share_the_name_not_the_owner() {
    let cfg = Config::simulation();
    let w2 = gated("w2", "s3://models/m2");
    let w3 = gated("w3", "s3://models/m2");
    let job = |w: &Workload| match w.classify(&cfg) {
        Classification::Gated(r) => build_fetch_job(w, &r, &cfg, &fetcher()),
        Classification::NotMine => panic!("not gated"),
    };
    let (j2, j3) = (job(&w2), job(&w3));
    assert_eq!(j2.name, j3.name);
    assert_eq!(j2.owner.uid, "uid-w2");
    assert_eq!(j3.owner.uid, "uid-w3");
    assert_eq!(j2.s3_endpoint, None);
}
