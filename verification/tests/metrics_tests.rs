use kube_cache::exported::{admitted, Exporter, MetricKind, MetricSpec};
use kube_cache::metrics::{latency_buckets, plan, MetricsState};

#[test]
fn new_ledger_starts_at_zero() {
    let m = MetricsState::new().unwrap();
    assert_eq!(m.cache_hit_total(), 0);
    assert_eq!(m.cache_miss_total(), 0);
    assert_eq!(m.prewarm_success_total("s3://models/m1"), 0);
    assert_eq!(m.warmup_observations(), 0);
    assert_eq!(m.queue_observations(), 0);
}

#[test]
fn counters_reach_the_ledger_and_the_registry() {
    let mut m = MetricsState::new().unwrap();
    m.count_hit();
    m.count_hit();
    m.count_miss();
    m.count_success("s3://models/m1");
    m.count_success("s3://models/m1");
    m.count_success("s3://models/m2");
    assert_eq!(m.cache_hit_total(), 2);
    assert_eq!(m.cache_miss_total(), 1);
    assert_eq!(m.prewarm_success_total("s3://models/m1"), 2);
    assert_eq!(m.prewarm_success_total("s3://models/m2"), 1);
    assert_eq!(m.prewarm_success_total("s3://models/m3"), 0);

    let text = m.exposition().unwrap();
    assert!(text.contains("cache_hit_total 2"), "{}", text);
    assert!(text.contains("cache_miss_total 1"), "{}", text);
    assert!(text.contains("prewarm_success_total{dataset=\"s3://models/m1\"} 2"), "{}", text);
    assert!(text.contains("prewarm_success_total{dataset=\"s3://models/m2\"} 1"), "{}", text);
}

#[test]
fn latencies_fall_into_the_documented_buckets() {
    assert_eq!(latency_buckets(), vec![1, 10, 30, 60, 120, 300, 600]);
    let mut m = MetricsState::new().unwrap();
    m.observe_warmup(0);
    m.observe_warmup(10);
    m.observe_warmup(45);
    m.observe_warmup(4000);
    m.observe_queue_time(61);
    assert_eq!(m.warmup_observations(), 4);
    assert_eq!(m.warmup_seconds_sum(), 4055);
    assert_eq!(m.queue_observations(), 1);
    assert_eq!(m.queue_seconds_sum(), 61);
    m.observe_queue_time(u64::MAX);
    assert_eq!(m.queue_seconds_sum(), u64::MAX);
    assert_eq!(m.queue_observations(), 2);
    let text = m.exposition().unwrap();
    for line in [
        "warmup_latency_seconds_bucket{le=\"1\"} 1",
        "warmup_latency_seconds_bucket{le=\"10\"} 2",
        "warmup_latency_seconds_bucket{le=\"30\"} 2",
        "warmup_latency_seconds_bucket{le=\"60\"} 3",
        "warmup_latency_seconds_bucket{le=\"120\"} 3",
        "warmup_latency_seconds_bucket{le=\"300\"} 3",
        "warmup_latency_seconds_bucket{le=\"600\"} 3",
        "warmup_latency_seconds_bucket{le=\"+Inf\"} 4",
        "warmup_latency_seconds_sum 4055",
        "warmup_latency_seconds_count 4",
        "gate_queue_time_seconds_bucket{le=\"60\"} 0",
        "gate_queue_time_seconds_bucket{le=\"120\"} 1",
        "gate_queue_time_seconds_count 2",
    ] {
        assert!(text.contains(line), "missing {:?} in\n{}", line, text);
    }
}

#[test]
fn gauges_are_exported() {
    let mut m = MetricsState::new().unwrap();
    m.set_nvme_read_throughput(123456);
    m.set_gpu_idle_seconds(-7);
    let text = m.exposition().unwrap();
    assert!(text.contains("nvme_read_throughput_bytes 123456"), "{}", text);
    assert!(text.contains("gpu_idle_seconds -7"), "{}", text);
}

#[test]
fn two_ledgers_do_not_share_a_registry() {
    let mut a = MetricsState::new().unwrap();
    let b = MetricsState::new().unwrap();
    a.count_hit();
    assert!(b.exposition().unwrap().contains("cache_hit_total 0"));
}

#[test]
fn refused_metric_is_reported_under_its_name() {
    let registry = prometheus::Registry::new();
    let first = prometheus::IntCounter::new("twice", "help").unwrap();
    registry.register(Box::new(first.clone())).unwrap();
    let second = registry.register(Box::new(first));
    let err = admitted("twice", second).unwrap_err();
    assert_eq!(err.metric, "twice");
    assert!(!err.reason.is_empty());
    assert_eq!(admitted::<u8>("fine", Ok(7)), Ok(7));
}

#[test]
fn plan_holds_the_seven_metrics() {
    let plan = plan();
    let names: Vec<&str> = plan.iter().map(|s| s.name.as_str()).collect();
    assert_eq!(
        names,
        vec![
            "prewarm_success_total",
            "cache_hit_total",
            "cache_miss_total",
            "warmup_latency_seconds",
            "gate_queue_time_seconds",
            "nvme_read_throughput_bytes",
            "gpu_idle_seconds",
        ]
    );
    let kinds: Vec<MetricKind> = plan.iter().map(|s| s.kind).collect();
    assert_eq!(
        kinds,
        vec![
            MetricKind::LabelledCounter,
            MetricKind::Counter,
            MetricKind::Counter,
            MetricKind::Histogram,
            MetricKind::Histogram,
            MetricKind::Gauge,
            MetricKind::Gauge,
        ]
    );
    assert_eq!(plan[0].label, Some("dataset".to_string()));
    assert_eq!(plan[3].bounds, vec![1, 10, 30, 60, 120, 300, 600]);
    assert_eq!(plan[4].bounds, vec![1, 10, 30, 60, 120, 300, 600]);
    assert!(plan[1].bounds.is_empty());
    assert_eq!(plan[4].help, "Time a workload waits behind its gate");
}

#[test]
fn new_state_has_registered_the_plan() {
    let m = MetricsState::new().unwrap();
    assert_eq!(m.registered(), &plan());
    let text = m.exposition().unwrap();
    for line in [
        "# TYPE cache_hit_total counter",
        "cache_hit_total 0",
        "cache_miss_total 0",
        "# TYPE warmup_latency_seconds histogram",
        "warmup_latency_seconds_bucket{le=\"1\"} 0",
        "warmup_latency_seconds_bucket{le=\"600\"} 0",
        "warmup_latency_seconds_bucket{le=\"+Inf\"} 0",
        "warmup_latency_seconds_sum 0",
        "warmup_latency_seconds_count 0",
        "# TYPE gate_queue_time_seconds histogram",
        "gate_queue_time_seconds_bucket{le=\"10\"} 0",
        "gate_queue_time_seconds_bucket{le=\"300\"} 0",
        "gate_queue_time_seconds_count 0",
        "# TYPE nvme_read_throughput_bytes gauge",
        "nvme_read_throughput_bytes 0",
        "gpu_idle_seconds 0",
    ] {
        assert!(text.contains(line), "missing {:?} in\n{}", line, text);
    }
    assert!(!text.contains("le=\"0.005\""), "{}", text);
}

#[test]
fn each_count_is_exported_under_its_own_name() {
    let mut m = MetricsState::new().unwrap();
    m.count_hit();
    let text = m.exposition().unwrap();
    assert!(text.contains("cache_hit_total 1"), "{}", text);
    assert!(text.contains("cache_miss_total 0"), "{}", text);
    m.count_miss();
    m.count_miss();
    m.observe_warmup(5);
    let text = m.exposition().unwrap();
    assert!(text.contains("cache_hit_total 1"), "{}", text);
    assert!(text.contains("cache_miss_total 2"), "{}", text);
    assert!(text.contains("warmup_latency_seconds_count 1"), "{}", text);
    assert!(text.contains("gate_queue_time_seconds_count 0"), "{}", text);
}

#[test]
fn exporter_lists_what_the_registry_took_and_reports_what_it_refused() {
    let spec = |name: &str| MetricSpec {
        name: name.to_string(),
        help: "help".to_string(),
        kind: MetricKind::Counter,
        label: None,
        bounds: vec![],
    };
    let mut exporter = Exporter::new();
    assert!(exporter.registered().is_empty());
    let mut first = exporter.counter(spec("once")).unwrap();
    first.inc();
    assert_eq!(first.total(), 1);
    let refused = exporter.counter(spec("once")).err().unwrap();
    assert_eq!(refused.metric, "once");
    let invalid = exporter.counter(spec("not a name")).err().unwrap();
    assert_eq!(invalid.metric, "not a name");
    assert_eq!(exporter.registered(), &vec![spec("once")]);
    let unlabelled = exporter.labelled_counter(spec("labelled")).err().unwrap();
    assert_eq!(unlabelled.metric, "labelled");
    assert!(exporter.text().unwrap().contains("once 1"));
}
