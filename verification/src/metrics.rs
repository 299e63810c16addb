//! Counters, histograms and gauges of the gatekeeper.
//!
//! Every count is kept twice: in a ledger of plain numbers, which the proofs
//! speak of, and in a Prometheus registry, which the metrics endpoint
//! exports. The plan says what is handed to the registry for each metric;
//! the ledger says what the registry took and what was counted since.

use vstd::prelude::*;
use crate::counting::{one_more, sum_of};
use crate::exported::{
    plan_of, ExportedCounter, ExportedGauge, ExportedHistogram, ExportedLabelledCounter, Exporter,
    MetricKind, MetricSpec, MetricSpecView, MetricsError,
};

verus! {

/// The upper bounds of the latency buckets, in seconds.
pub open spec fn latency_bounds() -> Seq<u32> {
    seq![1u32, 10u32, 30u32, 60u32, 120u32, 300u32, 600u32]
}

/// A metric without label or buckets.
pub open spec fn plain_metric(name: Seq<char>, help: Seq<char>, kind: MetricKind) -> MetricSpecView {
    MetricSpecView { name, help, kind, label: None, bounds: Seq::empty() }
}

/// The metrics of the gatekeeper, in the order in which they are registered:
/// the counter of successful pre-warms by dataset, the counters of cache hits
/// and misses, the histograms of warm-up latency and of queue time over the
/// latency buckets, and the two gauges.
pub open spec fn metric_plan() -> Seq<MetricSpecView> {
    seq![
        MetricSpecView {
            name: "prewarm_success_total"@,
            help: "Total successful pre-warm operations"@,
            kind: MetricKind::LabelledCounter,
            label: Some("dataset"@),
            bounds: Seq::empty(),
        },
        plain_metric(
            "cache_hit_total"@,
            "Total times data was found locally"@,
            MetricKind::Counter,
        ),
        plain_metric(
            "cache_miss_total"@,
            "Total times data had to be downloaded"@,
            MetricKind::Counter,
        ),
        MetricSpecView {
            name: "warmup_latency_seconds"@,
            help: "Time taken to download data"@,
            kind: MetricKind::Histogram,
            label: None,
            bounds: latency_bounds(),
        },
        MetricSpecView {
            name: "gate_queue_time_seconds"@,
            help: "Time a workload waits behind its gate"@,
            kind: MetricKind::Histogram,
            label: None,
            bounds: latency_bounds(),
        },
        plain_metric(
            "nvme_read_throughput_bytes"@,
            "Current read speed of NVMe cache"@,
            MetricKind::Gauge,
        ),
        plain_metric(
            "gpu_idle_seconds"@,
            "Seconds the GPU sat doing nothing"@,
            MetricKind::Gauge,
        ),
    ]
}

/// The names of the metrics, in the order of the plan.
pub open spec fn metric_names() -> Seq<Seq<char>> {
    Seq::new(metric_plan().len(), |i: int| metric_plan()[i].name)
}

/// The ledger as a mathematical value.
pub struct MetricsView {
    pub cache_hit_total: u64,
    pub cache_miss_total: u64,
    /// Successful pre-warms, by dataset identifier.
    pub prewarm_success_total: Map<Seq<char>, u64>,
    /// How many warm-up latencies were observed.
    pub warmup_observations: u64,
    /// The sum of the warm-up latencies observed, in seconds.
    pub warmup_seconds_sum: u64,
    /// How many queue times were observed.
    pub queue_observations: u64,
    /// The sum of the queue times observed, in seconds.
    pub queue_seconds_sum: u64,
    pub nvme_read_throughput_bytes: i64,
    pub gpu_idle_seconds: i64,
    /// What was handed to the registry that the state keeps, for each metric
    /// that the registry took, in the order of registration.
    pub registered: Seq<MetricSpecView>,
    /// The name under which each of the seven counts above is exported, in
    /// the order of the plan.
    pub exported_as: Seq<Seq<char>>,
}

impl MetricsView {
    /// The ledger of a state that was just made: every metric of the plan is
    /// registered, each count is exported under its name, and nothing was
    /// counted yet.
    pub open spec fn zero() -> MetricsView {
        MetricsView {
            cache_hit_total: 0,
            cache_miss_total: 0,
            prewarm_success_total: Map::empty(),
            warmup_observations: 0,
            warmup_seconds_sum: 0,
            queue_observations: 0,
            queue_seconds_sum: 0,
            nvme_read_throughput_bytes: 0,
            gpu_idle_seconds: 0,
            registered: metric_plan(),
            exported_as: metric_names(),
        }
    }

    /// Successful pre-warms of `dataset`.
    pub open spec fn successes(self, dataset: Seq<char>) -> u64 {
        if self.prewarm_success_total.contains_key(dataset) {
            self.prewarm_success_total[dataset]
        } else {
            0
        }
    }

    /// Lookups counted so far, hits and misses together.
    pub open spec fn lookups(self) -> int {
        self.cache_hit_total + self.cache_miss_total
    }
}

/// The gatekeeper's metrics.
pub struct MetricsState {
    exporter: Exporter,
    ops_prewarm_success: ExportedLabelledCounter,
    ops_cache_hit: ExportedCounter,
    ops_cache_miss: ExportedCounter,
    latency_warmup: ExportedHistogram,
    latency_queue: ExportedHistogram,
    throughput_nvme: ExportedGauge,
    gpu_idle_seconds: ExportedGauge,
}

impl View for MetricsState {
    type V = MetricsView;

    closed spec fn view(&self) -> MetricsView {
        MetricsView {
            cache_hit_total: self.ops_cache_hit.count(),
            cache_miss_total: self.ops_cache_miss.count(),
            prewarm_success_total: self.ops_prewarm_success.counts(),
            warmup_observations: self.latency_warmup.observations(),
            warmup_seconds_sum: self.latency_warmup.seconds_sum(),
            queue_observations: self.latency_queue.observations(),
            queue_seconds_sum: self.latency_queue.seconds_sum(),
            nvme_read_throughput_bytes: self.throughput_nvme.value(),
            gpu_idle_seconds: self.gpu_idle_seconds.value(),
            registered: self.exporter.ledger(),
            exported_as: seq![
                self.ops_prewarm_success.name(),
                self.ops_cache_hit.name(),
                self.ops_cache_miss.name(),
                self.latency_warmup.name(),
                self.latency_queue.name(),
                self.throughput_nvme.name(),
                self.gpu_idle_seconds.name(),
            ],
        }
    }
}

/// The upper bounds of the latency buckets, in seconds: 1, 10, 30, 60, 120,
/// 300 and 600.
pub fn latency_buckets() -> (bounds: Vec<u32>)
    ensures
        bounds@ == latency_bounds(),
{
    let mut bounds: Vec<u32> = Vec::new();
    bounds.push(1);
    bounds.push(10);
    bounds.push(30);
    bounds.push(60);
    bounds.push(120);
    bounds.push(300);
    bounds.push(600);
    assert(bounds@ =~= latency_bounds());
    bounds
}

fn metric(name: &str, help: &str, kind: MetricKind, label: Option<&str>, bounds: Vec<u32>) -> (s:
    MetricSpec)
    ensures
        s@ == (MetricSpecView {
            name: name@,
            help: help@,
            kind,
            label: match label {
                Some(l) => Some(l@),
                None => None,
            },
            bounds: bounds@,
        }),
{
    MetricSpec {
        name: name.to_owned(),
        help: help.to_owned(),
        kind,
        label: match label {
            Some(l) => Some(l.to_owned()),
            None => None,
        },
        bounds,
    }
}

/// The metrics of the gatekeeper with what is handed to the Prometheus
/// library for each: name, help text, kind, label and bucket bounds.
pub fn plan() -> (plan: Vec<MetricSpec>)
    ensures
        plan_of(plan@) == metric_plan(),
{
    let mut plan: Vec<MetricSpec> = Vec::new();
    plan.push(
        metric(
            "prewarm_success_total",
            "Total successful pre-warm operations",
            MetricKind::LabelledCounter,
            Some("dataset"),
            Vec::new(),
        ),
    );
    plan.push(
        metric(
            "cache_hit_total",
            "Total times data was found locally",
            MetricKind::Counter,
            None,
            Vec::new(),
        ),
    );
    plan.push(
        metric(
            "cache_miss_total",
            "Total times data had to be downloaded",
            MetricKind::Counter,
            None,
            Vec::new(),
        ),
    );
    plan.push(
        metric(
            "warmup_latency_seconds",
            "Time taken to download data",
            MetricKind::Histogram,
            None,
            latency_buckets(),
        ),
    );
    plan.push(
        metric(
            "gate_queue_time_seconds",
            "Time a workload waits behind its gate",
            MetricKind::Histogram,
            None,
            latency_buckets(),
        ),
    );
    plan.push(
        metric(
            "nvme_read_throughput_bytes",
            "Current read speed of NVMe cache",
            MetricKind::Gauge,
            None,
            Vec::new(),
        ),
    );
    plan.push(
        metric(
            "gpu_idle_seconds",
            "Seconds the GPU sat doing nothing",
            MetricKind::Gauge,
            None,
            Vec::new(),
        ),
    );
    assert(plan_of(plan@) =~= metric_plan());
    plan
}

/// No two metrics of the plan have the same name.
pub proof fn lemma_metric_names_are_distinct()
    ensures
        metric_names().len() == 7,
        metric_names().no_duplicates(),
{
    reveal_strlit("prewarm_success_total");
    reveal_strlit("cache_hit_total");
    reveal_strlit("cache_miss_total");
    reveal_strlit("warmup_latency_seconds");
    reveal_strlit("gate_queue_time_seconds");
    reveal_strlit("nvme_read_throughput_bytes");
    reveal_strlit("gpu_idle_seconds");
    let names = metric_names();
    assert(names[0].len() == 21);
    assert(names[1].len() == 15);
    assert(names[2].len() == 16 && names[2][0] == 'c');
    assert(names[3].len() == 22);
    assert(names[4].len() == 23);
    assert(names[5].len() == 26);
    assert(names[6].len() == 16 && names[6][0] == 'g');
}

fn next_of(plan: &mut Vec<MetricSpec>) -> (spec: MetricSpec)
    requires
        old(plan)@.len() > 0,
    ensures
        spec@ == plan_of(old(plan)@)[0],
        plan_of(final(plan)@) == plan_of(old(plan)@).skip(1),
        final(plan)@.len() == old(plan)@.len() - 1,
{
    let ghost before = plan@;
    let spec = plan.remove(0);
    assert(plan_of(plan@) =~= plan_of(before).skip(1));
    spec
}

impl MetricsState {
    /// The ledger's table is well formed.
    pub closed spec fn wf(&self) -> bool {
        self.ops_prewarm_success.wf()
    }

    /// Creates the registry and registers every metric of the plan in it, in
    /// the order of the plan and with what the plan holds for it. On success
    /// the state keeps that registry, each count is exported under its name in
    /// the plan, and the ledger starts at zero. Whether the registry takes a
    /// metric is the Prometheus library's decision: the first one it refuses
    /// is reported under its name.
    pub fn new() -> (r: Result<MetricsState, MetricsError>)
        ensures
            match r {
                Ok(m) => m.wf() && m@ == MetricsView::zero(),
                Err(e) => metric_names().contains(e.metric@),
            },
    {
        let mut plan = plan();
        let ghost all = metric_plan();
        let mut exporter = Exporter::new();
        proof {
            assert(forall|i: int| 0 <= i < 7 ==> metric_names()[i] == all[i].name);
            assert(plan_of(plan@).len() == 7);
        }
        let spec = next_of(&mut plan);
        let ops_prewarm_success = match exporter.labelled_counter(spec) {
            Ok(c) => c,
            Err(e) => {
                assert(metric_names()[0] == e.metric@);
                return Err(e);
            },
        };
        let spec = next_of(&mut plan);
        let ops_cache_hit = match exporter.counter(spec) {
            Ok(c) => c,
            Err(e) => {
                assert(metric_names()[1] == e.metric@);
                return Err(e);
            },
        };
        let spec = next_of(&mut plan);
        let ops_cache_miss = match exporter.counter(spec) {
            Ok(c) => c,
            Err(e) => {
                assert(metric_names()[2] == e.metric@);
                return Err(e);
            },
        };
        let spec = next_of(&mut plan);
        let latency_warmup = match exporter.histogram(spec) {
            Ok(h) => h,
            Err(e) => {
                assert(metric_names()[3] == e.metric@);
                return Err(e);
            },
        };
        let spec = next_of(&mut plan);
        let latency_queue = match exporter.histogram(spec) {
            Ok(h) => h,
            Err(e) => {
                assert(metric_names()[4] == e.metric@);
                return Err(e);
            },
        };
        let spec = next_of(&mut plan);
        let throughput_nvme = match exporter.gauge(spec) {
            Ok(g) => g,
            Err(e) => {
                assert(metric_names()[5] == e.metric@);
                return Err(e);
            },
        };
        let spec = next_of(&mut plan);
        let gpu_idle_seconds = match exporter.gauge(spec) {
            Ok(g) => g,
            Err(e) => {
                assert(metric_names()[6] == e.metric@);
                return Err(e);
            },
        };
        let m = MetricsState {
            exporter,
            ops_prewarm_success,
            ops_cache_hit,
            ops_cache_miss,
            latency_warmup,
            latency_queue,
            throughput_nvme,
            gpu_idle_seconds,
        };
        proof {
            assert(m@.registered =~= metric_plan());
            assert(m@.exported_as =~= metric_names());
        }
        Ok(m)
    }

    /// Counts one successful pre-warm of `dataset`.
    pub fn count_success(&mut self, dataset: &str)
        requires
            old(self).wf(),
            old(self)@.successes(dataset@) < u64::MAX,
        ensures
            final(self).wf(),
            final(self)@ == (MetricsView {
                prewarm_success_total: old(self)@.prewarm_success_total.insert(
                    dataset@,
                    (old(self)@.successes(dataset@) + 1) as u64,
                ),
                ..old(self)@
            }),
    {
        self.ops_prewarm_success.inc(dataset);
    }

    /// Counts one cache hit.
    pub fn count_hit(&mut self)
        requires
            old(self)@.cache_hit_total < u64::MAX,
        ensures
            final(self).wf() == old(self).wf(),
            final(self)@ == (MetricsView {
                cache_hit_total: (old(self)@.cache_hit_total + 1) as u64,
                ..old(self)@
            }),
    {
        self.ops_cache_hit.inc();
    }

    /// Counts one cache miss.
    pub fn count_miss(&mut self)
        requires
            old(self)@.cache_miss_total < u64::MAX,
        ensures
            final(self).wf() == old(self).wf(),
            final(self)@ == (MetricsView {
                cache_miss_total: (old(self)@.cache_miss_total + 1) as u64,
                ..old(self)@
            }),
    {
        self.ops_cache_miss.inc();
    }

    /// Records how long a warm-up took, in whole seconds. The ledger counts
    /// and sums observations up to the largest number a `u64` holds.
    pub fn observe_warmup(&mut self, seconds: u64)
        ensures
            final(self).wf() == old(self).wf(),
            final(self)@ == (MetricsView {
                warmup_observations: one_more(old(self)@.warmup_observations),
                warmup_seconds_sum: sum_of(old(self)@.warmup_seconds_sum, seconds),
                ..old(self)@
            }),
    {
        self.latency_warmup.observe(seconds);
    }

    /// Records how long a workload waited behind its gate, in whole seconds. The
    /// ledger counts and sums observations up to the largest number a `u64`
    /// holds.
    pub fn observe_queue_time(&mut self, seconds: u64)
        ensures
            final(self).wf() == old(self).wf(),
            final(self)@ == (MetricsView {
                queue_observations: one_more(old(self)@.queue_observations),
                queue_seconds_sum: sum_of(old(self)@.queue_seconds_sum, seconds),
                ..old(self)@
            }),
    {
        self.latency_queue.observe(seconds);
    }

    /// Sets the gauge of the cache's read throughput, in bytes per second.
    pub fn set_nvme_read_throughput(&mut self, bytes: i64)
        ensures
            final(self).wf() == old(self).wf(),
            final(self)@ == (MetricsView { nvme_read_throughput_bytes: bytes, ..old(self)@ }),
    {
        self.throughput_nvme.set(bytes);
    }

    /// Sets the gauge of the seconds the accelerator sat idle.
    pub fn set_gpu_idle_seconds(&mut self, seconds: i64)
        ensures
            final(self).wf() == old(self).wf(),
            final(self)@ == (MetricsView { gpu_idle_seconds: seconds, ..old(self)@ }),
    {
        self.gpu_idle_seconds.set(seconds);
    }

    /// Cache hits counted so far.
    pub fn cache_hit_total(&self) -> (n: u64)
        ensures
            n == self@.cache_hit_total,
    {
        self.ops_cache_hit.total()
    }

    /// Cache misses counted so far.
    pub fn cache_miss_total(&self) -> (n: u64)
        ensures
            n == self@.cache_miss_total,
    {
        self.ops_cache_miss.total()
    }

    /// Successful pre-warms of `dataset` counted so far.
    pub fn prewarm_success_total(&self, dataset: &str) -> (n: u64)
        requires
            self.wf(),
        ensures
            n == self@.successes(dataset@),
    {
        self.ops_prewarm_success.total(dataset)
    }

    /// Warm-up latencies observed so far.
    pub fn warmup_observations(&self) -> (n: u64)
        ensures
            n == self@.warmup_observations,
    {
        self.latency_warmup.observed()
    }

    /// Queue times observed so far.
    pub fn queue_observations(&self) -> (n: u64)
        ensures
            n == self@.queue_observations,
    {
        self.latency_queue.observed()
    }

    /// The sum of the warm-up latencies observed so far, in seconds.
    pub fn warmup_seconds_sum(&self) -> (n: u64)
        ensures
            n == self@.warmup_seconds_sum,
    {
        self.latency_warmup.observed_seconds()
    }

    /// The sum of the queue times observed so far, in seconds.
    pub fn queue_seconds_sum(&self) -> (n: u64)
        ensures
            n == self@.queue_seconds_sum,
    {
        self.latency_queue.observed_seconds()
    }

    /// What was handed to the registry for each metric that it took, in the
    /// order of registration.
    pub fn registered(&self) -> (specs: &Vec<MetricSpec>)
        ensures
            plan_of(specs@) == self@.registered,
    {
        self.exporter.registered()
    }

    /// The registry in the text exposition format. What the text holds is
    /// the Prometheus library's to say; a failure to write it is reported
    /// under the name `exposition`.
    pub fn exposition(&self) -> (r: Result<String, MetricsError>)
        ensures
            r matches Err(e) ==> e.metric@ == "exposition"@,
    {
        self.exporter.text()
    }
}

} // verus!
