//! The Prometheus side of the metrics: the registry with the list of what
//! it took, and each count together with the handle that exports it.
//!
//! A count and its handle live in one struct with one method that changes
//! both, and the handle cannot be reached from anywhere else. Nothing is
//! known of what the Prometheus library holds: its registry and its handles
//! are written to and never read back, except for the text of the endpoint.

use vstd::prelude::*;
use crate::counting::{add_up, count_up, one_more, sum_of};
use crate::keyed::KeyedTable;

verus! {

/// The Prometheus registry that collects the gatekeeper's metrics.
#[verifier::external_type_specification]
#[verifier::external_body]
pub struct ExRegistry(prometheus::Registry);

/// A Prometheus histogram.
#[verifier::external_type_specification]
#[verifier::external_body]
pub struct ExHistogram(prometheus::Histogram);

/// The error of the Prometheus library.
#[verifier::external_type_specification]
#[verifier::external_body]
pub struct ExExporterError(prometheus::Error);

/// A Prometheus integer counter. The library's type is generic over one of
/// its own traits, which Verus does not take in a type declaration, so the
/// handle is kept whole behind this struct. Nothing is known of what it holds.
#[verifier::external_body]
pub struct CounterHandle {
    inner: prometheus::IntCounter,
}

/// A Prometheus integer counter with one label, kept whole like
/// `CounterHandle`. Nothing is known of what it holds.
#[verifier::external_body]
pub struct LabelledCounterHandle {
    inner: prometheus::IntCounterVec,
}

/// A Prometheus integer gauge, kept whole like `CounterHandle`. Nothing is
/// known of what it holds.
#[verifier::external_body]
pub struct GaugeHandle {
    inner: prometheus::IntGauge,
}

/// A metric that the registry did not take.
#[derive(Clone, Debug, PartialEq, Eq)]
pub struct MetricsError {
    /// The name of the metric.
    pub metric: String,
    /// What the Prometheus library said.
    pub reason: String,
}

/// What a metric is.
#[derive(Clone, Copy, Debug, PartialEq, Eq, Structural)]
pub enum MetricKind {
    Counter,
    LabelledCounter,
    Histogram,
    Gauge,
}

/// What is handed to the Prometheus library to make one metric.
#[derive(Clone, Debug, PartialEq, Eq)]
pub struct MetricSpec {
    pub name: String,
    pub help: String,
    pub kind: MetricKind,
    /// The label of a labelled counter.
    pub label: Option<String>,
    /// The upper bounds of a histogram's buckets, in seconds.
    pub bounds: Vec<u32>,
}

/// What is handed over for one metric, as a mathematical value.
pub struct MetricSpecView {
    pub name: Seq<char>,
    pub help: Seq<char>,
    pub kind: MetricKind,
    pub label: Option<Seq<char>>,
    pub bounds: Seq<u32>,
}

impl View for MetricSpec {
    type V = MetricSpecView;

    open spec fn view(&self) -> MetricSpecView {
        MetricSpecView {
            name: self.name@,
            help: self.help@,
            kind: self.kind,
            label: match self.label {
                Some(l) => Some(l@),
                None => None,
            },
            bounds: self.bounds@,
        }
    }
}

/// A list of metrics, each as a mathematical value.
pub open spec fn plan_of(specs: Seq<MetricSpec>) -> Seq<MetricSpecView> {
    Seq::new(specs.len(), |i: int| specs[i]@)
}

/// The registry, with the list of what it took. The list is filled here and
/// nowhere else, right after the registry took a metric.
pub struct Exporter {
    registry: prometheus::Registry,
    registered: Vec<MetricSpec>,
}

/// A counter: the count and the handle that exports it, under one name.
pub struct ExportedCounter {
    name: String,
    handle: CounterHandle,
    count: u64,
}

/// A counter with one label: the counts by label value and the handle that
/// exports them, under one name.
pub struct ExportedLabelledCounter {
    name: String,
    handle: LabelledCounterHandle,
    counts: KeyedTable<u64>,
}

/// A histogram: what was observed and the handle that exports it, under one
/// name.
pub struct ExportedHistogram {
    name: String,
    handle: prometheus::Histogram,
    observations: u64,
    seconds_sum: u64,
}

/// A gauge: the value and the handle that exports it, under one name.
pub struct ExportedGauge {
    name: String,
    handle: GaugeHandle,
    value: i64,
}

/// `Registry::new`: a registry with no collectors.
#[verifier::external_body]
fn registry_new() -> prometheus::Registry {
    prometheus::Registry::new()
}

/// `IntCounter::new`, then `Registry::register` of the new counter. The
/// library decides whether it takes the name; nothing is claimed of that.
#[verifier::external_body]
fn registered_counter(registry: &prometheus::Registry, name: &str, help: &str) -> Result<
    CounterHandle,
    prometheus::Error,
> {
    let inner = prometheus::IntCounter::new(name, help)?;
    registry.register(Box::new(inner.clone()))?;
    Ok(CounterHandle { inner })
}

/// `IntCounterVec::new` with one label, then `Registry::register` of it.
/// Nothing is claimed of the outcome.
#[verifier::external_body]
fn registered_labelled_counter(
    registry: &prometheus::Registry,
    name: &str,
    help: &str,
    label: &str,
) -> Result<LabelledCounterHandle, prometheus::Error> {
    let inner = prometheus::IntCounterVec::new(prometheus::Opts::new(name, help), &[label])?;
    registry.register(Box::new(inner.clone()))?;
    Ok(LabelledCounterHandle { inner })
}

/// `Histogram::with_opts` over the given bucket bounds, in seconds, then
/// `Registry::register` of it. Nothing is claimed of the outcome.
#[verifier::external_body]
fn registered_histogram(
    registry: &prometheus::Registry,
    name: &str,
    help: &str,
    bounds: &Vec<u32>,
) -> Result<prometheus::Histogram, prometheus::Error> {
    let buckets = bounds.iter().map(|b| (*b).into()).collect();
    let opts = prometheus::HistogramOpts::new(name, help).buckets(buckets);
    let histogram = prometheus::Histogram::with_opts(opts)?;
    registry.register(Box::new(histogram.clone()))?;
    Ok(histogram)
}

/// `IntGauge::new`, then `Registry::register` of the new gauge. Nothing is
/// claimed of the outcome.
#[verifier::external_body]
fn registered_gauge(registry: &prometheus::Registry, name: &str, help: &str) -> Result<
    GaugeHandle,
    prometheus::Error,
> {
    let inner = prometheus::IntGauge::new(name, help)?;
    registry.register(Box::new(inner.clone()))?;
    Ok(GaugeHandle { inner })
}

/// `IntCounter::inc`: adds one to the exported counter.
#[verifier::external_body]
fn counter_inc(counter: &CounterHandle) {
    counter.inner.inc()
}

/// `IntCounterVec::get_metric_with_label_values`, then `inc` on the counter
/// it yields. Where the library refuses the label nothing is exported.
#[verifier::external_body]
fn labelled_counter_inc(counter: &LabelledCounterHandle, label: &str) {
    if let Ok(c) = counter.inner.get_metric_with_label_values(&[label]) {
        c.inc()
    }
}

/// `Histogram::observe` of a whole number of seconds.
#[verifier::external_body]
fn histogram_observe(histogram: &prometheus::Histogram, seconds: u64) {
    histogram.observe(std::time::Duration::from_secs(seconds).as_secs_f64())
}

/// `IntGauge::set`: sets the exported gauge.
#[verifier::external_body]
fn gauge_set(gauge: &GaugeHandle, value: i64) {
    gauge.inner.set(value)
}

/// `Registry::gather`, then `TextEncoder::encode_to_string`: the registry in
/// the text exposition format. The text depends on everything that was ever
/// exported, so nothing is claimed of it.
#[verifier::external_body]
fn registry_text(registry: &prometheus::Registry) -> Result<String, prometheus::Error> {
    prometheus::TextEncoder::new().encode_to_string(&registry.gather())
}

/// The message of a Prometheus error, as its `Display` writes it.
#[verifier::external_body]
fn error_text(error: &prometheus::Error) -> String {
    format!("{}", error)
}

/// Turns the library's answer about the metric `metric` into the
/// gatekeeper's: what the library made is handed on, and what it refused is
/// reported under the metric's name.
pub fn admitted<T>(metric: &str, outcome: Result<T, prometheus::Error>) -> (r: Result<
    T,
    MetricsError,
>)
    ensures
        match outcome {
            Ok(made) => r == Ok::<T, MetricsError>(made),
            Err(_) => r is Err && r->Err_0.metric@ == metric@,
        },
{
    match outcome {
        Ok(made) => Ok(made),
        Err(e) => Err(MetricsError { metric: metric.to_owned(), reason: error_text(&e) }),
    }
}

impl Exporter {
    /// What the registry took, in the order of registration.
    pub closed spec fn ledger(&self) -> Seq<MetricSpecView> {
        plan_of(self.registered@)
    }

    /// A registry that has taken nothing yet.
    pub fn new() -> (e: Exporter)
        ensures
            e.ledger() == Seq::<MetricSpecView>::empty(),
    {
        let e = Exporter { registry: registry_new(), registered: Vec::new() };
        assert(e.ledger() =~= Seq::<MetricSpecView>::empty());
        e
    }

    /// What the registry took, in the order of registration.
    pub fn registered(&self) -> (specs: &Vec<MetricSpec>)
        ensures
            plan_of(specs@) == self.ledger(),
    {
        &self.registered
    }

    /// The registry in the text exposition format. What the text holds is
    /// the Prometheus library's to say; a failure to write it is reported
    /// under the name `exposition`.
    pub fn text(&self) -> (r: Result<String, MetricsError>)
        ensures
            r matches Err(e) ==> e.metric@ == "exposition"@,
    {
        admitted("exposition", registry_text(&self.registry))
    }

    fn record(&mut self, spec: MetricSpec)
        ensures
            final(self).ledger() == old(self).ledger().push(spec@),
    {
        let ghost before = self.ledger();
        let ghost entry = spec@;
        self.registered.push(spec);
        assert(self.ledger() =~= before.push(entry));
    }

    /// Makes the counter that `spec` describes and registers it. If the
    /// registry takes it, it is entered in the list.
    pub fn counter(&mut self, spec: MetricSpec) -> (r: Result<ExportedCounter, MetricsError>)
        ensures
            match r {
                Ok(c) => final(self).ledger() == old(self).ledger().push(spec@) && c.name()
                    == spec@.name && c.count() == 0,
                Err(e) => final(self).ledger() == old(self).ledger() && e.metric@ == spec@.name,
            },
    {
        let made = admitted(
            spec.name.as_str(),
            registered_counter(&self.registry, spec.name.as_str(), spec.help.as_str()),
        );
        match made {
            Ok(handle) => {
                let name = spec.name.clone();
                self.record(spec);
                Ok(ExportedCounter { name, handle, count: 0 })
            },
            Err(e) => Err(e),
        }
    }

    /// Makes the labelled counter that `spec` describes and registers it. If
    /// the registry takes it, it is entered in the list. A plan entry without
    /// a label is refused here.
    pub fn labelled_counter(&mut self, spec: MetricSpec) -> (r: Result<
        ExportedLabelledCounter,
        MetricsError,
    >)
        ensures
            match r {
                Ok(c) => final(self).ledger() == old(self).ledger().push(spec@) && c.name()
                    == spec@.name && c.wf() && c.counts() == Map::<Seq<char>, u64>::empty(),
                Err(e) => final(self).ledger() == old(self).ledger() && e.metric@ == spec@.name,
            },
            spec@.label is None ==> r is Err,
    {
        let made = match &spec.label {
            Some(label) => admitted(
                spec.name.as_str(),
                registered_labelled_counter(
                    &self.registry,
                    spec.name.as_str(),
                    spec.help.as_str(),
                    label.as_str(),
                ),
            ),
            None => Err(
                MetricsError { metric: spec.name.clone(), reason: "the metric has no label".to_owned() },
            ),
        };
        match made {
            Ok(handle) => {
                let name = spec.name.clone();
                self.record(spec);
                Ok(ExportedLabelledCounter { name, handle, counts: KeyedTable::new() })
            },
            Err(e) => Err(e),
        }
    }

    /// Makes the histogram that `spec` describes, over the bounds of `spec`,
    /// and registers it. If the registry takes it, it is entered in the list.
    pub fn histogram(&mut self, spec: MetricSpec) -> (r: Result<ExportedHistogram, MetricsError>)
        ensures
            match r {
                Ok(h) => final(self).ledger() == old(self).ledger().push(spec@) && h.name()
                    == spec@.name && h.observations() == 0 && h.seconds_sum() == 0,
                Err(e) => final(self).ledger() == old(self).ledger() && e.metric@ == spec@.name,
            },
    {
        let made = admitted(
            spec.name.as_str(),
            registered_histogram(
                &self.registry,
                spec.name.as_str(),
                spec.help.as_str(),
                &spec.bounds,
            ),
        );
        match made {
            Ok(handle) => {
                let name = spec.name.clone();
                self.record(spec);
                Ok(ExportedHistogram { name, handle, observations: 0, seconds_sum: 0 })
            },
            Err(e) => Err(e),
        }
    }

    /// Makes the gauge that `spec` describes and registers it. If the
    /// registry takes it, it is entered in the list.
    pub fn gauge(&mut self, spec: MetricSpec) -> (r: Result<ExportedGauge, MetricsError>)
        ensures
            match r {
                Ok(g) => final(self).ledger() == old(self).ledger().push(spec@) && g.name()
                    == spec@.name && g.value() == 0,
                Err(e) => final(self).ledger() == old(self).ledger() && e.metric@ == spec@.name,
            },
    {
        let made = admitted(
            spec.name.as_str(),
            registered_gauge(&self.registry, spec.name.as_str(), spec.help.as_str()),
        );
        match made {
            Ok(handle) => {
                let name = spec.name.clone();
                self.record(spec);
                Ok(ExportedGauge { name, handle, value: 0 })
            },
            Err(e) => Err(e),
        }
    }
}

impl ExportedCounter {
    /// The name under which the count is exported.
    pub closed spec fn name(&self) -> Seq<char> {
        self.name@
    }

    /// What was counted.
    pub closed spec fn count(&self) -> u64 {
        self.count
    }

    /// What was counted.
    pub fn total(&self) -> (n: u64)
        ensures
            n == self.count(),
    {
        self.count
    }

    /// Counts one and exports it.
    pub fn inc(&mut self)
        requires
            old(self).count() < u64::MAX,
        ensures
            final(self).name() == old(self).name(),
            final(self).count() == old(self).count() + 1,
    {
        self.count = self.count + 1;
        counter_inc(&self.handle);
    }
}

impl ExportedLabelledCounter {
    /// The name under which the counts are exported.
    pub closed spec fn name(&self) -> Seq<char> {
        self.name@
    }

    /// What was counted, by label value.
    pub closed spec fn counts(&self) -> Map<Seq<char>, u64> {
        self.counts@
    }

    /// The table of counts is well formed.
    pub closed spec fn wf(&self) -> bool {
        self.counts.wf()
    }

    /// What was counted under the label value `value`.
    pub fn total(&self, value: &str) -> (n: u64)
        requires
            self.wf(),
        ensures
            n == (if self.counts().contains_key(value@) {
                self.counts()[value@]
            } else {
                0
            }),
    {
        match self.counts.get(value) {
            Some(n) => *n,
            None => 0,
        }
    }

    /// Counts one under the label value `value` and exports it.
    pub fn inc(&mut self, value: &str)
        requires
            old(self).wf(),
            !old(self).counts().contains_key(value@) || old(self).counts()[value@] < u64::MAX,
        ensures
            final(self).name() == old(self).name(),
            final(self).wf(),
            final(self).counts() == old(self).counts().insert(
                value@,
                if old(self).counts().contains_key(value@) {
                    (old(self).counts()[value@] + 1) as u64
                } else {
                    1u64
                },
            ),
    {
        let so_far = match self.counts.get(value) {
            Some(n) => *n,
            None => 0,
        };
        self.counts.insert(value, so_far + 1);
        labelled_counter_inc(&self.handle, value);
    }
}

impl ExportedHistogram {
    /// The name under which the observations are exported.
    pub closed spec fn name(&self) -> Seq<char> {
        self.name@
    }

    /// How many observations were recorded.
    pub closed spec fn observations(&self) -> u64 {
        self.observations
    }

    /// The sum of what was observed, in seconds.
    pub closed spec fn seconds_sum(&self) -> u64 {
        self.seconds_sum
    }

    /// How many observations were recorded.
    pub fn observed(&self) -> (n: u64)
        ensures
            n == self.observations(),
    {
        self.observations
    }

    /// The sum of what was observed, in seconds.
    pub fn observed_seconds(&self) -> (n: u64)
        ensures
            n == self.seconds_sum(),
    {
        self.seconds_sum
    }

    /// Records one observation of `seconds` and exports it.
    pub fn observe(&mut self, seconds: u64)
        ensures
            final(self).name() == old(self).name(),
            final(self).observations() == one_more(old(self).observations()),
            final(self).seconds_sum() == sum_of(old(self).seconds_sum(), seconds),
    {
        self.observations = count_up(self.observations);
        self.seconds_sum = add_up(self.seconds_sum, seconds);
        histogram_observe(&self.handle, seconds);
    }
}

impl ExportedGauge {
    /// The name under which the value is exported.
    pub closed spec fn name(&self) -> Seq<char> {
        self.name@
    }

    /// The value that was set last.
    pub closed spec fn value(&self) -> i64 {
        self.value
    }

    /// Sets the value and exports it.
    pub fn set(&mut self, value: i64)
        ensures
            final(self).name() == old(self).name(),
            final(self).value() == value,
    {
        self.value = value;
        gauge_set(&self.handle, value);
    }
}

} // verus!
