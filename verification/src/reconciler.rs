//! The reconciler: one pass per workload snapshot, from the snapshot to the
//! release of the workload or to a retry.
//!
//! The caller does whatever touches the outside: it stats the cache path,
//! runs the fetch job, waits for a leader, patches the workload. After each
//! of these it reports what happened, and the reconciler says what to do
//! next. All the state that outlives a pass is in the `Gatekeeper`.

use vstd::prelude::*;
use crate::backoff::{backoff_base_ms, backoff_delay, jittered_ms};
use crate::cache::{CacheIndex, CacheView, Residency};
use crate::config::{Config, ConfigView};
use crate::counting::{elapsed, elapsed_secs, one_more, sum_of};
use crate::fetch_job::{build_fetch_job, fetch_job_of, FetchJob, FetchJobView, Fetcher, FetcherView};
use crate::keyed::KeyedTable;
use crate::metrics::{MetricsState, MetricsView};
use crate::orchestrator::EnsureResult;
use crate::single_flight::{acquired, left, FetchOutcome, Flight, SingleFlight};
use crate::workload::{request_of, Classification, Request, RequestView, Workload, WorkloadView};

verus! {

/// Where a pass stands.
#[derive(Clone, Copy, Debug, PartialEq, Eq, Structural)]
pub enum Phase {
    /// Nothing is owed to the workload: it is not gated on this system, or it
    /// was released before. The pass is over.
    NotMine,
    /// The dataset is known; the cache has to be asked.
    EnsureFetch,
    /// A fetch is in flight; the pass waits for it.
    AwaitReady,
    /// The dataset is on the node; the workload's gates are being removed.
    Release,
    /// Something failed; the workload is queued again.
    BackoffRetry,
    /// The workload was released; the pass is over.
    Done,
    /// The patch met a version conflict; the next event takes over.
    Dropped,
    /// The workload was deleted; the pass is over.
    Abandoned,
}

/// The cluster's answer to the patch that removes the gates.
#[derive(Clone, Copy, Debug, PartialEq, Eq, Structural)]
pub enum PatchReply {
    Applied,
    /// The workload changed under the patch.
    Conflict,
    /// The request failed for a passing reason.
    Unavailable,
}

/// What the caller reports to a pass.
#[derive(Clone, Copy, Debug, PartialEq, Eq)]
pub enum PassEvent {
    /// The cache path was looked at: the size of the file, or `None`.
    Probed { on_disk: Option<u64> },
    /// The fetch this pass leads or follows is over, and the cache path was
    /// looked at again after it.
    Resolved { outcome: FetchOutcome, on_disk: Option<u64> },
    /// The cluster answered the patch.
    Patched(PatchReply),
    /// The workload was deleted.
    Deleted,
}

/// The only change the reconciler ever asks for on a workload: its scheduling
/// gates are replaced by this list, which is empty.
#[derive(Clone, Debug, PartialEq, Eq)]
pub struct GatePatch {
    pub scheduling_gates: Vec<String>,
}

/// What the caller does next.
#[derive(Clone, Debug, PartialEq, Eq)]
pub enum Action {
    Nothing,
    /// Look at the cache path and report `Probed`.
    Probe { path: String },
    /// Lead the fetch: run this job to its end, look at the cache path, and
    /// report `Resolved`.
    Fetch { job: FetchJob, timeout_secs: u64 },
    /// Follow the fetch of this cache key: wait until its leader wakes the
    /// followers, look at the cache path, and report `Resolved` with the
    /// leader's outcome.
    Await { cache_key: String },
    /// Patch the workload and report `Patched`.
    Patch { namespace: String, name: String, patch: GatePatch },
    /// Queue the workload again after the delay.
    Requeue { after_ms: u64 },
    /// Stop polling the job of this name; the cluster collects the job itself.
    CancelFetch { job_name: String },
}

/// The followers of a fetch that is over, and what to tell them.
#[derive(Clone, Debug, PartialEq, Eq)]
pub struct Wake {
    pub cache_key: String,
    pub outcome: FetchOutcome,
    pub waiters: u64,
}

/// The reconciler's answer to one report.
#[derive(Clone, Debug, PartialEq, Eq)]
pub struct Step {
    pub action: Action,
    /// Followers to wake before anything else, if a fetch just ended.
    pub wake: Option<Wake>,
}

/// An action as a mathematical value.
pub enum ActionView {
    Nothing,
    Probe { path: Seq<char> },
    Fetch { job: FetchJobView, timeout_secs: u64 },
    Await { cache_key: Seq<char> },
    Patch { namespace: Seq<char>, name: Seq<char>, scheduling_gates: Seq<Seq<char>> },
    Requeue { after_ms: u64 },
    CancelFetch { job_name: Seq<char> },
}

/// A wake-up call as a mathematical value.
pub struct WakeView {
    pub cache_key: Seq<char>,
    pub outcome: FetchOutcome,
    pub waiters: u64,
}

/// An answer as a mathematical value.
pub struct StepView {
    pub action: ActionView,
    pub wake: Option<WakeView>,
}

impl View for Action {
    type V = ActionView;

    open spec fn view(&self) -> ActionView {
        match self {
            Action::Nothing => ActionView::Nothing,
            Action::Probe { path } => ActionView::Probe { path: path@ },
            Action::Fetch { job, timeout_secs } => ActionView::Fetch {
                job: job@,
                timeout_secs: *timeout_secs,
            },
            Action::Await { cache_key } => ActionView::Await { cache_key: cache_key@ },
            Action::Patch { namespace, name, patch } => ActionView::Patch {
                namespace: namespace@,
                name: name@,
                scheduling_gates: patch.scheduling_gates.deep_view(),
            },
            Action::Requeue { after_ms } => ActionView::Requeue { after_ms: *after_ms },
            Action::CancelFetch { job_name } => ActionView::CancelFetch { job_name: job_name@ },
        }
    }
}

impl View for Wake {
    type V = WakeView;

    open spec fn view(&self) -> WakeView {
        WakeView { cache_key: self.cache_key@, outcome: self.outcome, waiters: self.waiters }
    }
}

/// The wake-up call in an optional one, if there is one.
pub open spec fn wake_of(wake: Option<Wake>) -> Option<WakeView> {
    match wake {
        Some(w) => Some(w@),
        None => None,
    }
}

impl View for Step {
    type V = StepView;

    open spec fn view(&self) -> StepView {
        StepView { action: self.action@, wake: wake_of(self.wake) }
    }
}

/// One pass over one workload snapshot.
#[derive(Clone, Debug, PartialEq, Eq)]
pub struct Pass {
    workload: Workload,
    phase: Phase,
    request: Option<Request>,
    queued_at: u64,
    attempt: u32,
    leader: bool,
    flight_started_at: u64,
}

/// A pass as a mathematical value.
pub struct PassView {
    pub workload: WorkloadView,
    pub phase: Phase,
    /// What the workload asks for; `None` if it is not gated on this system.
    pub request: Option<RequestView>,
    /// When the pass began to wait for its dataset.
    pub queued_at: u64,
    /// How often the workload was queued again before this pass.
    pub attempt: u32,
    /// Whether this pass leads the fetch it waits for.
    pub leader: bool,
    /// When the fetch it waits for started.
    pub flight_started_at: u64,
}

impl View for Pass {
    type V = PassView;

    closed spec fn view(&self) -> PassView {
        PassView {
            workload: self.workload@,
            phase: self.phase,
            request: match self.request {
                Some(r) => Some(r@),
                None => None,
            },
            queued_at: self.queued_at,
            attempt: self.attempt,
            leader: self.leader,
            flight_started_at: self.flight_started_at,
        }
    }
}

impl PassView {
    /// A pass past classification knows its request.
    pub open spec fn wf(self) -> bool {
        (self.phase == Phase::EnsureFetch || self.phase == Phase::AwaitReady || self.phase
            == Phase::Release) ==> self.request is Some
    }

    /// The same pass in another phase.
    pub open spec fn at(self, phase: Phase) -> PassView {
        PassView { phase, ..self }
    }
}

/// The ledger after one more cache hit.
pub open spec fn with_hit(m: MetricsView) -> MetricsView {
    MetricsView { cache_hit_total: (m.cache_hit_total + 1) as u64, ..m }
}

/// The ledger after one more cache miss.
pub open spec fn with_miss(m: MetricsView) -> MetricsView {
    MetricsView { cache_miss_total: (m.cache_miss_total + 1) as u64, ..m }
}

/// The ledger after a fetch of `did` succeeded that took `secs` seconds: one
/// more success for the dataset, as long as the count fits, and one more
/// warm-up observed.
pub open spec fn with_success(m: MetricsView, did: Seq<char>, secs: u64) -> MetricsView {
    MetricsView {
        prewarm_success_total: if m.successes(did) < u64::MAX {
            m.prewarm_success_total.insert(did, (m.successes(did) + 1) as u64)
        } else {
            m.prewarm_success_total
        },
        warmup_observations: one_more(m.warmup_observations),
        warmup_seconds_sum: sum_of(m.warmup_seconds_sum, secs),
        ..m
    }
}

/// The ledger after a workload was released that had waited `secs` seconds:
/// one more queue time observed.
pub open spec fn with_release(m: MetricsView, secs: u64) -> MetricsView {
    MetricsView {
        queue_observations: one_more(m.queue_observations),
        queue_seconds_sum: sum_of(m.queue_seconds_sum, secs),
        ..m
    }
}

/// The gatekeeper as a mathematical value.
pub struct GatekeeperView {
    pub config: ConfigView,
    pub fetcher: FetcherView,
    pub cache: CacheView,
    pub flights: Map<Seq<char>, Flight>,
    pub metrics: MetricsView,
    /// Passes that reached `EnsureFetch` and asked the cache.
    pub ensure_fetch_passes: u64,
    /// The workloads that were released, by identity token, with the time of
    /// their release. A workload stays here until it is deleted.
    pub released: Map<Seq<char>, u64>,
}

/// The answer that asks for nothing.
pub open spec fn idle() -> StepView {
    StepView { action: ActionView::Nothing, wake: None }
}

/// The answer that queues the workload again after its backoff.
pub open spec fn requeue(attempt: u32, sample: u64, wake: Option<WakeView>) -> StepView {
    StepView {
        action: ActionView::Requeue {
            after_ms: jittered_ms(backoff_base_ms(attempt as nat), sample) as u64,
        },
        wake,
    }
}

/// The answer that releases the workload of `pass`: its scheduling gates are
/// replaced by the empty list.
pub open spec fn release(pass: PassView, wake: Option<WakeView>) -> StepView {
    StepView {
        action: ActionView::Patch {
            namespace: pass.workload.namespace,
            name: pass.workload.name,
            scheduling_gates: Seq::empty(),
        },
        wake,
    }
}

impl GatekeeperView {
    /// The ledger agrees with the count of passes: every pass that asked the
    /// cache was counted as a hit or as a miss, and nothing else was.
    pub open spec fn wf(self) -> bool {
        self.metrics.lookups() == self.ensure_fetch_passes
    }

    /// Whether something is owed to the workload `w`: it is gated on this
    /// system and was not released before. A snapshot that still shows the
    /// gates of a workload released since is out of date, and nothing is
    /// done for it.
    pub open spec fn owes(self, w: WorkloadView) -> bool {
        w.gated_on(self.config) && !self.released.contains_key(w.uid)
    }

    /// The gatekeeper after it forgot that the workload `uid` was released.
    pub open spec fn forgetting(self, uid: Seq<char>) -> GatekeeperView {
        GatekeeperView { released: self.released.remove(uid), ..self }
    }

    /// The pass that a snapshot starts, and the first thing to do for it.
    pub open spec fn observed(self, w: WorkloadView, attempt: u32, now: u64) -> (PassView, StepView) {
        if self.owes(w) {
            (
                PassView {
                    workload: w,
                    phase: Phase::EnsureFetch,
                    request: Some(request_of(w, self.config)),
                    queued_at: now,
                    attempt,
                    leader: false,
                    flight_started_at: 0,
                },
                StepView {
                    action: ActionView::Probe { path: request_of(w, self.config).path },
                    wake: None,
                },
            )
        } else {
            (
                PassView {
                    workload: w,
                    phase: Phase::NotMine,
                    request: None,
                    queued_at: now,
                    attempt,
                    leader: false,
                    flight_started_at: 0,
                },
                idle(),
            )
        }
    }

    /// What follows the look at the cache path in `EnsureFetch`.
    ///
    /// A file is a hit: the workload is released. No file is a miss: the pass
    /// takes a ticket for the cache key and leads or follows the fetch, unless
    /// the last fetch failed a moment ago and is still cooling down.
    pub open spec fn probed(self, pass: PassView, on_disk: Option<u64>, now: u64, sample: u64) -> (
        GatekeeperView,
        PassView,
        StepView,
    ) {
        let request = pass.request->0;
        let key = request.cache_key;
        let cache = self.cache.observed(key, on_disk, now);
        if self.ensure_fetch_passes == u64::MAX {
            (self, pass.at(Phase::BackoffRetry), requeue(pass.attempt, sample, None))
        } else if on_disk is Some {
            (
                GatekeeperView {
                    cache,
                    metrics: with_hit(self.metrics),
                    ensure_fetch_passes: (self.ensure_fetch_passes + 1) as u64,
                    ..self
                },
                pass.at(Phase::Release),
                release(pass, None),
            )
        } else if cache.residency(key, now) == Residency::Failed {
            (
                GatekeeperView {
                    cache,
                    metrics: with_miss(self.metrics),
                    ensure_fetch_passes: (self.ensure_fetch_passes + 1) as u64,
                    ..self
                },
                pass.at(Phase::BackoffRetry),
                requeue(pass.attempt, sample, None),
            )
        } else {
            let leader = !self.flights.contains_key(key);
            let flights = acquired(self.flights, key, now);
            (
                GatekeeperView {
                    cache: if leader {
                        cache.begun(key, now)
                    } else {
                        cache
                    },
                    flights,
                    metrics: with_miss(self.metrics),
                    ensure_fetch_passes: (self.ensure_fetch_passes + 1) as u64,
                    ..self
                },
                PassView {
                    phase: Phase::AwaitReady,
                    leader,
                    flight_started_at: flights[key].started_at,
                    ..pass
                },
                StepView {
                    action: if leader {
                        ActionView::Fetch {
                            job: fetch_job_of(pass.workload, request, self.config, self.fetcher),
                            timeout_secs: self.config.fetch_timeout_secs,
                        }
                    } else {
                        ActionView::Await { cache_key: key }
                    },
                    wake: None,
                },
            )
        }
    }

    /// The followers to wake when the leader of `key` is done.
    pub open spec fn wake_for(self, key: Seq<char>, outcome: FetchOutcome) -> Option<WakeView> {
        if self.flights.contains_key(key) {
            Some(WakeView { cache_key: key, outcome, waiters: self.flights[key].waiters })
        } else {
            None
        }
    }

    /// What follows the end of a fetch in `AwaitReady`.
    ///
    /// The workload is released only if the fetch succeeded and the file is
    /// on disk. The leader publishes the result, destroys its ticket and
    /// wakes the followers; a follower only follows the disk.
    pub open spec fn resolved(
        self,
        pass: PassView,
        outcome: FetchOutcome,
        on_disk: Option<u64>,
        now: u64,
        sample: u64,
    ) -> (GatekeeperView, PassView, StepView) {
        let request = pass.request->0;
        let key = request.cache_key;
        let present = outcome == FetchOutcome::Present && on_disk is Some;
        let told = if present {
            FetchOutcome::Present
        } else {
            FetchOutcome::Failed
        };
        let wake = if pass.leader {
            self.wake_for(key, told)
        } else {
            None
        };
        let cache = if pass.leader {
            if outcome == FetchOutcome::Present {
                self.cache.committed(key, on_disk, now)
            } else {
                self.cache.failed(key, now)
            }
        } else if present {
            self.cache.observed(key, on_disk, now)
        } else {
            self.cache
        };
        let flights = if pass.leader {
            self.flights.remove(key)
        } else {
            self.flights
        };
        let metrics = if pass.leader && present {
            with_success(self.metrics, request.did, elapsed_secs(pass.flight_started_at, now))
        } else {
            self.metrics
        };
        let after = GatekeeperView { cache, flights, metrics, ..self };
        if present {
            (after, pass.at(Phase::Release), release(pass, wake))
        } else {
            (after, pass.at(Phase::BackoffRetry), requeue(pass.attempt, sample, wake))
        }
    }

    /// What follows the cluster's answer to the patch in `Release`.
    pub open spec fn patched(self, pass: PassView, reply: PatchReply, now: u64, sample: u64) -> (
        GatekeeperView,
        PassView,
        StepView,
    ) {
        match reply {
            PatchReply::Applied => (
                GatekeeperView {
                    metrics: with_release(self.metrics, elapsed_secs(pass.queued_at, now)),
                    released: self.released.insert(pass.workload.uid, now),
                    ..self
                },
                pass.at(Phase::Done),
                idle(),
            ),
            PatchReply::Conflict => (self, pass.at(Phase::Dropped), idle()),
            PatchReply::Unavailable => (
                self,
                pass.at(Phase::BackoffRetry),
                requeue(pass.attempt, sample, None),
            ),
        }
    }

    /// What follows the deletion of the workload, in any phase.
    ///
    /// A pass that waits for a fetch gives its ticket up: the leader's is
    /// destroyed and its followers are told that the fetch failed; a follower
    /// just stops waiting. That the workload was released is forgotten.
    pub open spec fn deleted(self, pass: PassView) -> (GatekeeperView, PassView, StepView) {
        let given_up = self.given_up(pass);
        (given_up.0.forgetting(pass.workload.uid), given_up.1, given_up.2)
    }

    /// What a pass gives up when its workload is deleted: the ticket it holds
    /// or waits on.
    pub open spec fn given_up(self, pass: PassView) -> (GatekeeperView, PassView, StepView) {
        if pass.phase == Phase::AwaitReady && pass.request is Some {
            let key = pass.request->0.cache_key;
            if pass.leader {
                (
                    GatekeeperView {
                        cache: self.cache.abandoned(key),
                        flights: self.flights.remove(key),
                        ..self
                    },
                    pass.at(Phase::Abandoned),
                    StepView {
                        action: ActionView::CancelFetch { job_name: pass.request->0.job_name },
                        wake: self.wake_for(key, FetchOutcome::Failed),
                    },
                )
            } else {
                (
                    GatekeeperView { flights: left(self.flights, key), ..self },
                    pass.at(Phase::Abandoned),
                    idle(),
                )
            }
        } else {
            (self, pass.at(Phase::Abandoned), idle())
        }
    }

    /// The gatekeeper, the pass and the answer that follow `event` at `now`.
    /// `sample` is the random number that picks the jitter of any delay. A
    /// report that does not fit the phase of the pass changes nothing.
    pub open spec fn stepped(self, pass: PassView, event: PassEvent, now: u64, sample: u64) -> (
        GatekeeperView,
        PassView,
        StepView,
    ) {
        match event {
            PassEvent::Deleted => self.deleted(pass),
            PassEvent::Probed { on_disk } => if pass.phase == Phase::EnsureFetch
                && pass.request is Some {
                self.probed(pass, on_disk, now, sample)
            } else {
                (self, pass, idle())
            },
            PassEvent::Resolved { outcome, on_disk } => if pass.phase == Phase::AwaitReady
                && pass.request is Some {
                self.resolved(pass, outcome, on_disk, now, sample)
            } else {
                (self, pass, idle())
            },
            PassEvent::Patched(reply) => if pass.phase == Phase::Release {
                self.patched(pass, reply, now, sample)
            } else {
                (self, pass, idle())
            },
        }
    }
}

/// What a leader reports when its `ensure` is over: the outcome and what is
/// on disk, or, if the `ensure` was cancelled, that the workload is gone.
pub open spec fn leader_report_of(result: EnsureResult, on_disk: Option<u64>) -> PassEvent {
    match result {
        EnsureResult::Present => PassEvent::Resolved { outcome: FetchOutcome::Present, on_disk },
        EnsureResult::Failed => PassEvent::Resolved { outcome: FetchOutcome::Failed, on_disk },
        EnsureResult::Cancelled => PassEvent::Deleted,
    }
}

/// What a follower reports when its wait is over: what the leader told it
/// and what is on disk. A leader that went away without a word has failed.
pub open spec fn follower_report_of(told: Option<FetchOutcome>, on_disk: Option<u64>) -> PassEvent {
    match told {
        Some(outcome) => PassEvent::Resolved { outcome, on_disk },
        None => PassEvent::Resolved { outcome: FetchOutcome::Failed, on_disk },
    }
}

/// Makes the report of a leader whose `ensure` ended with `result`, with
/// what a look at the cache path showed afterwards.
pub fn leader_report(result: EnsureResult, on_disk: Option<u64>) -> (event: PassEvent)
    ensures
        event == leader_report_of(result, on_disk),
{
    match result {
        EnsureResult::Present => PassEvent::Resolved { outcome: FetchOutcome::Present, on_disk },
        EnsureResult::Failed => PassEvent::Resolved { outcome: FetchOutcome::Failed, on_disk },
        EnsureResult::Cancelled => PassEvent::Deleted,
    }
}

/// Makes the report of a follower that was told `told` by its leader, or
/// nothing if the leader went away, with what a look at the cache path
/// showed afterwards.
pub fn follower_report(told: Option<FetchOutcome>, on_disk: Option<u64>) -> (event: PassEvent)
    ensures
        event == follower_report_of(told, on_disk),
{
    match told {
        Some(outcome) => PassEvent::Resolved { outcome, on_disk },
        None => PassEvent::Resolved { outcome: FetchOutcome::Failed, on_disk },
    }
}

/// The state that outlives a pass: the settings, the cache index, the
/// single-flight registry and the metrics.
pub struct Gatekeeper {
    config: Config,
    fetcher: Fetcher,
    cache: CacheIndex,
    flights: SingleFlight,
    metrics: MetricsState,
    passes: u64,
    released: KeyedTable<u64>,
}

impl View for Gatekeeper {
    type V = GatekeeperView;

    closed spec fn view(&self) -> GatekeeperView {
        GatekeeperView {
            config: self.config@,
            fetcher: self.fetcher@,
            cache: self.cache@,
            flights: self.flights@,
            metrics: self.metrics@,
            ensure_fetch_passes: self.passes,
            released: self.released@,
        }
    }
}

impl Pass {
    /// Where the pass stands.
    pub fn phase(&self) -> (p: Phase)
        ensures
            p == self@.phase,
    {
        self.phase
    }

    /// What the workload asks for, if it is gated on this system.
    pub fn request(&self) -> (r: Option<&Request>)
        ensures
            match r {
                Some(q) => self@.request == Some(q@),
                None => self@.request is None,
            },
    {
        match &self.request {
            Some(q) => Some(q),
            None => None,
        }
    }

    /// The snapshot the pass works on.
    pub fn workload(&self) -> (w: &Workload)
        ensures
            w@ == self@.workload,
    {
        &self.workload
    }

    /// Ends the pass and hands its snapshot back, to be queued again.
    pub fn into_workload(self) -> (w: Workload)
        ensures
            w@ == self@.workload,
    {
        self.workload
    }

    /// Whether the pass leads the fetch it waits for.
    pub fn is_leader(&self) -> (r: bool)
        ensures
            r == self@.leader,
    {
        self.leader
    }
}

impl Gatekeeper {
    /// The tables are well formed and the ledger agrees with the count of
    /// passes.
    pub closed spec fn wf(&self) -> bool {
        &&& self.cache.wf()
        &&& self.flights.wf()
        &&& self.metrics.wf()
        &&& self.released.wf()
        &&& self@.wf()
    }

    /// A gatekeeper that has seen nothing yet. The cache index is laid over
    /// the configured cache root, with the configured cooldown for failed
    /// fetches. `metrics` is a ledger on which no lookup was counted; with
    /// any other the result is `None`.
    pub fn new(config: Config, fetcher: Fetcher, metrics: MetricsState) -> (r: Option<Gatekeeper>)
        requires
            metrics.wf(),
        ensures
            r is Some <==> metrics@.lookups() == 0,
            r matches Some(g) ==> g.wf() && g@.wf() && g@ == (GatekeeperView {
                config: config@,
                fetcher: fetcher@,
                cache: CacheView {
                    root: config@.cache_root,
                    cooldown_secs: config@.failure_cooldown_secs,
                    entries: Map::<Seq<char>, crate::cache::CacheEntry>::empty(),
                },
                flights: Map::<Seq<char>, Flight>::empty(),
                metrics: metrics@,
                ensure_fetch_passes: 0,
                released: Map::<Seq<char>, u64>::empty(),
            }),
    {
        if metrics.cache_hit_total() != 0 || metrics.cache_miss_total() != 0 {
            return None;
        }
        let cache = CacheIndex::new(config.cache_root.as_str(), config.failure_cooldown_secs);
        Some(
            Gatekeeper {
                config,
                fetcher,
                cache,
                flights: SingleFlight::new(),
                metrics,
                passes: 0,
                released: KeyedTable::new(),
            },
        )
    }

    /// The settings.
    pub fn config(&self) -> (c: &Config)
        ensures
            c@ == self@.config,
    {
        &self.config
    }

    /// The metrics.
    pub fn metrics(&self) -> (m: &MetricsState)
        ensures
            m@ == self@.metrics,
            self.wf() ==> m.wf(),
    {
        &self.metrics
    }

    /// The cache index.
    pub fn cache(&self) -> (c: &CacheIndex)
        ensures
            c@ == self@.cache,
            self.wf() ==> c.wf(),
    {
        &self.cache
    }

    /// The single-flight registry.
    pub fn flights(&self) -> (f: &SingleFlight)
        ensures
            f@ == self@.flights,
            self.wf() ==> f.wf(),
    {
        &self.flights
    }

    /// Passes that reached `EnsureFetch` and asked the cache.
    pub fn ensure_fetch_passes(&self) -> (n: u64)
        ensures
            n == self@.ensure_fetch_passes,
    {
        self.passes
    }

    /// Whether the workload with the identity token `uid` was released and
    /// not deleted since.
    pub fn was_released(&self, uid: &str) -> (r: bool)
        requires
            self.wf(),
        ensures
            r == self@.released.contains_key(uid@),
    {
        self.released.contains_key(uid)
    }

    /// Forgets that the workload `w` was released. This is for a workload
    /// that was deleted while no pass was running for it.
    pub fn forget(&mut self, w: &Workload)
        requires
            old(self).wf(),
        ensures
            final(self).wf(),
            final(self)@.wf(),
            final(self)@ == old(self)@.forgetting(w@.uid),
    {
        let _when = self.released.remove(w.uid.as_str());
    }

    /// Starts a pass over the snapshot `w`: classifies it and, if something
    /// is owed to it, resolves its dataset and asks for a look at the cache
    /// path. Nothing is owed to a workload that is not gated on this system,
    /// nor to one that was released before: its snapshot is out of date.
    /// `attempt` tells how often the workload was queued again before.
    /// Nothing is written anywhere.
    pub fn observe(&self, w: Workload, attempt: u32, now: u64) -> (r: (Pass, Step))
        requires
            self.wf(),
        ensures
            (r.0@, r.1@) == self@.observed(w@, attempt, now),
            r.0@.wf(),
    {
        let verdict = if self.released.contains_key(w.uid.as_str()) {
            Classification::NotMine
        } else {
            w.classify(&self.config)
        };
        match verdict {
            Classification::NotMine => (
                Pass {
                    workload: w,
                    phase: Phase::NotMine,
                    request: None,
                    queued_at: now,
                    attempt,
                    leader: false,
                    flight_started_at: 0,
                },
                Step { action: Action::Nothing, wake: None },
            ),
            Classification::Gated(request) => {
                let path = request.path.clone();
                (
                    Pass {
                        workload: w,
                        phase: Phase::EnsureFetch,
                        request: Some(request),
                        queued_at: now,
                        attempt,
                        leader: false,
                        flight_started_at: 0,
                    },
                    Step { action: Action::Probe { path }, wake: None },
                )
            },
        }
    }

    fn requeue_step(attempt: u32, sample: u64, wake: Option<Wake>) -> (s: Step)
        ensures
            s@ == requeue(attempt, sample, wake_of(wake)),
    {
        Step { action: Action::Requeue { after_ms: backoff_delay(attempt, sample) }, wake }
    }

    fn release_step(pass: &Pass, wake: Option<Wake>) -> (s: Step)
        ensures
            s@ == release(pass@, wake_of(wake)),
    {
        let patch = GatePatch { scheduling_gates: Vec::new() };
        assert(patch.scheduling_gates.deep_view() =~= Seq::<Seq<char>>::empty());
        Step {
            action: Action::Patch {
                namespace: pass.workload.namespace.clone(),
                name: pass.workload.name.clone(),
                patch,
            },
            wake,
        }
    }

    fn wake_step(&self, key: &str, outcome: FetchOutcome) -> (w: Option<Wake>)
        requires
            self.flights.wf(),
        ensures
            wake_of(w) == self@.wake_for(key@, outcome),
    {
        match self.flights.flight(key) {
            Some(f) => Some(Wake { cache_key: key.to_owned(), outcome, waiters: f.waiters }),
            None => None,
        }
    }

    fn on_probed(&mut self, pass: &mut Pass, on_disk: Option<u64>, now: u64, sample: u64) -> (s:
        Step)
        requires
            old(self).wf(),
            old(pass)@.phase == Phase::EnsureFetch,
            old(pass)@.request is Some,
        ensures
            final(self).wf(),
            (final(self)@, final(pass)@, s@) == old(self)@.probed(old(pass)@, on_disk, now, sample),
    {
        if self.passes == u64::MAX {
            pass.phase = Phase::BackoffRetry;
            return Self::requeue_step(pass.attempt, sample, None);
        }
        let request = match &pass.request {
            Some(r) => r,
            None => unreached(),
        };
        let key = request.cache_key.as_str();
        self.cache.observe(key, on_disk, now);
        self.passes = self.passes + 1;
        match on_disk {
            Some(_) => {
                self.metrics.count_hit();
                pass.phase = Phase::Release;
                Self::release_step(pass, None)
            },
            None => {
                self.metrics.count_miss();
                match self.cache.residency(key, now) {
                    Residency::Failed => {
                        pass.phase = Phase::BackoffRetry;
                        Self::requeue_step(pass.attempt, sample, None)
                    },
                    _ => {
                        let ticket = self.flights.acquire(key, now);
                        let action = if ticket.is_leader {
                            let _started = self.cache.begin_fetch(key, now);
                            Action::Fetch {
                                job: build_fetch_job(
                                    &pass.workload,
                                    request,
                                    &self.config,
                                    &self.fetcher,
                                ),
                                timeout_secs: self.config.fetch_timeout_secs,
                            }
                        } else {
                            Action::Await { cache_key: request.cache_key.clone() }
                        };
                        pass.phase = Phase::AwaitReady;
                        pass.leader = ticket.is_leader;
                        pass.flight_started_at = ticket.started_at;
                        Step { action, wake: None }
                    },
                }
            },
        }
    }

    fn on_resolved(
        &mut self,
        pass: &mut Pass,
        outcome: FetchOutcome,
        on_disk: Option<u64>,
        now: u64,
        sample: u64,
    ) -> (s: Step)
        requires
            old(self).wf(),
            old(pass)@.phase == Phase::AwaitReady,
            old(pass)@.request is Some,
        ensures
            final(self).wf(),
            (final(self)@, final(pass)@, s@) == old(self)@.resolved(
                old(pass)@,
                outcome,
                on_disk,
                now,
                sample,
            ),
    {
        let request = match &pass.request {
            Some(r) => r,
            None => unreached(),
        };
        let key = request.cache_key.as_str();
        let succeeded = match outcome {
            FetchOutcome::Present => true,
            FetchOutcome::Failed => false,
        };
        let present = succeeded && on_disk.is_some();
        let told = if present {
            FetchOutcome::Present
        } else {
            FetchOutcome::Failed
        };
        let mut wake: Option<Wake> = None;
        if pass.leader {
            wake = self.wake_step(key, told);
            if succeeded {
                let _present = self.cache.commit(key, on_disk, now);
            } else {
                self.cache.fail(key, now);
            }
            let _done = self.flights.complete(key, told);
            if present {
                let did = request.did.as_str();
                if self.metrics.prewarm_success_total(did) < u64::MAX {
                    self.metrics.count_success(did);
                }
                self.metrics.observe_warmup(elapsed(pass.flight_started_at, now));
            }
        } else if present {
            self.cache.observe(key, on_disk, now);
        }
        if present {
            pass.phase = Phase::Release;
            Self::release_step(pass, wake)
        } else {
            pass.phase = Phase::BackoffRetry;
            Self::requeue_step(pass.attempt, sample, wake)
        }
    }

    fn on_patched(&mut self, pass: &mut Pass, reply: PatchReply, now: u64, sample: u64) -> (s: Step)
        requires
            old(self).wf(),
            old(pass)@.phase == Phase::Release,
        ensures
            final(self).wf(),
            (final(self)@, final(pass)@, s@) == old(self)@.patched(
                old(pass)@,
                reply,
                now,
                sample,
            ),
    {
        match reply {
            PatchReply::Applied => {
                self.metrics.observe_queue_time(elapsed(pass.queued_at, now));
                self.released.insert(pass.workload.uid.as_str(), now);
                pass.phase = Phase::Done;
                Step { action: Action::Nothing, wake: None }
            },
            PatchReply::Conflict => {
                pass.phase = Phase::Dropped;
                Step { action: Action::Nothing, wake: None }
            },
            PatchReply::Unavailable => {
                pass.phase = Phase::BackoffRetry;
                Self::requeue_step(pass.attempt, sample, None)
            },
        }
    }

    fn on_deleted(&mut self, pass: &mut Pass) -> (s: Step)
        requires
            old(self).wf(),
        ensures
            final(self).wf(),
            (final(self)@, final(pass)@, s@) == old(self)@.deleted(old(pass)@),
    {
        let waiting = match pass.phase {
            Phase::AwaitReady => true,
            _ => false,
        };
        let step = match &pass.request {
            Some(request) => {
                if waiting {
                    let key = request.cache_key.as_str();
                    if pass.leader {
                        let wake = self.wake_step(key, FetchOutcome::Failed);
                        self.cache.abandon(key);
                        let _done = self.flights.complete(key, FetchOutcome::Failed);
                        Step {
                            action: Action::CancelFetch { job_name: request.job_name.clone() },
                            wake,
                        }
                    } else {
                        self.flights.leave(key);
                        Step { action: Action::Nothing, wake: None }
                    }
                } else {
                    Step { action: Action::Nothing, wake: None }
                }
            },
            None => Step { action: Action::Nothing, wake: None },
        };
        let _when = self.released.remove(pass.workload.uid.as_str());
        pass.phase = Phase::Abandoned;
        step
    }

    /// Takes one report for `pass` and says what to do next.
    pub fn step(&mut self, pass: &mut Pass, event: PassEvent, now: u64, sample: u64) -> (s: Step)
        requires
            old(self).wf(),
        ensures
            final(self).wf(),
            final(self)@.wf(),
            (final(self)@, final(pass)@, s@) == old(self)@.stepped(old(pass)@, event, now, sample),
    {
        let known = pass.request.is_some();
        match event {
            PassEvent::Deleted => self.on_deleted(pass),
            PassEvent::Probed { on_disk } => match pass.phase {
                Phase::EnsureFetch => if known {
                    self.on_probed(pass, on_disk, now, sample)
                } else {
                    Step { action: Action::Nothing, wake: None }
                },
                _ => Step { action: Action::Nothing, wake: None },
            },
            PassEvent::Resolved { outcome, on_disk } => match pass.phase {
                Phase::AwaitReady => if known {
                    self.on_resolved(pass, outcome, on_disk, now, sample)
                } else {
                    Step { action: Action::Nothing, wake: None }
                },
                _ => Step { action: Action::Nothing, wake: None },
            },
            PassEvent::Patched(reply) => match pass.phase {
                Phase::Release => self.on_patched(pass, reply, now, sample),
                _ => Step { action: Action::Nothing, wake: None },
            },
        }
    }
}

} // verus!
