//! The fetch-job orchestrator: the decisions of `ensure`, one cluster reply at
//! a time.
//!
//! The caller talks to the cluster and keeps the clock. After each reply it
//! asks here what to do next: look the job up, create it, or stop with a
//! result. The job is looked up before it is created, and a job that exists
//! already is adopted.

use vstd::prelude::*;
use crate::backoff::{backoff_base_ms, backoff_delay, jittered, jittered_ms};
use crate::counting::{count_up_u32, one_more_u32};

verus! {

/// Milliseconds between two polls of a job's status, before jitter.
pub const POLL_INTERVAL_MS: u64 = 1000;

/// What the cluster reports of a job.
#[derive(Clone, Copy, Debug, PartialEq, Eq, Structural)]
pub struct JobStatus {
    /// Pods of the job that ran to success.
    pub succeeded: u32,
    /// Pods of the job that failed.
    pub failed: u32,
    /// The job gave up: it reports that its backoff limit was exceeded.
    pub backoff_limit_exceeded: bool,
}

/// The cluster's answer to a request about the fetch job.
#[derive(Clone, Copy, Debug, PartialEq, Eq, Structural)]
pub enum ClusterReply {
    /// The job exists, with this status.
    Found(JobStatus),
    /// No job of that name exists.
    NotFound,
    /// The job was created.
    Created,
    /// The job was not created because one of that name exists.
    AlreadyExists,
    /// The request failed for a passing reason.
    Unavailable,
}

/// What can happen while `ensure` runs.
#[derive(Clone, Copy, Debug, PartialEq, Eq, Structural)]
pub enum EnsureEvent {
    Reply(ClusterReply),
    /// The caller no longer wants the result.
    Cancel,
}

/// How `ensure` ended.
#[derive(Clone, Copy, Debug, PartialEq, Eq, Structural)]
pub enum EnsureResult {
    Present,
    Failed,
    Cancelled,
}

/// What the caller does next.
#[derive(Clone, Copy, Debug, PartialEq, Eq, Structural)]
pub enum EnsureAction {
    /// Wait `after_ms` milliseconds, then look the job up.
    Get { after_ms: u64 },
    /// Wait `after_ms` milliseconds, then create the job.
    Create { after_ms: u64 },
    /// Stop: this is the result.
    Finish(EnsureResult),
    /// The event changes nothing.
    Nothing,
}

/// Where `ensure` stands.
#[derive(Clone, Copy, Debug, PartialEq, Eq, Structural)]
pub enum EnsurePhase {
    /// The look-up before any creation is under way.
    Getting,
    /// The creation is under way.
    Creating,
    /// The job exists; its status is polled.
    Polling,
    /// A result was handed out.
    Finished,
}

/// The state of one `ensure`.
#[derive(Clone, Copy, Debug, PartialEq, Eq, Structural)]
pub struct Ensure {
    pub phase: EnsurePhase,
    /// When `ensure` started, in seconds.
    pub started_at: u64,
    /// How long it may take, in seconds.
    pub timeout_secs: u64,
    /// Requests that failed in a row.
    pub retries: u32,
}

impl Ensure {
    /// Whether the time allowed has run out at `now`.
    pub open spec fn timed_out(self, now: u64) -> bool {
        now >= self.started_at + self.timeout_secs
    }

    /// The state in which nothing more happens.
    pub open spec fn finished(self) -> Ensure {
        Ensure { phase: EnsurePhase::Finished, ..self }
    }

    /// The verdict on a job that exists: success if a pod succeeded, failure
    /// if the job gave up or the time ran out, and another poll otherwise.
    pub open spec fn judged(self, status: JobStatus, now: u64, sample: u64) -> (Ensure, EnsureAction) {
        if status.succeeded >= 1 {
            (self.finished(), EnsureAction::Finish(EnsureResult::Present))
        } else if status.backoff_limit_exceeded || self.timed_out(now) {
            (self.finished(), EnsureAction::Finish(EnsureResult::Failed))
        } else {
            (
                Ensure { phase: EnsurePhase::Polling, retries: 0, ..self },
                EnsureAction::Get { after_ms: jittered_ms(1000, sample) as u64 },
            )
        }
    }

    /// What follows a request that failed for a passing reason: the same
    /// request again after a backoff, or failure if the time ran out.
    pub open spec fn retried(self, now: u64, sample: u64) -> (Ensure, EnsureAction) {
        if self.timed_out(now) {
            (self.finished(), EnsureAction::Finish(EnsureResult::Failed))
        } else {
            let after_ms = jittered_ms(backoff_base_ms(self.retries as nat), sample) as u64;
            (
                Ensure { retries: one_more_u32(self.retries), ..self },
                if self.phase == EnsurePhase::Creating {
                    EnsureAction::Create { after_ms }
                } else {
                    EnsureAction::Get { after_ms }
                },
            )
        }
    }

    /// The state and the action that follow `event` at time `now`. `sample` is
    /// the random number that picks the jitter of any delay.
    pub open spec fn next(self, event: EnsureEvent, now: u64, sample: u64) -> (Ensure, EnsureAction) {
        match (self.phase, event) {
            (EnsurePhase::Finished, _) => (self, EnsureAction::Nothing),
            (_, EnsureEvent::Cancel) => (
                self.finished(),
                EnsureAction::Finish(EnsureResult::Cancelled),
            ),
            (_, EnsureEvent::Reply(ClusterReply::Unavailable)) => self.retried(now, sample),
            (EnsurePhase::Getting, EnsureEvent::Reply(ClusterReply::NotFound)) => (
                Ensure { phase: EnsurePhase::Creating, retries: 0, ..self },
                EnsureAction::Create { after_ms: 0 },
            ),
            (EnsurePhase::Getting, EnsureEvent::Reply(ClusterReply::Found(status))) => self.judged(
                status,
                now,
                sample,
            ),
            (EnsurePhase::Polling, EnsureEvent::Reply(ClusterReply::Found(status))) => self.judged(
                status,
                now,
                sample,
            ),
            (EnsurePhase::Polling, EnsureEvent::Reply(ClusterReply::NotFound)) => (
                self.finished(),
                EnsureAction::Finish(EnsureResult::Failed),
            ),
            (EnsurePhase::Creating, EnsureEvent::Reply(ClusterReply::Created)) => (
                Ensure { phase: EnsurePhase::Polling, retries: 0, ..self },
                EnsureAction::Get { after_ms: jittered_ms(1000, sample) as u64 },
            ),
            (EnsurePhase::Creating, EnsureEvent::Reply(ClusterReply::AlreadyExists)) => (
                Ensure { phase: EnsurePhase::Polling, retries: 0, ..self },
                EnsureAction::Get { after_ms: jittered_ms(1000, sample) as u64 },
            ),
            _ => (self, EnsureAction::Nothing),
        }
    }

    /// Starts an `ensure` at `now` that may take `timeout_secs` seconds: the
    /// first thing to do is to look the job up, at once.
    pub fn start(now: u64, timeout_secs: u64) -> (r: (Ensure, EnsureAction))
        ensures
            r.0 == (Ensure { phase: EnsurePhase::Getting, started_at: now, timeout_secs, retries: 0 }),
            r.1 == (EnsureAction::Get { after_ms: 0 }),
    {
        (
            Ensure { phase: EnsurePhase::Getting, started_at: now, timeout_secs, retries: 0 },
            EnsureAction::Get { after_ms: 0 },
        )
    }

    /// Whether the time allowed has run out at `now`.
    pub fn has_timed_out(&self, now: u64) -> (r: bool)
        ensures
            r == self.timed_out(now),
    {
        now >= self.started_at && now - self.started_at >= self.timeout_secs
    }

    fn finish(&self, result: EnsureResult) -> (r: (Ensure, EnsureAction))
        ensures
            r == (self.finished(), EnsureAction::Finish(result)),
    {
        (
            Ensure {
                phase: EnsurePhase::Finished,
                started_at: self.started_at,
                timeout_secs: self.timeout_secs,
                retries: self.retries,
            },
            EnsureAction::Finish(result),
        )
    }

    fn poll(&self, sample: u64) -> (r: (Ensure, EnsureAction))
        ensures
            r == (
                Ensure { phase: EnsurePhase::Polling, retries: 0, ..*self },
                EnsureAction::Get { after_ms: jittered_ms(1000, sample) as u64 },
            ),
    {
        (
            Ensure {
                phase: EnsurePhase::Polling,
                started_at: self.started_at,
                timeout_secs: self.timeout_secs,
                retries: 0,
            },
            EnsureAction::Get { after_ms: jittered(POLL_INTERVAL_MS, sample) },
        )
    }

    fn judge(&self, status: JobStatus, now: u64, sample: u64) -> (r: (Ensure, EnsureAction))
        ensures
            r == self.judged(status, now, sample),
    {
        if status.succeeded >= 1 {
            self.finish(EnsureResult::Present)
        } else if status.backoff_limit_exceeded || self.has_timed_out(now) {
            self.finish(EnsureResult::Failed)
        } else {
            self.poll(sample)
        }
    }

    fn retry(&self, now: u64, sample: u64) -> (r: (Ensure, EnsureAction))
        ensures
            r == self.retried(now, sample),
    {
        if self.has_timed_out(now) {
            self.finish(EnsureResult::Failed)
        } else {
            let after_ms = backoff_delay(self.retries, sample);
            let state = Ensure {
                phase: self.phase,
                started_at: self.started_at,
                timeout_secs: self.timeout_secs,
                retries: count_up_u32(self.retries),
            };
            match self.phase {
                EnsurePhase::Creating => (state, EnsureAction::Create { after_ms }),
                _ => (state, EnsureAction::Get { after_ms }),
            }
        }
    }

    /// Takes one event and says what to do next.
    pub fn step(&self, event: EnsureEvent, now: u64, sample: u64) -> (r: (Ensure, EnsureAction))
        ensures
            r == self.next(event, now, sample),
    {
        match self.phase {
            EnsurePhase::Finished => (*self, EnsureAction::Nothing),
            EnsurePhase::Getting => match event {
                EnsureEvent::Cancel => self.finish(EnsureResult::Cancelled),
                EnsureEvent::Reply(ClusterReply::Unavailable) => self.retry(now, sample),
                EnsureEvent::Reply(ClusterReply::NotFound) => (
                    Ensure {
                        phase: EnsurePhase::Creating,
                        started_at: self.started_at,
                        timeout_secs: self.timeout_secs,
                        retries: 0,
                    },
                    EnsureAction::Create { after_ms: 0 },
                ),
                EnsureEvent::Reply(ClusterReply::Found(status)) => self.judge(status, now, sample),
                EnsureEvent::Reply(_) => (*self, EnsureAction::Nothing),
            },
            EnsurePhase::Creating => match event {
                EnsureEvent::Cancel => self.finish(EnsureResult::Cancelled),
                EnsureEvent::Reply(ClusterReply::Unavailable) => self.retry(now, sample),
                EnsureEvent::Reply(ClusterReply::Created) => self.poll(sample),
                EnsureEvent::Reply(ClusterReply::AlreadyExists) => self.poll(sample),
                EnsureEvent::Reply(_) => (*self, EnsureAction::Nothing),
            },
            EnsurePhase::Polling => match event {
                EnsureEvent::Cancel => self.finish(EnsureResult::Cancelled),
                EnsureEvent::Reply(ClusterReply::Unavailable) => self.retry(now, sample),
                EnsureEvent::Reply(ClusterReply::Found(status)) => self.judge(status, now, sample),
                EnsureEvent::Reply(ClusterReply::NotFound) => self.finish(EnsureResult::Failed),
                EnsureEvent::Reply(_) => (*self, EnsureAction::Nothing),
            },
        }
    }
}

/// What a result of `ensure` means for the fetch it stands for: present,
/// failed, or, for a caller that gave up, nothing to report.
pub fn outcome_of(result: EnsureResult) -> (outcome: Option<crate::single_flight::FetchOutcome>)
    ensures
        outcome == (match result {
            EnsureResult::Present => Some(crate::single_flight::FetchOutcome::Present),
            EnsureResult::Failed => Some(crate::single_flight::FetchOutcome::Failed),
            EnsureResult::Cancelled => None,
        }),
{
    match result {
        EnsureResult::Present => Some(crate::single_flight::FetchOutcome::Present),
        EnsureResult::Failed => Some(crate::single_flight::FetchOutcome::Failed),
        EnsureResult::Cancelled => None,
    }
}

/// A request to the cluster, after a wait.
#[derive(Clone, Copy, Debug, PartialEq, Eq, Structural)]
pub enum Ask {
    /// Wait `after_ms` milliseconds, then look the job up.
    Get { after_ms: u64 },
    /// Wait `after_ms` milliseconds, then create the job.
    Create { after_ms: u64 },
}

/// What an action comes to for the caller's loop: the request to make, or
/// the result that ends `ensure`. Where the orchestrator has nothing more to
/// ask for, `ensure` ends as a failure.
pub open spec fn asked_of(action: EnsureAction) -> Result<Ask, EnsureResult> {
    match action {
        EnsureAction::Get { after_ms } => Ok(Ask::Get { after_ms }),
        EnsureAction::Create { after_ms } => Ok(Ask::Create { after_ms }),
        EnsureAction::Finish(result) => Err(result),
        EnsureAction::Nothing => Err(EnsureResult::Failed),
    }
}

/// Tells the request that `action` asks for, or the result that ends `ensure`.
pub fn asked(action: EnsureAction) -> (r: Result<Ask, EnsureResult>)
    ensures
        r == asked_of(action),
{
    match action {
        EnsureAction::Get { after_ms } => Ok(Ask::Get { after_ms }),
        EnsureAction::Create { after_ms } => Ok(Ask::Create { after_ms }),
        EnsureAction::Finish(result) => Err(result),
        EnsureAction::Nothing => Err(EnsureResult::Failed),
    }
}

/// The cluster's answer to the request that was just asked for is never
/// passed over: while `ensure` runs, an answer to a look-up, or an answer to
/// a creation while one is under way, leads to a request or to a result.
pub proof fn lemma_answers_are_heeded(e: Ensure, reply: ClusterReply, now: u64, sample: u64)
    requires
        e.phase != EnsurePhase::Finished,
        if e.phase == EnsurePhase::Creating {
            reply is Created || reply is AlreadyExists || reply is Unavailable
        } else {
            reply is Found || reply is NotFound || reply is Unavailable
        },
    ensures
        !(e.next(EnsureEvent::Reply(reply), now, sample).1 is Nothing),
{
}

/// `ensure` reports the dataset present only on a status that shows a pod of
/// the job succeeded.
pub proof fn lemma_present_needs_success(e: Ensure, event: EnsureEvent, now: u64, sample: u64)
    requires
        e.next(event, now, sample).1 == EnsureAction::Finish(EnsureResult::Present),
    ensures
        event matches EnsureEvent::Reply(ClusterReply::Found(status)) && status.succeeded >= 1,
{
}

/// A job that gave up, or one that has not succeeded when the time runs out,
/// ends `ensure` with a failure.
pub proof fn lemma_terminal_failure(e: Ensure, status: JobStatus, now: u64, sample: u64)
    requires
        e.phase == EnsurePhase::Polling || e.phase == EnsurePhase::Getting,
        status.succeeded == 0,
        status.backoff_limit_exceeded || e.timed_out(now),
    ensures
        e.next(EnsureEvent::Reply(ClusterReply::Found(status)), now, sample).1
            == EnsureAction::Finish(EnsureResult::Failed),
{
}

/// Once a result was handed out nothing more is asked of the cluster.
pub proof fn lemma_finished_is_final(e: Ensure, event: EnsureEvent, now: u64, sample: u64)
    requires
        e.phase == EnsurePhase::Finished,
    ensures
        e.next(event, now, sample) == (e, EnsureAction::Nothing),
{
}

/// A creation is asked for only when the look-up found no job, or when an
/// earlier creation could not be delivered.
pub proof fn lemma_create_follows_not_found(e: Ensure, event: EnsureEvent, now: u64, sample: u64)
    requires
        e.next(event, now, sample).1 is Create,
    ensures
        (e.phase == EnsurePhase::Getting && event == EnsureEvent::Reply(ClusterReply::NotFound)) || (
        e.phase == EnsurePhase::Creating && event == EnsureEvent::Reply(ClusterReply::Unavailable)),
{
}

/// The fetch jobs of one namespace as the cluster keeps them: the names that
/// exist now, and every creation it ever granted, in order.
pub struct JobStore {
    pub live: Set<Seq<char>>,
    pub granted: Seq<Seq<char>>,
}

impl JobStore {
    /// The cluster's answer to a look-up of `name`; `status` is what the job
    /// reports if it exists.
    pub open spec fn get(self, name: Seq<char>, status: JobStatus) -> ClusterReply {
        if self.live.contains(name) {
            ClusterReply::Found(status)
        } else {
            ClusterReply::NotFound
        }
    }

    /// The cluster's answer to a creation of `name`, and the store after it:
    /// a name that exists is refused.
    pub open spec fn create(self, name: Seq<char>) -> (JobStore, ClusterReply) {
        if self.live.contains(name) {
            (self, ClusterReply::AlreadyExists)
        } else {
            (
                JobStore { live: self.live.insert(name), granted: self.granted.push(name) },
                ClusterReply::Created,
            )
        }
    }

    /// The store after the caller carried out `action` for the job `name`.
    pub open spec fn after(self, name: Seq<char>, action: EnsureAction) -> JobStore {
        if action is Create {
            self.create(name).0
        } else {
            self
        }
    }

    /// The store after an `ensure` that has just started looked the job `name`
    /// up and did what the orchestrator then asked for.
    pub open spec fn ensured(
        self,
        name: Seq<char>,
        e: Ensure,
        status: JobStatus,
        now: u64,
        sample: u64,
    ) -> JobStore {
        self.after(name, e.next(EnsureEvent::Reply(self.get(name, status)), now, sample).1)
    }
}

/// `ensure` applied twice to one cache key creates at most one fetch job: the
/// second finds the job of the first and creates nothing.
pub proof fn lemma_ensure_twice_creates_once(
    store: JobStore,
    name: Seq<char>,
    first: Ensure,
    second: Ensure,
    status: JobStatus,
    now: u64,
    later: u64,
    sample: u64,
)
    requires
        first.phase == EnsurePhase::Getting,
        second.phase == EnsurePhase::Getting,
    ensures
        store.ensured(name, first, status, now, sample).live.contains(name),
        store.ensured(name, first, status, now, sample).granted.len() <= store.granted.len() + 1,
        store.ensured(name, first, status, now, sample).ensured(name, second, status, later, sample)
            == store.ensured(name, first, status, now, sample),
{
}

/// Two `ensure`s that both looked the job up before either created it still
/// leave one job: the cluster refuses the second creation, and the refused
/// caller adopts the job and polls it.
pub proof fn lemma_racing_ensures_create_once(
    store: JobStore,
    name: Seq<char>,
    e: Ensure,
    now: u64,
    sample: u64,
)
    requires
        e.phase == EnsurePhase::Creating,
    ensures
        store.create(name).0.create(name) == (store.create(name).0, ClusterReply::AlreadyExists),
        e.next(EnsureEvent::Reply(ClusterReply::AlreadyExists), now, sample).0.phase
            == EnsurePhase::Polling,
        e.next(EnsureEvent::Reply(ClusterReply::AlreadyExists), now, sample).1 is Get,
{
}

} // verus!
