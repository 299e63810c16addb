//! What holds of every pass and of every history of passes: the laws the
//! reconciler keeps, stated over its mathematical model and proved.

use vstd::prelude::*;
use crate::cache::Residency;
use crate::cache_key::cache_key_of;
use crate::config::ConfigView;
use crate::fetch_job::{fetch_job_of, owner_of};
use crate::reconciler::{
    idle, with_hit, with_miss, ActionView, GatekeeperView, PassEvent, PassView, PatchReply, Phase,
};
use crate::single_flight::{left, FetchOutcome, Flight};
use crate::workload::{request_of, WorkloadView};

verus! {

impl PassView {
    /// The pass asks for what its workload asks for under the settings `cfg`.
    pub open spec fn serves(self, cfg: ConfigView) -> bool {
        self.request is Some ==> self.workload.gated_on(cfg) && self.request == Some(
            request_of(self.workload, cfg),
        )
    }
}

/// A pass starts out well formed and serves its workload, and every step
/// keeps it so. The workload, the request and the settings never change.
pub proof fn lemma_pass_stays_faithful(
    g: GatekeeperView,
    w: WorkloadView,
    attempt: u32,
    pass: PassView,
    event: PassEvent,
    now: u64,
    sample: u64,
)
    requires
        pass.wf(),
        pass.serves(g.config),
    ensures
        g.observed(w, attempt, now).0.wf(),
        g.observed(w, attempt, now).0.serves(g.config),
        g.stepped(pass, event, now, sample).1.wf(),
        g.stepped(pass, event, now, sample).1.serves(g.config),
        g.stepped(pass, event, now, sample).1.workload == pass.workload,
        g.stepped(pass, event, now, sample).1.request == pass.request,
        g.stepped(pass, event, now, sample).0.config == g.config,
{
}

/// The scheduling gates are removed only while the dataset is present: a step
/// asks for the patch only if the file was just seen on disk, and the cache
/// index then holds a present entry under the cache key of the workload's
/// dataset.
pub proof fn lemma_release_needs_present(
    g: GatekeeperView,
    pass: PassView,
    event: PassEvent,
    now: u64,
    sample: u64,
)
    requires
        pass.wf(),
        pass.serves(g.config),
        g.stepped(pass, event, now, sample).2.action is Patch,
    ensures
        pass.request is Some,
        pass.request->0.cache_key == cache_key_of(
            pass.workload.dataset(g.config)->0,
        ),
        g.stepped(pass, event, now, sample).0.cache.entry(pass.request->0.cache_key).state
            == Residency::Present,
        event matches PassEvent::Probed { on_disk } ==> on_disk is Some,
        event matches PassEvent::Resolved { outcome, on_disk } ==> on_disk is Some && outcome
            == FetchOutcome::Present,
        !(event is Patched) && !(event is Deleted),
        g.stepped(pass, event, now, sample).1.phase == Phase::Release,
{
}

/// A failed fetch never releases the workload: the pass goes to
/// `BackoffRetry` and asks to be queued again.
pub proof fn lemma_failure_keeps_the_workload_gated(
    g: GatekeeperView,
    pass: PassView,
    on_disk: Option<u64>,
    now: u64,
    sample: u64,
)
    requires
        pass.phase == Phase::AwaitReady,
        pass.request is Some,
    ensures
        g.stepped(
            pass,
            PassEvent::Resolved { outcome: FetchOutcome::Failed, on_disk },
            now,
            sample,
        ).2.action is Requeue,
        g.stepped(
            pass,
            PassEvent::Resolved { outcome: FetchOutcome::Failed, on_disk },
            now,
            sample,
        ).1.phase == Phase::BackoffRetry,
{
}

/// A workload is never changed but by the patch that replaces its scheduling
/// gates with the empty list: that patch is the only action addressed to a
/// workload, it names the workload of the pass, and its list is empty.
pub proof fn lemma_only_the_gates_are_patched(
    g: GatekeeperView,
    pass: PassView,
    event: PassEvent,
    now: u64,
    sample: u64,
)
    ensures
        match g.stepped(pass, event, now, sample).2.action {
            ActionView::Patch { namespace, name, scheduling_gates } => namespace
                == pass.workload.namespace && name == pass.workload.name && scheduling_gates
                == Seq::<Seq<char>>::empty(),
            _ => true,
        },
        g.observed(pass.workload, pass.attempt, now).1.action is Probe || g.observed(
            pass.workload,
            pass.attempt,
            now,
        ).1.action is Nothing,
{
}

/// Every fetch job that a step asks for is owned by the workload that
/// triggered it: its owner reference names that workload and its identity,
/// so that deleting the workload deletes the job. The job is named after the
/// cache key and bound to the target node of the request.
pub proof fn lemma_fetch_job_is_owned(
    g: GatekeeperView,
    pass: PassView,
    event: PassEvent,
    now: u64,
    sample: u64,
)
    requires
        g.stepped(pass, event, now, sample).2.action is Fetch,
    ensures
        pass.request is Some,
        g.stepped(pass, event, now, sample).2.action->Fetch_job == fetch_job_of(
            pass.workload,
            pass.request->0,
            g.config,
            g.fetcher,
        ),
        g.stepped(pass, event, now, sample).2.action->Fetch_job.owner == owner_of(
            pass.workload,
        ),
        g.stepped(pass, event, now, sample).2.action->Fetch_job.owner.uid == pass.workload.uid,
        g.stepped(pass, event, now, sample).2.action->Fetch_job.owner.name == pass.workload.name,
        g.stepped(pass, event, now, sample).2.action->Fetch_job.name == pass.request->0.job_name,
        g.stepped(pass, event, now, sample).2.action->Fetch_job.node_name == pass.request->0.node,
        g.stepped(pass, event, now, sample).1.leader,
{
}

/// Hits and misses together count the passes that reached `EnsureFetch` and
/// asked the cache: each such pass adds one to exactly one of the two
/// counters, and no other step touches either.
pub proof fn lemma_lookups_count_passes(
    g: GatekeeperView,
    pass: PassView,
    event: PassEvent,
    now: u64,
    sample: u64,
)
    requires
        g.wf(),
    ensures
        g.stepped(pass, event, now, sample).0.wf(),
        g.stepped(pass, event, now, sample).0.metrics.lookups() == g.metrics.lookups() + (if
            event is Probed && pass.phase == Phase::EnsureFetch && pass.request is Some
            && g.ensure_fetch_passes < u64::MAX {
            1int
        } else {
            0int
        }),
        event matches PassEvent::Probed { on_disk } ==> pass.phase == Phase::EnsureFetch
            && pass.request is Some && g.ensure_fetch_passes < u64::MAX ==> g.stepped(
            pass,
            event,
            now,
            sample,
        ).0.metrics == (if on_disk is Some {
            with_hit(g.metrics)
        } else {
            with_miss(g.metrics)
        }),
{
}

/// Reconciling a workload that is not gated on this system is a no-op,
/// however often it is done: the pass is over at once, nothing is asked of
/// the caller, and no report on such a pass asks for anything or changes
/// what the gatekeeper holds; its deletion only makes the gatekeeper forget
/// the workload.
pub proof fn lemma_ungated_is_a_no_op(
    g: GatekeeperView,
    w: WorkloadView,
    attempt: u32,
    at: u64,
    event: PassEvent,
    now: u64,
    sample: u64,
)
    requires
        !w.gated_on(g.config),
    ensures
        g.observed(w, attempt, at).0.phase == Phase::NotMine,
        g.observed(w, attempt, at).1 == idle(),
        g.stepped(g.observed(w, attempt, at).0, event, now, sample).0 == (if event is Deleted {
            g.forgetting(w.uid)
        } else {
            g
        }),
        g.stepped(g.observed(w, attempt, at).0, event, now, sample).2 == idle(),
{
}

/// A workload is released once. After the patch of a pass was applied, a
/// snapshot of the same workload leads to nothing, even one that was taken
/// before the release and still shows the gates: its pass is over at once,
/// no report on it asks for a patch, a fetch or anything else, and no lookup
/// is counted for it.
pub proof fn lemma_released_once(
    g: GatekeeperView,
    pass: PassView,
    stale: WorkloadView,
    attempt: u32,
    event: PassEvent,
    now: u64,
    later: u64,
    sample: u64,
)
    requires
        pass.phase == Phase::Release,
        stale.uid == pass.workload.uid,
    ensures
        ({
            let after = g.stepped(pass, PassEvent::Patched(PatchReply::Applied), now, sample).0;
            let rerun = after.observed(stale, attempt, later);
            &&& after.released.contains_key(stale.uid)
            &&& rerun.0.phase == Phase::NotMine
            &&& rerun.1 == idle()
            &&& after.stepped(rerun.0, event, later, sample).2 == idle()
            &&& after.stepped(rerun.0, event, later, sample).0.metrics == after.metrics
            &&& after.stepped(rerun.0, event, later, sample).0.flights == after.flights
        }),
{
}

/// The release of a workload is remembered until the workload is deleted:
/// no other step of any pass takes it back.
pub proof fn lemma_release_is_remembered(
    g: GatekeeperView,
    uid: Seq<char>,
    pass: PassView,
    event: PassEvent,
    now: u64,
    sample: u64,
)
    requires
        g.released.contains_key(uid),
        !(event is Deleted && pass.workload.uid == uid),
    ensures
        g.stepped(pass, event, now, sample).0.released.contains_key(uid),
{
}

/// A workload whose dataset annotation is missing or empty is not this
/// system's: its pass ends in `NotMine` and its gates are never removed.
pub proof fn lemma_unnamed_dataset_is_never_released(
    g: GatekeeperView,
    w: WorkloadView,
    attempt: u32,
    at: u64,
    event: PassEvent,
    now: u64,
    sample: u64,
)
    requires
        w.dataset(g.config) is None || w.dataset(g.config) == Some(Seq::<char>::empty()),
    ensures
        g.observed(w, attempt, at).0.phase == Phase::NotMine,
        !(g.observed(w, attempt, at).1.action is Patch),
        !(g.stepped(g.observed(w, attempt, at).0, event, now, sample).2.action is Patch),
{
}

/// A pass leads a fetch only if none was in flight for its cache key, and
/// while that fetch is in flight every other pass for the key follows: it is
/// told to wait, and no second job is asked for.
pub proof fn lemma_one_leader_per_key(
    g: GatekeeperView,
    first: PassView,
    second: PassView,
    now: u64,
    later: u64,
    sample: u64,
)
    requires
        first.phase == Phase::EnsureFetch,
        second.phase == Phase::EnsureFetch,
        first.request is Some,
        second.request is Some,
        first.request->0.cache_key == second.request->0.cache_key,
        g.probed(first, None, now, sample).1.phase == Phase::AwaitReady,
        g.probed(first, None, now, sample).0.probed(second, None, later, sample).1.phase
            == Phase::AwaitReady,
    ensures
        g.probed(first, None, now, sample).1.leader ==> !g.flights.contains_key(
            first.request->0.cache_key,
        ),
        g.probed(first, None, now, sample).2.action is Fetch <==> g.probed(
            first,
            None,
            now,
            sample,
        ).1.leader,
        !g.probed(first, None, now, sample).0.probed(second, None, later, sample).1.leader,
        g.probed(first, None, now, sample).0.probed(second, None, later, sample).2.action
            == (ActionView::Await { cache_key: second.request->0.cache_key }),
{
}

/// When a workload is deleted while its pass waits for a fetch, the pass
/// gives its ticket up: a leader's ticket is destroyed, its job is no longer
/// polled and its followers are told that the fetch failed; a follower is
/// taken off the waiters. The workload is not patched.
pub proof fn lemma_deletion_abandons_the_ticket(g: GatekeeperView, pass: PassView, now: u64, sample: u64)
    requires
        pass.phase == Phase::AwaitReady,
        pass.request is Some,
    ensures
        g.stepped(pass, PassEvent::Deleted, now, sample).1.phase == Phase::Abandoned,
        pass.leader ==> !g.stepped(pass, PassEvent::Deleted, now, sample).0.flights.contains_key(
            pass.request->0.cache_key,
        ),
        pass.leader ==> g.stepped(pass, PassEvent::Deleted, now, sample).2.action
            == (ActionView::CancelFetch { job_name: pass.request->0.job_name }),
        pass.leader ==> g.stepped(pass, PassEvent::Deleted, now, sample).2.wake == g.wake_for(
            pass.request->0.cache_key,
            FetchOutcome::Failed,
        ),
        !pass.leader ==> g.stepped(pass, PassEvent::Deleted, now, sample).0.flights == left(
            g.flights,
            pass.request->0.cache_key,
        ),
        !(g.stepped(pass, PassEvent::Deleted, now, sample).2.action is Patch),
{
}

/// A version conflict on the patch ends the pass without a retry of its own:
/// nothing is asked for and nothing the gatekeeper holds changes, so the next
/// event for the workload starts a pass like any other.
pub proof fn lemma_conflict_drops_the_pass(g: GatekeeperView, pass: PassView, now: u64, sample: u64)
    requires
        pass.phase == Phase::Release,
    ensures
        g.stepped(pass, PassEvent::Patched(PatchReply::Conflict), now, sample) == (
            g,
            pass.at(Phase::Dropped),
            idle(),
        ),
{
}

impl PassView {
    /// Whether the pass leads a fetch that is in flight.
    pub open spec fn leads(self) -> bool {
        self.phase == Phase::AwaitReady && self.leader && self.request is Some
    }
}

/// The single-flight discipline over a gatekeeper and the passes that are
/// under way: every pass that leads a fetch holds the ticket of its cache
/// key, no two passes lead a fetch for the same cache key, and every ticket
/// in the registry is held by a pass that leads.
pub open spec fn single_flight_holds(g: GatekeeperView, passes: Seq<PassView>) -> bool {
    &&& forall|i: int|
        0 <= i < passes.len() && (#[trigger] passes[i]).leads() ==> g.flights.contains_key(
            passes[i].request->0.cache_key,
        )
    &&& forall|i: int, j: int|
        0 <= i < j < passes.len() && (#[trigger] passes[i]).leads() && (#[trigger] passes[j]).leads()
            ==> passes[i].request->0.cache_key != passes[j].request->0.cache_key
    &&& forall|key: Seq<char>| #[trigger]
        g.flights.contains_key(key) ==> led_by(passes, key) is Some
}

/// The position of a pass that leads the fetch of `key`, if there is one.
pub open spec fn led_by(passes: Seq<PassView>, key: Seq<char>) -> Option<int> {
    if exists|i: int| leads_at(passes, key, i) {
        Some(choose|i: int| leads_at(passes, key, i))
    } else {
        None
    }
}

/// Whether the pass at position `i` leads the fetch of `key`.
pub open spec fn leads_at(passes: Seq<PassView>, key: Seq<char>, i: int) -> bool {
    0 <= i < passes.len() && passes[i].leads() && passes[i].request->0.cache_key == key
}

/// At any time exactly one pass leads the fetch of each cache key that is in
/// flight, and none leads a fetch that is not. The discipline holds when
/// nothing is under way, a new pass keeps it, and so does every step of every
/// pass, whatever is reported and whenever.
pub proof fn lemma_single_flight_is_kept(
    g: GatekeeperView,
    passes: Seq<PassView>,
    w: WorkloadView,
    attempt: u32,
    i: int,
    event: PassEvent,
    now: u64,
    sample: u64,
)
    requires
        single_flight_holds(g, passes),
        0 <= i < passes.len(),
    ensures
        g.flights == Map::<Seq<char>, Flight>::empty() ==> single_flight_holds(
            g,
            Seq::<PassView>::empty(),
        ),
        single_flight_holds(g, passes.push(g.observed(w, attempt, now).0)),
        single_flight_holds(
            g.stepped(passes[i], event, now, sample).0,
            passes.update(i, g.stepped(passes[i], event, now, sample).1),
        ),
{
    let started = passes.push(g.observed(w, attempt, now).0);
    assert forall|k: int| 0 <= k < passes.len() implies started[k] == passes[k] by {}
    assert forall|key: Seq<char>| #[trigger] g.flights.contains_key(key) implies led_by(
        started,
        key,
    ) is Some by {
        let k = led_by(passes, key)->0;
        assert(leads_at(passes, key, k));
        assert(leads_at(started, key, k));
    }
    let pass = passes[i];
    let after = g.stepped(pass, event, now, sample);
    let moved = passes.update(i, after.1);
    assert forall|k: int| 0 <= k < passes.len() && k != i implies moved[k] == passes[k] by {}
    assert forall|key: Seq<char>| #[trigger] after.0.flights.contains_key(key) implies led_by(
        moved,
        key,
    ) is Some by {
        if g.flights.contains_key(key) {
            let k = led_by(passes, key)->0;
            assert(leads_at(passes, key, k));
            if k == i {
                assert(pass.leads());
                assert(after.1.leads());
                assert(leads_at(moved, key, i));
            } else {
                assert(leads_at(moved, key, k));
            }
        } else {
            assert(after.1.leads());
            assert(leads_at(moved, key, i));
        }
    }
}

impl GatekeeperView {
    /// Every dataset that the cache index holds as being fetched has a fetch
    /// in flight.
    pub open spec fn fetching_is_in_flight(self) -> bool {
        forall|key: Seq<char>|
            (#[trigger] self.cache.entry(key)).state == Residency::Fetching
                ==> self.flights.contains_key(key)
    }
}

/// A cache entry is in the state of being fetched only while the ticket of
/// its fetch exists: the entry enters that state when a leader takes the
/// ticket and has left it when the ticket is destroyed.
pub proof fn lemma_fetching_is_in_flight(
    g: GatekeeperView,
    pass: PassView,
    event: PassEvent,
    now: u64,
    sample: u64,
)
    requires
        g.fetching_is_in_flight(),
    ensures
        g.stepped(pass, event, now, sample).0.fetching_is_in_flight(),
{
    let after = g.stepped(pass, event, now, sample).0;
    assert forall|key: Seq<char>|
        (#[trigger] after.cache.entry(key)).state == Residency::Fetching implies after.flights.contains_key(
        key,
    ) by {
        if g.cache.entry(key).state == Residency::Fetching {
            assert(g.flights.contains_key(key));
        }
    }
}

} // verus!
