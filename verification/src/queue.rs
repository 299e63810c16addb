//! The work queue: one slot per workload, keyed by `namespace/name`.
//!
//! Events for one workload are handled one after another. A burst of events
//! collapses to the latest snapshot, and an event that arrives while a pass
//! runs waits in the slot until the pass is over.

use vstd::prelude::*;
use crate::counting::{count_up_u32, one_more_u32};
use crate::keyed::KeyedTable;
use crate::workload::{snapshot_of, Workload, WorkloadView};

verus! {

/// What a queued event asks for.
#[derive(Clone, Copy, Debug, PartialEq, Eq, Structural)]
pub enum WorkKind {
    /// The workload was added or modified: reconcile it.
    Reconcile,
    /// The workload was deleted: give up what was begun for it.
    Forget,
}

/// The slot of one workload.
#[derive(Clone, Debug, PartialEq, Eq)]
pub struct Slot {
    /// The latest snapshot that no pass has taken yet.
    pub pending: Option<Workload>,
    /// What the pending snapshot asks for.
    pub kind: WorkKind,
    /// Whether a pass for the workload is running.
    pub running: bool,
    /// How often the workload was queued again after a failure.
    pub attempt: u32,
}

/// A slot as a mathematical value.
pub struct SlotView {
    pub pending: Option<WorkloadView>,
    pub kind: WorkKind,
    pub running: bool,
    pub attempt: u32,
}

impl View for Slot {
    type V = SlotView;

    open spec fn view(&self) -> SlotView {
        SlotView {
            pending: snapshot_of(self.pending),
            kind: self.kind,
            running: self.running,
            attempt: self.attempt,
        }
    }
}

impl SlotView {
    /// A slot is ready when it holds a snapshot and no pass is running.
    pub open spec fn ready(self) -> bool {
        self.pending is Some && !self.running
    }
}

/// What became of an event that was put in the queue.
#[derive(Clone, Copy, Debug, PartialEq, Eq, Structural)]
pub enum Queued {
    /// The workload had no slot: it has one now and is ready.
    Fresh,
    /// The snapshot took the place of one that was waiting.
    Collapsed,
    /// A pass is running: the snapshot waits until it is over.
    Deferred,
    /// A pass is running and the workload is gone: the pass should be told.
    Interrupts,
}

/// A piece of work handed to a pass.
#[derive(Clone, Debug, PartialEq, Eq)]
pub struct Work {
    pub key: String,
    pub kind: WorkKind,
    pub workload: Workload,
    pub attempt: u32,
}

/// The attempt counter and the running flag of `key`, or those of a fresh slot.
pub open spec fn slot_or_fresh(q: Map<Seq<char>, SlotView>, key: Seq<char>) -> SlotView {
    if q.contains_key(key) {
        q[key]
    } else {
        SlotView { pending: None, kind: WorkKind::Reconcile, running: false, attempt: 0 }
    }
}

/// The queue after an event for `key` was put in: the snapshot replaces any
/// that was waiting, and nothing else about the slot changes.
pub open spec fn enqueued(q: Map<Seq<char>, SlotView>, key: Seq<char>, kind: WorkKind, w: WorkloadView) -> Map<
    Seq<char>,
    SlotView,
> {
    q.insert(key, SlotView { pending: Some(w), kind, ..slot_or_fresh(q, key) })
}

/// What `enqueue` answers.
pub open spec fn queued_as(q: Map<Seq<char>, SlotView>, key: Seq<char>, kind: WorkKind) -> Queued {
    let slot = slot_or_fresh(q, key);
    if slot.running {
        if kind == WorkKind::Forget {
            Queued::Interrupts
        } else {
            Queued::Deferred
        }
    } else if slot.pending is Some {
        Queued::Collapsed
    } else {
        Queued::Fresh
    }
}

/// The queue after the pass for `key` took its snapshot.
pub open spec fn taken(q: Map<Seq<char>, SlotView>, key: Seq<char>) -> Map<Seq<char>, SlotView> {
    q.insert(key, SlotView { pending: None, running: true, ..q[key] })
}

/// The queue after the pass for `key` ended. With `retry` the pass failed and
/// hands its snapshot back; a newer snapshot that arrived meanwhile wins over
/// it. A slot with nothing left to do is removed.
pub open spec fn finished(q: Map<Seq<char>, SlotView>, key: Seq<char>, retry: Option<WorkloadView>) -> Map<
    Seq<char>,
    SlotView,
> {
    if !q.contains_key(key) {
        q
    } else {
        let slot = q[key];
        if slot.pending is Some {
            q.insert(
                key,
                SlotView {
                    running: false,
                    attempt: if retry is Some {
                        one_more_u32(slot.attempt)
                    } else {
                        0
                    },
                    ..slot
                },
            )
        } else if retry is Some {
            q.insert(
                key,
                SlotView {
                    pending: retry,
                    kind: WorkKind::Reconcile,
                    running: false,
                    attempt: one_more_u32(slot.attempt),
                },
            )
        } else {
            q.remove(key)
        }
    }
}

/// The queue after it was drained: what waited is dropped, and only the
/// slots of running passes are left.
pub open spec fn drained(q: Map<Seq<char>, SlotView>) -> Map<Seq<char>, SlotView> {
    Map::new(
        |k: Seq<char>| q.contains_key(k) && q[k].running,
        |k: Seq<char>| SlotView { pending: None, ..q[k] },
    )
}

/// The work queue.
pub struct WorkQueue {
    slots: KeyedTable<Slot>,
}

impl WorkQueue {
    /// The queue's table is well formed.
    pub closed spec fn wf(&self) -> bool {
        self.slots.wf()
    }

    /// The slots by key, each as a mathematical value.
    pub closed spec fn slots(&self) -> Map<Seq<char>, SlotView> {
        Map::new(|k: Seq<char>| self.slots@.contains_key(k), |k: Seq<char>| self.slots@[k]@)
    }

    /// An empty queue.
    pub fn new() -> (q: Self)
        ensures
            q.wf(),
            q.slots() == Map::<Seq<char>, SlotView>::empty(),
    {
        WorkQueue { slots: KeyedTable::new() }
    }

    /// How many workloads have a slot.
    pub fn len(&self) -> (n: usize)
        requires
            self.wf(),
        ensures
            n == self.slots().dom().len(),
    {
        assert(self.slots().dom() =~= self.slots@.dom());
        self.slots.len()
    }

    /// Whether a pass for `key` is running.
    pub fn is_running(&self, key: &str) -> (r: bool)
        requires
            self.wf(),
        ensures
            r == (self.slots().contains_key(key@) && self.slots()[key@].running),
    {
        match self.slots.get(key) {
            Some(slot) => slot.running,
            None => false,
        }
    }

    /// Puts an event for the workload `w` in the queue, under the workload's
    /// key `namespace/name`. The snapshot replaces any snapshot still waiting
    /// in the slot. While a pass for the workload runs, the snapshot waits and
    /// the pass goes on undisturbed.
    pub fn enqueue(&mut self, kind: WorkKind, w: Workload) -> (r: Queued)
        requires
            old(self).wf(),
        ensures
            final(self).wf(),
            final(self).slots() == enqueued(old(self).slots(), w@.work_key(), kind, w@),
            r == queued_as(old(self).slots(), w@.work_key(), kind),
    {
        let ghost before = self.slots();
        let key = w.work_key();
        let (running, attempt, waiting) = match self.slots.remove(key.as_str()) {
            Some(slot) => (slot.running, slot.attempt, slot.pending.is_some()),
            None => (false, 0, false),
        };
        let ghost snapshot = w@;
        self.slots.insert(key.as_str(), Slot { pending: Some(w), kind, running, attempt });
        proof {
            assert(self.slots() =~= enqueued(before, key@, kind, snapshot));
        }
        if running {
            match kind {
                WorkKind::Forget => Queued::Interrupts,
                WorkKind::Reconcile => Queued::Deferred,
            }
        } else if waiting {
            Queued::Collapsed
        } else {
            Queued::Fresh
        }
    }

    fn first_ready(&self) -> (r: Option<usize>)
        requires
            self.wf(),
        ensures
            match r {
                Some(i) => i < self.slots.key_seq().len() && self.slots().contains_key(
                    self.slots.key_seq()[i as int],
                ) && self.slots()[self.slots.key_seq()[i as int]].ready(),
                None => forall|k: Seq<char>| #[trigger]
                    self.slots().contains_key(k) ==> !self.slots()[k].ready(),
            },
    {
        let n = self.slots.len();
        let mut i: usize = 0;
        while i < n
            invariant
                self.wf(),
                n == self.slots.key_seq().len(),
                i <= n,
                forall|j: int|
                    0 <= j < i ==> !(#[trigger] self.slots()[self.slots.key_seq()[j]]).ready(),
            decreases n - i,
        {
            let (_key, slot) = self.slots.nth(i);
            if slot.pending.is_some() && !slot.running {
                return Some(i);
            }
            i += 1;
        }
        proof {
            self.slots.lemma_keys_are_domain();
            assert forall|k: Seq<char>| #[trigger] self.slots().contains_key(k) implies !self.slots()[k].ready() by {
                let j = self.slots.key_seq().index_of(k);
                assert(self.slots.key_seq().contains(k));
                assert(self.slots.key_seq()[j] == k);
            }
        }
        None
    }

    /// Hands out the snapshot of a workload that is ready, and marks its pass
    /// as running. A workload whose pass is running is never handed out, so
    /// two passes for one workload do not overlap. `None` means that no
    /// workload is ready.
    pub fn next(&mut self) -> (r: Option<Work>)
        requires
            old(self).wf(),
        ensures
            final(self).wf(),
            match r {
                Some(work) => old(self).slots().contains_key(work.key@) && old(self).slots()[work.key@].ready()
                    && old(self).slots()[work.key@].pending == Some(work.workload@)
                    && work.kind == old(self).slots()[work.key@].kind
                    && work.attempt == old(self).slots()[work.key@].attempt
                    && final(self).slots() == taken(old(self).slots(), work.key@),
                None => final(self).slots() == old(self).slots() && forall|k: Seq<char>| #[trigger]
                    old(self).slots().contains_key(k) ==> !old(self).slots()[k].ready(),
            },
    {
        let ghost before = self.slots();
        match self.first_ready() {
            None => None,
            Some(i) => {
                let key = self.slots.nth(i).0.clone();
                match self.slots.remove(key.as_str()) {
                    None => unreached(),
                    Some(slot) => {
                        let kind = slot.kind;
                        let attempt = slot.attempt;
                        match slot.pending {
                            None => unreached(),
                            Some(workload) => {
                                self.slots.insert(
                                    key.as_str(),
                                    Slot { pending: None, kind, running: true, attempt },
                                );
                                proof {
                                    assert(self.slots() =~= taken(before, key@));
                                }
                                Some(Work { key, kind, workload, attempt })
                            },
                        }
                    },
                }
            },
        }
    }

    /// Drains the queue for shutdown: every snapshot that waits is dropped.
    /// The result names the workloads whose passes are running, which the
    /// caller stops; their slots stay until the passes have ended.
    pub fn drain(&mut self) -> (running: Vec<String>)
        requires
            old(self).wf(),
        ensures
            final(self).wf(),
            final(self).slots() == drained(old(self).slots()),
            running.deep_view().to_set() == final(self).slots().dom(),
    {
        let ghost before = self.slots();
        let ghost keys = self.slots.key_seq();
        let n = self.slots.len();
        let mut kept: KeyedTable<Slot> = KeyedTable::new();
        let mut running: Vec<String> = Vec::new();
        let mut i: usize = 0;
        proof {
            self.slots.lemma_keys_are_domain();
        }
        while i < n
            invariant
                self.wf(),
                kept.wf(),
                before == self.slots(),
                keys == self.slots.key_seq(),
                keys.no_duplicates(),
                n == keys.len(),
                i <= n,
                forall|k: Seq<char>|
                    kept@.contains_key(k) <==> (exists|j: int|
                        0 <= j < i && keys[j] == k && before[k].running),
                forall|k: Seq<char>| #[trigger]
                    kept@.contains_key(k) ==> before.contains_key(k) && kept@[k]@ == (SlotView {
                        pending: None,
                        ..before[k]
                    }),
                running.deep_view().to_set() == kept@.dom(),
            decreases n - i,
        {
            let (key, slot) = self.slots.nth(i);
            let ghost old_kept = kept@;
            let ghost old_running = running.deep_view();
            if slot.running {
                kept.insert(
                    key.as_str(),
                    Slot { pending: None, kind: slot.kind, running: true, attempt: slot.attempt },
                );
                running.push(key.clone());
                proof {
                    assert(running.deep_view() =~= old_running.push(key@));
                    assert(running.deep_view().to_set() =~= old_running.to_set().insert(key@)) by {
                        assert forall|x: Seq<char>|
                            running.deep_view().to_set().contains(x)
                            <==> old_running.to_set().insert(key@).contains(x) by {
                            if running.deep_view().contains(x) {
                                let j = choose|j: int|
                                    0 <= j < running.deep_view().len() && running.deep_view()[j]
                                        == x;
                                if j < old_running.len() {
                                    assert(old_running[j] == x);
                                }
                            }
                            if old_running.contains(x) {
                                let j = choose|j: int|
                                    0 <= j < old_running.len() && old_running[j] == x;
                                assert(running.deep_view()[j] == x);
                            }
                            if x == key@ {
                                assert(running.deep_view()[old_running.len() as int] == x);
                            }
                        }
                    }
                    assert(kept@.dom() =~= old_kept.dom().insert(key@));
                }
            }
            proof {
                assert forall|k: Seq<char>|
                    kept@.contains_key(k) <==> (exists|j: int|
                        0 <= j < i + 1 && keys[j] == k && before[k].running) by {
                    if kept@.contains_key(k) {
                        if old_kept.contains_key(k) {
                            let j = choose|j: int| 0 <= j < i && keys[j] == k && before[k].running;
                            assert(0 <= j < i + 1 && keys[j] == k && before[k].running);
                        } else {
                            assert(k == key@);
                            assert(keys[i as int] == k && before[k].running);
                        }
                    }
                    if exists|j: int| 0 <= j < i + 1 && keys[j] == k && before[k].running {
                        let j = choose|j: int| 0 <= j < i + 1 && keys[j] == k && before[k].running;
                        if j < i {
                            assert(old_kept.contains_key(k));
                        } else {
                            assert(k == key@);
                        }
                    }
                }
            }
            i += 1;
        }
        proof {
            assert forall|k: Seq<char>|
                kept@.contains_key(k) <==> before.contains_key(k) && before[k].running by {
                if before.contains_key(k) && before[k].running {
                    assert(keys.to_set().contains(k));
                    let j = keys.index_of(k);
                    assert(0 <= j < n && keys[j] == k);
                }
            }
        }
        self.slots = kept;
        proof {
            assert(self.slots() =~= drained(before));
            assert(self.slots().dom() =~= self.slots@.dom());
        }
        running
    }

    /// Ends the pass for `key`. A pass that failed hands its snapshot back in
    /// `retry`; a newer snapshot that arrived while the pass ran is kept in
    /// its place. The result tells whether the workload is ready again.
    pub fn finish(&mut self, key: &str, retry: Option<Workload>) -> (again: bool)
        requires
            old(self).wf(),
        ensures
            final(self).wf(),
            final(self).slots() == finished(old(self).slots(), key@, snapshot_of(retry)),
            again == (final(self).slots().contains_key(key@) && final(self).slots()[key@].ready()),
    {
        let ghost before = self.slots();
        let ghost given = snapshot_of(retry);
        match self.slots.remove(key) {
            None => {
                proof {
                    assert(self.slots() =~= finished(before, key@, given));
                }
                false
            },
            Some(slot) => {
                let failed = retry.is_some();
                let attempt = if failed {
                    count_up_u32(slot.attempt)
                } else {
                    0
                };
                if slot.pending.is_some() {
                    self.slots.insert(
                        key,
                        Slot { pending: slot.pending, kind: slot.kind, running: false, attempt },
                    );
                    proof {
                        assert(self.slots() =~= finished(before, key@, given));
                    }
                    true
                } else if failed {
                    self.slots.insert(
                        key,
                        Slot { pending: retry, kind: WorkKind::Reconcile, running: false, attempt },
                    );
                    proof {
                        assert(self.slots() =~= finished(before, key@, given));
                    }
                    true
                } else {
                    proof {
                        assert(self.slots() =~= finished(before, key@, given));
                    }
                    false
                }
            },
        }
    }
}

/// A burst of events for one workload collapses to the latest snapshot: of
/// two events put in one after the other only the second is left, and the
/// running pass, if there is one, is not disturbed.
pub proof fn lemma_burst_collapses(
    q: Map<Seq<char>, SlotView>,
    key: Seq<char>,
    first: WorkloadView,
    second: WorkloadView,
)
    ensures
        enqueued(enqueued(q, key, WorkKind::Reconcile, first), key, WorkKind::Reconcile, second)
            == enqueued(q, key, WorkKind::Reconcile, second),
        enqueued(q, key, WorkKind::Reconcile, first)[key].running == slot_or_fresh(q, key).running,
        enqueued(q, key, WorkKind::Reconcile, first).dom() == q.dom().insert(key),
{
    assert(enqueued(enqueued(q, key, WorkKind::Reconcile, first), key, WorkKind::Reconcile, second)
        =~= enqueued(q, key, WorkKind::Reconcile, second));
}

/// Passes for one workload never overlap: once its snapshot is taken the
/// workload is not ready, whatever events arrive, until its pass has ended;
/// and an event that arrived meanwhile makes it ready again right then.
pub proof fn lemma_passes_do_not_overlap(
    q: Map<Seq<char>, SlotView>,
    key: Seq<char>,
    kind: WorkKind,
    w: WorkloadView,
)
    requires
        q.contains_key(key),
        q[key].ready(),
    ensures
        !taken(q, key)[key].ready(),
        !enqueued(taken(q, key), key, kind, w)[key].ready(),
        queued_as(taken(q, key), key, kind) == Queued::Deferred || queued_as(taken(q, key), key, kind)
            == Queued::Interrupts,
        finished(enqueued(taken(q, key), key, kind, w), key, None)[key].ready(),
        finished(enqueued(taken(q, key), key, kind, w), key, None)[key].pending == Some(w),
        !finished(taken(q, key), key, None).contains_key(key),
{
}

} // verus!
