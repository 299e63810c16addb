//! The watch driver: follows the stream of workload events and, whenever the
//! stream breaks, lists the workloads afresh before it watches again, so that
//! the latest state of every workload is delivered in the end.

use vstd::prelude::*;
use crate::backoff::{backoff_base_ms, backoff_delay, jittered_ms};
use crate::counting::{count_up_u32, one_more_u32};
use crate::queue::WorkKind;

verus! {

/// The kind of an event on the watch stream.
#[derive(Clone, Copy, Debug, PartialEq, Eq, Structural)]
pub enum EventKind {
    Added,
    Modified,
    Deleted,
    Error,
}

/// What the caller reports to the driver.
#[derive(Clone, Debug, PartialEq, Eq)]
pub enum WatchInput {
    /// An event came in. `resource_version` is the version the event carries.
    Event { kind: EventKind, resource_version: String },
    /// The stream ended.
    Closed,
    /// A list came back; `resource_version` is the version to watch from.
    Listed { resource_version: String },
    /// The list request failed.
    ListFailed,
}

/// A report as a mathematical value.
pub enum WatchInputView {
    Event { kind: EventKind, resource_version: Seq<char> },
    Closed,
    Listed { resource_version: Seq<char> },
    ListFailed,
}

impl View for WatchInput {
    type V = WatchInputView;

    open spec fn view(&self) -> WatchInputView {
        match self {
            WatchInput::Event { kind, resource_version } => WatchInputView::Event {
                kind: *kind,
                resource_version: resource_version@,
            },
            WatchInput::Closed => WatchInputView::Closed,
            WatchInput::Listed { resource_version } => WatchInputView::Listed {
                resource_version: resource_version@,
            },
            WatchInput::ListFailed => WatchInputView::ListFailed,
        }
    }
}

/// What the caller does next.
#[derive(Clone, Debug, PartialEq, Eq)]
pub enum WatchAction {
    /// Open the watch from this resource version.
    Watch { resource_version: String },
    /// Put the event's snapshot in the work queue and read on.
    Dispatch { kind: WorkKind },
    /// Wait, then list all workloads; put each in the work queue.
    ListAfter { after_ms: u64 },
    /// Read on.
    Nothing,
}

/// An action as a mathematical value.
pub enum WatchActionView {
    Watch { resource_version: Seq<char> },
    Dispatch { kind: WorkKind },
    ListAfter { after_ms: u64 },
    Nothing,
}

impl View for WatchAction {
    type V = WatchActionView;

    open spec fn view(&self) -> WatchActionView {
        match self {
            WatchAction::Watch { resource_version } => WatchActionView::Watch {
                resource_version: resource_version@,
            },
            WatchAction::Dispatch { kind } => WatchActionView::Dispatch { kind: *kind },
            WatchAction::ListAfter { after_ms } => WatchActionView::ListAfter {
                after_ms: *after_ms,
            },
            WatchAction::Nothing => WatchActionView::Nothing,
        }
    }
}

/// Where the driver stands.
#[derive(Clone, Copy, Debug, PartialEq, Eq, Structural)]
pub enum WatchPhase {
    /// The stream is open.
    Watching,
    /// The stream broke; a list is due or under way.
    Resyncing,
}

/// The watch driver.
#[derive(Clone, Debug, PartialEq, Eq)]
pub struct WatchDriver {
    phase: WatchPhase,
    resource_version: String,
    failures: u32,
}

/// The driver as a mathematical value.
pub struct WatchView {
    pub phase: WatchPhase,
    /// The latest resource version the driver has seen.
    pub resource_version: Seq<char>,
    /// Breaks and failed lists in a row.
    pub failures: u32,
}

impl View for WatchDriver {
    type V = WatchView;

    closed spec fn view(&self) -> WatchView {
        WatchView {
            phase: self.phase,
            resource_version: self.resource_version@,
            failures: self.failures,
        }
    }
}

/// The work that an event of `kind` stands for.
pub open spec fn work_of(kind: EventKind) -> WorkKind {
    if kind == EventKind::Deleted {
        WorkKind::Forget
    } else {
        WorkKind::Reconcile
    }
}

impl WatchView {
    /// The driver after a break or a failed list: it resyncs, and the wait
    /// before the list grows with every failure in a row.
    pub open spec fn broken(self, sample: u64) -> (WatchView, WatchActionView) {
        (
            WatchView {
                phase: WatchPhase::Resyncing,
                failures: one_more_u32(self.failures),
                ..self
            },
            WatchActionView::ListAfter {
                after_ms: jittered_ms(backoff_base_ms(self.failures as nat), sample) as u64,
            },
        )
    }

    /// The driver and the action that follow `input`. `sample` is the random
    /// number that picks the jitter of any delay.
    pub open spec fn next(self, input: WatchInputView, sample: u64) -> (WatchView, WatchActionView) {
        match (self.phase, input) {
            (WatchPhase::Watching, WatchInputView::Event { kind, resource_version }) => if kind
                == EventKind::Error {
                self.broken(sample)
            } else {
                (
                    WatchView { resource_version, failures: 0, ..self },
                    WatchActionView::Dispatch { kind: work_of(kind) },
                )
            },
            (WatchPhase::Watching, WatchInputView::Closed) => self.broken(sample),
            (WatchPhase::Resyncing, WatchInputView::Listed { resource_version }) => (
                WatchView { phase: WatchPhase::Watching, resource_version, failures: 0 },
                WatchActionView::Watch { resource_version },
            ),
            (WatchPhase::Resyncing, WatchInputView::ListFailed) => self.broken(sample),
            _ => (self, WatchActionView::Nothing),
        }
    }
}

impl WatchDriver {
    /// A driver at startup: the watch is opened from resource version `0`.
    pub fn start() -> (r: (WatchDriver, WatchAction))
        ensures
            r.0@ == (WatchView {
                phase: WatchPhase::Watching,
                resource_version: "0"@,
                failures: 0,
            }),
            r.1@ == (WatchActionView::Watch { resource_version: "0"@ }),
    {
        (
            WatchDriver {
                phase: WatchPhase::Watching,
                resource_version: "0".to_owned(),
                failures: 0,
            },
            WatchAction::Watch { resource_version: "0".to_owned() },
        )
    }

    /// Where the driver stands.
    pub fn phase(&self) -> (p: WatchPhase)
        ensures
            p == self@.phase,
    {
        self.phase
    }

    /// The latest resource version the driver has seen.
    pub fn resource_version(&self) -> (v: &String)
        ensures
            v@ == self@.resource_version,
    {
        &self.resource_version
    }

    fn on_break(&mut self, sample: u64) -> (action: WatchAction)
        ensures
            (final(self)@, action@) == old(self)@.broken(sample),
    {
        let after_ms = backoff_delay(self.failures, sample);
        self.phase = WatchPhase::Resyncing;
        self.failures = count_up_u32(self.failures);
        WatchAction::ListAfter { after_ms }
    }

    /// Takes one report and says what to do next.
    pub fn step(&mut self, input: WatchInput, sample: u64) -> (action: WatchAction)
        ensures
            (final(self)@, action@) == old(self)@.next(input@, sample),
    {
        match self.phase {
            WatchPhase::Watching => match input {
                WatchInput::Event { kind, resource_version } => match kind {
                    EventKind::Error => self.on_break(sample),
                    EventKind::Deleted => {
                        self.resource_version = resource_version;
                        self.failures = 0;
                        WatchAction::Dispatch { kind: WorkKind::Forget }
                    },
                    _ => {
                        self.resource_version = resource_version;
                        self.failures = 0;
                        WatchAction::Dispatch { kind: WorkKind::Reconcile }
                    },
                },
                WatchInput::Closed => self.on_break(sample),
                _ => WatchAction::Nothing,
            },
            WatchPhase::Resyncing => match input {
                WatchInput::Listed { resource_version } => {
                    self.phase = WatchPhase::Watching;
                    self.failures = 0;
                    self.resource_version = resource_version.clone();
                    WatchAction::Watch { resource_version }
                },
                WatchInput::ListFailed => self.on_break(sample),
                _ => WatchAction::Nothing,
            },
        }
    }
}

/// After the stream broke the driver watches again only once a list has come
/// back, and then from the version that the list gave: no event between the
/// break and the list is lost.
pub proof fn lemma_relist_before_rewatch(d: WatchView, input: WatchInputView, sample: u64)
    requires
        d.phase == WatchPhase::Resyncing,
    ensures
        d.next(input, sample).0.phase == WatchPhase::Watching <==> input is Listed,
        input matches WatchInputView::Listed { resource_version } ==> d.next(input, sample).1
            == (WatchActionView::Watch { resource_version }),
        d.next(WatchInputView::Closed, sample) == (d, WatchActionView::Nothing),
{
}

/// Every break of the stream, by an error event or by its end, leads to a
/// list after a wait of 0.8 to 36 seconds.
pub proof fn lemma_break_leads_to_list(d: WatchView, rv: Seq<char>, sample: u64)
    requires
        d.phase == WatchPhase::Watching,
    ensures
        d.next(WatchInputView::Closed, sample).0.phase == WatchPhase::Resyncing,
        d.next(WatchInputView::Closed, sample).1 is ListAfter,
        d.next(WatchInputView::Event { kind: EventKind::Error, resource_version: rv }, sample)
            == d.next(WatchInputView::Closed, sample),
        800 <= d.next(WatchInputView::Closed, sample).1->ListAfter_after_ms <= 36000,
{
    crate::backoff::lemma_backoff_bounds(d.failures as nat);
}

/// Every event that is not an error is handed to the work queue, a deletion
/// as a request to forget the workload.
pub proof fn lemma_events_are_dispatched(d: WatchView, kind: EventKind, rv: Seq<char>, sample: u64)
    requires
        d.phase == WatchPhase::Watching,
        kind != EventKind::Error,
    ensures
        d.next(WatchInputView::Event { kind, resource_version: rv }, sample).1
            == (WatchActionView::Dispatch { kind: work_of(kind) }),
        d.next(WatchInputView::Event { kind, resource_version: rv }, sample).0.resource_version
            == rv,
        d.next(WatchInputView::Event { kind, resource_version: rv }, sample).0.phase
            == WatchPhase::Watching,
{
}

} // verus!
