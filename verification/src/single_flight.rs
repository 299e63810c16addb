//! The single-flight registry: concurrent requests for one dataset share one
//! fetch. The first caller for a key leads; the others follow and learn the
//! leader's outcome.

use vstd::prelude::*;
use crate::counting::{count_down, count_up, one_fewer, one_more};
use crate::keyed::KeyedTable;

verus! {

/// How a fetch ended.
#[derive(Clone, Copy, Debug, PartialEq, Eq, Structural)]
pub enum FetchOutcome {
    /// The dataset is on the node.
    Present,
    /// The fetch failed for good, or ran out of time.
    Failed,
}

/// The in-flight record of one cache key.
#[derive(Clone, Copy, Debug, PartialEq, Eq, Structural)]
pub struct Flight {
    /// Followers waiting on the leader.
    pub waiters: u64,
    /// When the leader took the ticket.
    pub started_at: u64,
}

/// What `acquire` hands to a caller: its role and the handle to wait on.
#[derive(Clone, Debug, PartialEq, Eq)]
pub struct Ticket {
    pub is_leader: bool,
    /// The cache key the completion signal is filed under.
    pub key: String,
    /// When the flight this ticket belongs to started.
    pub started_at: u64,
}

/// What the leader posts when its fetch is over.
#[derive(Clone, Copy, Debug, PartialEq, Eq, Structural)]
pub struct Completion {
    pub outcome: FetchOutcome,
    /// Followers to wake.
    pub waiters: u64,
    pub started_at: u64,
}

/// Whether a caller that acquires `key` leads: it does if no fetch for the
/// key is in flight.
pub open spec fn would_lead(flights: Map<Seq<char>, Flight>, key: Seq<char>) -> bool {
    !flights.contains_key(key)
}

/// The registry after `acquire(key)` at time `now`.
pub open spec fn acquired(flights: Map<Seq<char>, Flight>, key: Seq<char>, now: u64) -> Map<
    Seq<char>,
    Flight,
> {
    if flights.contains_key(key) {
        flights.insert(
            key,
            Flight { waiters: one_more(flights[key].waiters), started_at: flights[key].started_at },
        )
    } else {
        flights.insert(key, Flight { waiters: 0, started_at: now })
    }
}

/// The registry after a follower of `key` gave up waiting.
pub open spec fn left(flights: Map<Seq<char>, Flight>, key: Seq<char>) -> Map<Seq<char>, Flight> {
    if flights.contains_key(key) {
        flights.insert(
            key,
            Flight { waiters: one_fewer(flights[key].waiters), started_at: flights[key].started_at },
        )
    } else {
        flights
    }
}

/// The registry of fetches in flight, one per cache key.
pub struct SingleFlight {
    flights: KeyedTable<Flight>,
}

impl View for SingleFlight {
    type V = Map<Seq<char>, Flight>;

    closed spec fn view(&self) -> Map<Seq<char>, Flight> {
        self.flights@
    }
}

impl SingleFlight {
    /// The registry's table is well formed.
    pub closed spec fn wf(&self) -> bool {
        self.flights.wf()
    }

    /// The keys of the tickets in flight, in the order they were taken.
    pub closed spec fn tickets(&self) -> Seq<Seq<char>> {
        self.flights.key_seq()
    }

    /// A registry with nothing in flight.
    pub fn new() -> (r: Self)
        ensures
            r.wf(),
            r@ == Map::<Seq<char>, Flight>::empty(),
    {
        SingleFlight { flights: KeyedTable::new() }
    }

    /// Takes a ticket for `key`. The caller leads if nothing was in flight for
    /// the key, and follows otherwise.
    pub fn acquire(&mut self, key: &str, now: u64) -> (ticket: Ticket)
        requires
            old(self).wf(),
        ensures
            final(self).wf(),
            ticket.is_leader == would_lead(old(self)@, key@),
            ticket.key@ == key@,
            final(self)@ == acquired(old(self)@, key@, now),
            ticket.started_at == final(self)@[key@].started_at,
    {
        let (flight, is_leader) = match self.flights.get(key) {
            Some(f) => (Flight { waiters: count_up(f.waiters), started_at: f.started_at }, false),
            None => (Flight { waiters: 0, started_at: now }, true),
        };
        self.flights.insert(key, flight);
        Ticket { is_leader, key: key.to_owned(), started_at: flight.started_at }
    }

    /// The leader posts `outcome` and the ticket for `key` is destroyed. The
    /// result tells how many followers to wake; it is `None` if nothing was in
    /// flight for the key.
    pub fn complete(&mut self, key: &str, outcome: FetchOutcome) -> (done: Option<Completion>)
        requires
            old(self).wf(),
        ensures
            final(self).wf(),
            final(self)@ == old(self)@.remove(key@),
            match done {
                Some(c) => old(self)@.contains_key(key@) && c == (Completion {
                    outcome,
                    waiters: old(self)@[key@].waiters,
                    started_at: old(self)@[key@].started_at,
                }),
                None => !old(self)@.contains_key(key@),
            },
    {
        match self.flights.remove(key) {
            Some(f) => Some(Completion { outcome, waiters: f.waiters, started_at: f.started_at }),
            None => None,
        }
    }

    /// A follower of `key` stops waiting. The flight itself goes on.
    pub fn leave(&mut self, key: &str)
        requires
            old(self).wf(),
        ensures
            final(self).wf(),
            final(self)@ == left(old(self)@, key@),
    {
        let next = match self.flights.get(key) {
            Some(f) => Some(Flight { waiters: count_down(f.waiters), started_at: f.started_at }),
            None => None,
        };
        match next {
            Some(flight) => self.flights.insert(key, flight),
            None => {},
        }
    }

    /// Whether a fetch for `key` is in flight.
    pub fn in_flight(&self, key: &str) -> (r: bool)
        requires
            self.wf(),
        ensures
            r == self@.contains_key(key@),
    {
        self.flights.contains_key(key)
    }

    /// The in-flight record of `key`, if there is one.
    pub fn flight(&self, key: &str) -> (r: Option<Flight>)
        requires
            self.wf(),
        ensures
            r == (if self@.contains_key(key@) {
                Some(self@[key@])
            } else {
                None
            }),
    {
        match self.flights.get(key) {
            Some(f) => Some(*f),
            None => None,
        }
    }

    /// How many fetches are in flight.
    pub fn len(&self) -> (n: usize)
        requires
            self.wf(),
        ensures
            n == self@.dom().len(),
            n == self.tickets().len(),
    {
        self.flights.len()
    }

    /// At any time at most one fetch is in flight for a cache key: two tickets
    /// in the registry with the same key are the same ticket.
    pub proof fn lemma_one_flight_per_key(&self, i: int, j: int)
        requires
            self.wf(),
            0 <= i < self.tickets().len(),
            0 <= j < self.tickets().len(),
            self.tickets()[i] == self.tickets()[j],
        ensures
            i == j,
    {
        self.flights.lemma_keys_are_domain();
    }

    /// The tickets listed are exactly the keys in flight.
    pub proof fn lemma_tickets_are_flights(&self)
        requires
            self.wf(),
        ensures
            self@.dom() == self.tickets().to_set(),
            self.tickets().no_duplicates(),
    {
        self.flights.lemma_keys_are_domain();
    }
}

/// While a fetch for a key is in flight, every further `acquire` of that key
/// is a follower's: it adds a waiter and no ticket, whatever the time.
pub proof fn lemma_repeated_acquire_follows(
    flights: Map<Seq<char>, Flight>,
    key: Seq<char>,
    first: u64,
    second: u64,
)
    ensures
        !would_lead(acquired(flights, key, first), key),
        !would_lead(acquired(acquired(flights, key, first), key, second), key),
        acquired(acquired(flights, key, first), key, second).dom() == acquired(
            flights,
            key,
            first,
        ).dom(),
        acquired(acquired(flights, key, first), key, second)[key].started_at == acquired(
            flights,
            key,
            first,
        )[key].started_at,
{
    let once = acquired(flights, key, first);
    assert(acquired(once, key, second).dom() =~= once.dom());
}

/// One call on the registry.
pub enum FlightOp {
    Acquire { key: Seq<char>, now: u64 },
    Complete { key: Seq<char> },
    Leave { key: Seq<char> },
}

/// The registry after one call.
pub open spec fn applied(flights: Map<Seq<char>, Flight>, op: FlightOp) -> Map<Seq<char>, Flight> {
    match op {
        FlightOp::Acquire { key, now } => acquired(flights, key, now),
        FlightOp::Complete { key } => flights.remove(key),
        FlightOp::Leave { key } => left(flights, key),
    }
}

/// The registry after a history of calls, starting empty.
pub open spec fn registry_after(history: Seq<FlightOp>) -> Map<Seq<char>, Flight>
    decreases history.len(),
{
    if history.len() == 0 {
        Map::empty()
    } else {
        applied(registry_after(history.drop_last()), history.last())
    }
}

/// How many leaders of `key` a history leaves at work: each `acquire` that
/// found nothing in flight adds one, and a `complete` ends the flight.
pub open spec fn leaders_after(history: Seq<FlightOp>, key: Seq<char>) -> nat
    decreases history.len(),
{
    if history.len() == 0 {
        0
    } else {
        let earlier = history.drop_last();
        match history.last() {
            FlightOp::Acquire { key: k, now } => if k == key && would_lead(
                registry_after(earlier),
                key,
            ) {
                leaders_after(earlier, key) + 1
            } else {
                leaders_after(earlier, key)
            },
            FlightOp::Complete { key: k } => if k == key {
                0
            } else {
                leaders_after(earlier, key)
            },
            FlightOp::Leave { key: k } => leaders_after(earlier, key),
        }
    }
}

/// After any history of calls a key has one leader while its fetch is in
/// flight and none otherwise: never two.
pub proof fn lemma_at_most_one_leader(history: Seq<FlightOp>, key: Seq<char>)
    ensures
        leaders_after(history, key) <= 1,
        leaders_after(history, key) == 1 <==> registry_after(history).contains_key(key),
    decreases history.len(),
{
    if history.len() > 0 {
        lemma_at_most_one_leader(history.drop_last(), key);
    }
}

} // verus!
