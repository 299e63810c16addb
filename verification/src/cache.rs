//! The node-local cache index: which datasets are on the node, which are being
//! fetched, and which failed a moment ago.
//!
//! The filesystem is the source of truth for presence. Whoever asks hands in
//! what a `stat` of the entry's path showed, and the index follows it.

use vstd::prelude::*;
use crate::cache_key::{cache_key, cache_key_of, cache_path, cache_path_of};
use crate::keyed::KeyedTable;

verus! {

/// Where a dataset stands on this node.
#[derive(Clone, Copy, Debug, PartialEq, Eq, Structural)]
pub enum Residency {
    Absent,
    Fetching,
    Present,
    Failed,
}

/// What the index records for one cache key.
#[derive(Clone, Copy, Debug, PartialEq, Eq, Structural)]
pub struct CacheEntry {
    pub state: Residency,
    /// When the dataset was seen on the node; meaningful while `Present`.
    pub fetched_at: u64,
    /// Size of the file on the node; meaningful while `Present`.
    pub size_bytes: u64,
    /// When the last fetch failed; meaningful while `Failed`.
    pub failed_at: u64,
}

/// The answer of a lookup.
#[derive(Clone, Debug, PartialEq, Eq)]
pub enum Lookup {
    Hit { path: String },
    Miss { cache_key: String, path: String },
}

/// What became of a request to start fetching.
#[derive(Clone, Copy, Debug, PartialEq, Eq, Structural)]
pub enum FetchStart {
    /// The entry went from absent to fetching: the caller starts the fetch.
    Started,
    /// A fetch is already under way.
    Joined,
    /// The last fetch failed and its cooldown has not passed.
    CoolingDown,
    /// The dataset is on the node.
    AlreadyPresent,
}

/// The index as a mathematical value.
pub struct CacheView {
    pub root: Seq<char>,
    pub cooldown_secs: u64,
    pub entries: Map<Seq<char>, CacheEntry>,
}

/// Whether a failure at `failed_at` has cooled down by `now`.
pub open spec fn cooled(failed_at: u64, cooldown_secs: u64, now: u64) -> bool {
    now >= failed_at + cooldown_secs
}

/// The entry recorded for a key that was never touched.
pub open spec fn untouched() -> CacheEntry {
    CacheEntry { state: Residency::Absent, fetched_at: 0, size_bytes: 0, failed_at: 0 }
}

impl CacheView {
    /// What is recorded under `key`; an unknown key is absent.
    pub open spec fn entry(self, key: Seq<char>) -> CacheEntry {
        if self.entries.contains_key(key) {
            self.entries[key]
        } else {
            untouched()
        }
    }

    /// The residency of `key` at time `now`: a failure reverts to absent once
    /// its cooldown has passed.
    pub open spec fn residency(self, key: Seq<char>, now: u64) -> Residency {
        let e = self.entry(key);
        if e.state == Residency::Failed && cooled(e.failed_at, self.cooldown_secs, now) {
            Residency::Absent
        } else {
            e.state
        }
    }

    /// The same index with `entry` recorded under `key`.
    pub open spec fn with(self, key: Seq<char>, entry: CacheEntry) -> CacheView {
        CacheView { entries: self.entries.insert(key, entry), ..self }
    }

    /// The index after it learned what is on disk for `key`: `Some(size)` for a
    /// file of that size, `None` for no file.
    pub open spec fn observed(self, key: Seq<char>, on_disk: Option<u64>, now: u64) -> CacheView {
        let e = self.entry(key);
        match on_disk {
            Some(size) => if e.state == Residency::Present {
                self.with(key, CacheEntry { size_bytes: size, ..e })
            } else {
                self.with(
                    key,
                    CacheEntry { state: Residency::Present, fetched_at: now, size_bytes: size, ..e },
                )
            },
            None => if e.state == Residency::Present {
                self.with(key, CacheEntry { state: Residency::Absent, ..e })
            } else {
                self
            },
        }
    }

    /// What a request to start fetching `key` at `now` comes to.
    pub open spec fn fetch_start(self, key: Seq<char>, now: u64) -> FetchStart {
        match self.residency(key, now) {
            Residency::Absent => FetchStart::Started,
            Residency::Fetching => FetchStart::Joined,
            Residency::Failed => FetchStart::CoolingDown,
            Residency::Present => FetchStart::AlreadyPresent,
        }
    }

    /// The index after a request to start fetching `key` at `now`.
    pub open spec fn begun(self, key: Seq<char>, now: u64) -> CacheView {
        if self.fetch_start(key, now) == FetchStart::Started {
            self.with(key, CacheEntry { state: Residency::Fetching, ..self.entry(key) })
        } else {
            self
        }
    }

    /// The index after the fetch of `key` was reported successful and the path
    /// was checked: present if the file is there, failed if it is not.
    pub open spec fn committed(self, key: Seq<char>, on_disk: Option<u64>, now: u64) -> CacheView {
        let e = self.entry(key);
        match on_disk {
            Some(size) => self.with(
                key,
                CacheEntry { state: Residency::Present, fetched_at: now, size_bytes: size, ..e },
            ),
            None => self.with(key, CacheEntry { state: Residency::Failed, failed_at: now, ..e }),
        }
    }

    /// The index after the fetch of `key` failed for good.
    pub open spec fn failed(self, key: Seq<char>, now: u64) -> CacheView {
        let e = self.entry(key);
        if e.state == Residency::Fetching {
            self.with(key, CacheEntry { state: Residency::Failed, failed_at: now, ..e })
        } else {
            self
        }
    }

    /// The index after the fetch of `key` was given up.
    pub open spec fn abandoned(self, key: Seq<char>) -> CacheView {
        let e = self.entry(key);
        if e.state == Residency::Fetching {
            self.with(key, CacheEntry { state: Residency::Absent, ..e })
        } else {
            self
        }
    }
}

/// The cache index of one node.
pub struct CacheIndex {
    root: String,
    cooldown_secs: u64,
    entries: KeyedTable<CacheEntry>,
}

impl View for CacheIndex {
    type V = CacheView;

    closed spec fn view(&self) -> CacheView {
        CacheView {
            root: self.root@,
            cooldown_secs: self.cooldown_secs,
            entries: self.entries@,
        }
    }
}

impl CacheIndex {
    /// The index's table is well formed.
    pub closed spec fn wf(&self) -> bool {
        self.entries.wf()
    }

    /// An empty index over `root`, where a failed fetch cools down for
    /// `cooldown_secs` seconds.
    pub fn new(root: &str, cooldown_secs: u64) -> (index: Self)
        ensures
            index.wf(),
            index@ == (CacheView {
                root: root@,
                cooldown_secs,
                entries: Map::<Seq<char>, CacheEntry>::empty(),
            }),
    {
        CacheIndex { root: root.to_owned(), cooldown_secs, entries: KeyedTable::new() }
    }

    /// The path at which the dataset `did` is kept: `<root>/<cache key>`.
    pub fn path_for(&self, did: &str) -> (path: String)
        ensures
            path@ == cache_path_of(self@.root, cache_key_of(did@)),
    {
        let key = cache_key(did);
        cache_path(self.root.as_str(), key.as_str())
    }

    /// What is recorded under `key`.
    pub fn entry(&self, key: &str) -> (e: CacheEntry)
        requires
            self.wf(),
        ensures
            e == self@.entry(key@),
    {
        match self.entries.get(key) {
            Some(e) => *e,
            None => CacheEntry {
                state: Residency::Absent,
                fetched_at: 0,
                size_bytes: 0,
                failed_at: 0,
            },
        }
    }

    /// The residency of `key` at `now`.
    pub fn residency(&self, key: &str, now: u64) -> (r: Residency)
        requires
            self.wf(),
        ensures
            r == self@.residency(key@, now),
    {
        let e = self.entry(key);
        match e.state {
            Residency::Failed => {
                if now >= e.failed_at && now - e.failed_at >= self.cooldown_secs {
                    Residency::Absent
                } else {
                    Residency::Failed
                }
            },
            Residency::Absent => Residency::Absent,
            Residency::Fetching => Residency::Fetching,
            Residency::Present => Residency::Present,
        }
    }

    /// Records what a `stat` of the entry's path showed for `key`: the size of
    /// the file, or `None` if there is no file. The index follows the disk.
    pub fn observe(&mut self, key: &str, on_disk: Option<u64>, now: u64)
        requires
            old(self).wf(),
        ensures
            final(self).wf(),
            final(self)@ == old(self)@.observed(key@, on_disk, now),
    {
        let e = self.entry(key);
        match on_disk {
            Some(size) => {
                let next = match e.state {
                    Residency::Present => CacheEntry {
                        state: e.state,
                        fetched_at: e.fetched_at,
                        size_bytes: size,
                        failed_at: e.failed_at,
                    },
                    _ => CacheEntry {
                        state: Residency::Present,
                        fetched_at: now,
                        size_bytes: size,
                        failed_at: e.failed_at,
                    },
                };
                self.entries.insert(key, next);
            },
            None => {
                match e.state {
                    Residency::Present => {
                        self.entries.insert(
                            key,
                            CacheEntry {
                                state: Residency::Absent,
                                fetched_at: e.fetched_at,
                                size_bytes: e.size_bytes,
                                failed_at: e.failed_at,
                            },
                        );
                    },
                    _ => {},
                }
            },
        }
    }

    /// Answers hit or miss for `did`. `on_disk` is what a `stat` of
    /// `path_for(did)` showed: the size of the file, or `None` if there is no
    /// file. A file counts as a hit whatever the index held before, and the
    /// index follows the disk.
    pub fn lookup(&mut self, did: &str, on_disk: Option<u64>, now: u64) -> (found: Lookup)
        requires
            old(self).wf(),
        ensures
            final(self).wf(),
            final(self)@ == old(self)@.observed(cache_key_of(did@), on_disk, now),
            match found {
                Lookup::Hit { path } => on_disk is Some && path@ == cache_path_of(
                    old(self)@.root,
                    cache_key_of(did@),
                ),
                Lookup::Miss { cache_key, path } => on_disk is None && cache_key@ == cache_key_of(
                    did@,
                ) && path@ == cache_path_of(old(self)@.root, cache_key_of(did@)),
            },
    {
        let key = cache_key(did);
        let path = cache_path(self.root.as_str(), key.as_str());
        self.observe(key.as_str(), on_disk, now);
        match on_disk {
            Some(_) => Lookup::Hit { path },
            None => Lookup::Miss { cache_key: key, path },
        }
    }

    /// Asks to start fetching `key`. Only an absent entry, or a failed one
    /// whose cooldown has passed, goes to fetching.
    pub fn begin_fetch(&mut self, key: &str, now: u64) -> (start: FetchStart)
        requires
            old(self).wf(),
        ensures
            final(self).wf(),
            start == old(self)@.fetch_start(key@, now),
            final(self)@ == old(self)@.begun(key@, now),
    {
        match self.residency(key, now) {
            Residency::Absent => {
                let e = self.entry(key);
                self.entries.insert(
                    key,
                    CacheEntry {
                        state: Residency::Fetching,
                        fetched_at: e.fetched_at,
                        size_bytes: e.size_bytes,
                        failed_at: e.failed_at,
                    },
                );
                FetchStart::Started
            },
            Residency::Fetching => FetchStart::Joined,
            Residency::Failed => FetchStart::CoolingDown,
            Residency::Present => FetchStart::AlreadyPresent,
        }
    }

    /// Publishes a fetch that was reported successful. `on_disk` is what a
    /// `stat` of the entry's path showed after the report: with a file the
    /// entry is present, without one the fetch counts as failed. The result
    /// tells whether the entry is present.
    pub fn commit(&mut self, key: &str, on_disk: Option<u64>, now: u64) -> (present: bool)
        requires
            old(self).wf(),
        ensures
            final(self).wf(),
            present == on_disk is Some,
            final(self)@ == old(self)@.committed(key@, on_disk, now),
    {
        let e = self.entry(key);
        match on_disk {
            Some(size) => {
                self.entries.insert(
                    key,
                    CacheEntry {
                        state: Residency::Present,
                        fetched_at: now,
                        size_bytes: size,
                        failed_at: e.failed_at,
                    },
                );
                true
            },
            None => {
                self.entries.insert(
                    key,
                    CacheEntry {
                        state: Residency::Failed,
                        fetched_at: e.fetched_at,
                        size_bytes: e.size_bytes,
                        failed_at: now,
                    },
                );
                false
            },
        }
    }

    /// Records that the fetch of `key` failed for good.
    pub fn fail(&mut self, key: &str, now: u64)
        requires
            old(self).wf(),
        ensures
            final(self).wf(),
            final(self)@ == old(self)@.failed(key@, now),
    {
        let e = self.entry(key);
        match e.state {
            Residency::Fetching => {
                self.entries.insert(
                    key,
                    CacheEntry {
                        state: Residency::Failed,
                        fetched_at: e.fetched_at,
                        size_bytes: e.size_bytes,
                        failed_at: now,
                    },
                );
            },
            _ => {},
        }
    }

    /// Records that the fetch of `key` was given up before it ended.
    pub fn abandon(&mut self, key: &str)
        requires
            old(self).wf(),
        ensures
            final(self).wf(),
            final(self)@ == old(self)@.abandoned(key@),
    {
        let e = self.entry(key);
        match e.state {
            Residency::Fetching => {
                self.entries.insert(
                    key,
                    CacheEntry {
                        state: Residency::Absent,
                        fetched_at: e.fetched_at,
                        size_bytes: e.size_bytes,
                        failed_at: e.failed_at,
                    },
                );
            },
            _ => {},
        }
    }
}

/// A lookup leaves an entry present exactly when the file is on disk: no
/// entry is present without its file, and none with a file is anything else.
pub proof fn lemma_lookup_follows_disk(index: CacheView, key: Seq<char>, on_disk: Option<u64>, now: u64)
    ensures
        index.observed(key, on_disk, now).entry(key).state == Residency::Present <==> on_disk is Some,
        forall|other: Seq<char>|
            other != key ==> index.observed(key, on_disk, now).entry(other) == index.entry(other),
{
}

/// A fetch starts at most once: right after a start, every further request
/// for the same key joins the fetch under way.
pub proof fn lemma_fetch_starts_once(index: CacheView, key: Seq<char>, now: u64, later: u64)
    requires
        index.fetch_start(key, now) == FetchStart::Started,
    ensures
        index.begun(key, now).fetch_start(key, later) == FetchStart::Joined,
        index.begun(key, now).begun(key, later) == index.begun(key, now),
{
}

/// A failed entry turns away new fetches until its cooldown has passed, and
/// admits one from then on.
pub proof fn lemma_failure_cools_down(index: CacheView, key: Seq<char>, failed_at: u64, now: u64)
    requires
        index.entry(key).state == Residency::Fetching,
    ensures
        index.failed(key, failed_at).fetch_start(key, now) == (if cooled(
            failed_at,
            index.cooldown_secs,
            now,
        ) {
            FetchStart::Started
        } else {
            FetchStart::CoolingDown
        }),
{
}

} // verus!
