//! A small map from text keys to values, kept in insertion order.
//!
//! No key occurs twice: that is the invariant every table of the gatekeeper
//! rests on (one cache entry, one in-flight ticket, one queue slot per key).

use vstd::prelude::*;
use crate::text::same_text;

verus! {

/// A map keyed by text. Its view is the mathematical map from each key's
/// characters to its value.
pub struct KeyedTable<T> {
    keys: Vec<String>,
    vals: Vec<T>,
}

impl<T> View for KeyedTable<T> {
    type V = Map<Seq<char>, T>;

    closed spec fn view(&self) -> Map<Seq<char>, T> {
        Map::new(
            |k: Seq<char>| self.key_seq().contains(k),
            |k: Seq<char>| self.vals@[self.key_seq().index_of(k)],
        )
    }
}

impl<T> KeyedTable<T> {
    /// The keys in insertion order, each by its characters.
    pub closed spec fn key_seq(&self) -> Seq<Seq<char>> {
        Seq::new(self.keys@.len(), |i: int| self.keys@[i]@)
    }

    /// Every key has a value and no key occurs twice.
    pub closed spec fn wf(&self) -> bool {
        &&& self.keys@.len() == self.vals@.len()
        &&& self.key_seq().no_duplicates()
    }

    /// The keys are exactly the domain of the view, and the view is finite.
    pub proof fn lemma_keys_are_domain(&self)
        requires
            self.wf(),
        ensures
            self.key_seq().no_duplicates(),
            self@.dom() == self.key_seq().to_set(),
            self@.dom().finite(),
            self@.dom().len() == self.key_seq().len(),
            forall|i: int|
                0 <= i < self.key_seq().len() ==> self@.contains_key(#[trigger] self.key_seq()[i]),
    {
        assert(self@.dom() =~= self.key_seq().to_set());
        self.key_seq().unique_seq_to_set();
        vstd::seq_lib::seq_to_set_is_finite(self.key_seq());
    }

    proof fn lemma_value_at(&self, i: int)
        requires
            self.wf(),
            0 <= i < self.keys@.len(),
        ensures
            self@.contains_key(self.key_seq()[i]),
            self@[self.key_seq()[i]] == self.vals@[i],
    {
        let k = self.key_seq()[i];
        assert(self.key_seq().contains(k));
        let j = self.key_seq().index_of(k);
        assert(self.key_seq()[j] == k);
    }

    /// The empty table.
    pub fn new() -> (t: Self)
        ensures
            t.wf(),
            t@ == Map::<Seq<char>, T>::empty(),
            t.key_seq().len() == 0,
    {
        let t = KeyedTable { keys: Vec::new(), vals: Vec::new() };
        assert(t@ =~= Map::<Seq<char>, T>::empty());
        t
    }

    /// How many keys the table holds.
    pub fn len(&self) -> (n: usize)
        requires
            self.wf(),
        ensures
            n == self@.dom().len(),
            n == self.key_seq().len(),
    {
        proof {
            self.lemma_keys_are_domain();
        }
        self.keys.len()
    }

    fn find(&self, key: &str) -> (r: Option<usize>)
        requires
            self.wf(),
        ensures
            match r {
                Some(i) => i < self.keys@.len() && self.key_seq()[i as int] == key@,
                None => !self.key_seq().contains(key@),
            },
    {
        let mut i: usize = 0;
        while i < self.keys.len()
            invariant
                i <= self.keys@.len(),
                forall|j: int| 0 <= j < i ==> self.key_seq()[j] != key@,
            decreases self.keys@.len() - i,
        {
            if same_text(self.keys[i].as_str(), key) {
                return Some(i);
            }
            i += 1;
        }
        None
    }

    /// The key and the value at position `i` of the insertion order.
    pub fn nth(&self, i: usize) -> (r: (&String, &T))
        requires
            self.wf(),
            i < self.key_seq().len(),
        ensures
            r.0@ == self.key_seq()[i as int],
            self@.contains_key(r.0@),
            *r.1 == self@[r.0@],
    {
        proof {
            self.lemma_value_at(i as int);
        }
        (&self.keys[i], &self.vals[i])
    }

    /// Whether the table holds `key`.
    pub fn contains_key(&self, key: &str) -> (r: bool)
        requires
            self.wf(),
        ensures
            r == self@.contains_key(key@),
    {
        self.find(key).is_some()
    }

    /// The value under `key`, if the table holds it.
    pub fn get(&self, key: &str) -> (r: Option<&T>)
        requires
            self.wf(),
        ensures
            match r {
                Some(v) => self@.contains_key(key@) && *v == self@[key@],
                None => !self@.contains_key(key@),
            },
    {
        match self.find(key) {
            Some(i) => {
                proof {
                    self.lemma_value_at(i as int);
                }
                Some(&self.vals[i])
            },
            None => None,
        }
    }

    /// Puts `value` under `key`, replacing what was there.
    pub fn insert(&mut self, key: &str, value: T)
        requires
            old(self).wf(),
        ensures
            final(self).wf(),
            final(self)@ == old(self)@.insert(key@, value),
    {
        let ghost before = *self;
        match self.find(key) {
            Some(i) => {
                self.vals.set(i, value);
                proof {
                    assert(self.key_seq() =~= before.key_seq());
                    assert forall|k: Seq<char>| #[trigger]
                        self@.contains_key(k) implies self@[k] == before@.insert(key@, value)[k] by {
                        let j = self.key_seq().index_of(k);
                        if j != i as int {
                            assert(self.key_seq()[j] == k);
                        }
                    }
                    assert(self@ =~= before@.insert(key@, value));
                }
            },
            None => {
                self.keys.push(key.to_owned());
                self.vals.push(value);
                proof {
                    let n = before.keys@.len() as int;
                    assert(self.key_seq() =~= before.key_seq().push(key@));
                    assert forall|k: Seq<char>| #[trigger]
                        self@.contains_key(k) implies self@[k] == before@.insert(key@, value)[k] by {
                        let j = self.key_seq().index_of(k);
                        assert(self.key_seq()[j] == k);
                        if j != n {
                            assert(before.key_seq()[j] == k);
                            let j0 = before.key_seq().index_of(k);
                            assert(before.key_seq()[j0] == k);
                        }
                    }
                    assert forall|k: Seq<char>|
                        before@.insert(key@, value).contains_key(k) implies #[trigger]
                        self@.contains_key(k) by {
                        if k == key@ {
                            assert(self.key_seq()[n] == k);
                        } else {
                            let j0 = before.key_seq().index_of(k);
                            assert(before.key_seq()[j0] == k);
                            assert(self.key_seq()[j0] == k);
                        }
                    }
                    assert(self@ =~= before@.insert(key@, value));
                }
            },
        }
    }

    /// Takes `key` out of the table and hands back what was under it.
    pub fn remove(&mut self, key: &str) -> (r: Option<T>)
        requires
            old(self).wf(),
        ensures
            final(self).wf(),
            final(self)@ == old(self)@.remove(key@),
            match r {
                Some(v) => old(self)@.contains_key(key@) && v == old(self)@[key@],
                None => !old(self)@.contains_key(key@),
            },
    {
        let ghost before = *self;
        match self.find(key) {
            Some(i) => {
                proof {
                    before.lemma_value_at(i as int);
                }
                let _gone = self.keys.remove(i);
                let value = self.vals.remove(i);
                proof {
                    assert(self.key_seq() =~= before.key_seq().remove(i as int));
                    assert forall|k: Seq<char>| #[trigger]
                        self@.contains_key(k) implies before@.remove(key@).contains_key(k)
                        && self@[k] == before@.remove(key@)[k] by {
                        let j = self.key_seq().index_of(k);
                        assert(self.key_seq()[j] == k);
                        let j1 = if j < i { j } else { j + 1 };
                        assert(before.key_seq()[j1] == k);
                        let j0 = before.key_seq().index_of(k);
                        assert(before.key_seq()[j0] == k);
                    }
                    assert forall|k: Seq<char>|
                        before@.remove(key@).contains_key(k) implies #[trigger]
                        self@.contains_key(k) by {
                        let j0 = before.key_seq().index_of(k);
                        assert(before.key_seq()[j0] == k);
                        let j = if j0 < i { j0 } else { j0 - 1 };
                        assert(self.key_seq()[j] == k);
                    }
                    assert(self@ =~= before@.remove(key@));
                }
                Some(value)
            },
            None => {
                proof {
                    assert(self@ =~= before@.remove(key@));
                }
                None
            },
        }
    }
}

} // verus!
