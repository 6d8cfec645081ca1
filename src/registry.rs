//! A table of values keyed by text, kept in insertion order with each key
//! present at most once. Its view is a map from key texts to values.

use vstd::prelude::*;
use vstd::string::*;

verus! {

/// Values keyed by text.
pub struct Registry<T> {
    entries: Vec<(String, T)>,
}

/// The position of a key among the entries.
pub open spec fn key_at<T>(s: Seq<(String, T)>, i: int) -> Seq<char> {
    s[i].0@
}

/// Some entry holds key `k`.
pub open spec fn has_key<T>(s: Seq<(String, T)>, k: Seq<char>) -> bool {
    exists|i: int| 0 <= i < s.len() && #[trigger] key_at(s, i) == k
}

/// No key appears twice.
pub open spec fn keys_unique<T>(s: Seq<(String, T)>) -> bool {
    forall|i: int, j: int|
        0 <= i < s.len() && 0 <= j < s.len() && i != j ==> #[trigger] key_at(s, i) != #[trigger] key_at(s, j)
}

/// The map that a sequence of entries with unique keys stands for.
pub open spec fn map_of<T>(s: Seq<(String, T)>) -> Map<Seq<char>, T> {
    Map::new(
        |k: Seq<char>| has_key(s, k),
        |k: Seq<char>| s[choose|i: int| 0 <= i < s.len() && #[trigger] key_at(s, i) == k].1,
    )
}

proof fn lemma_value_at<T>(s: Seq<(String, T)>, i: int)
    requires
        keys_unique(s),
        0 <= i < s.len(),
    ensures
        map_of(s).contains_key(key_at(s, i)),
        map_of(s)[key_at(s, i)] == s[i].1,
{
    let k = key_at(s, i);
    assert(has_key(s, k));
    let j = choose|j: int| 0 <= j < s.len() && #[trigger] key_at(s, j) == k;
    assert(j == i);
}

impl<T> View for Registry<T> {
    type V = Map<Seq<char>, T>;

    closed spec fn view(&self) -> Map<Seq<char>, T> {
        map_of(self.entries@)
    }
}

impl<T> Registry<T> {
    /// The entries in insertion order.
    pub closed spec fn entry_seq(&self) -> Seq<(String, T)> {
        self.entries@
    }

    /// Keys are unique.
    pub closed spec fn wf(&self) -> bool {
        keys_unique(self.entries@)
    }

    /// An empty table.
    pub fn new() -> (r: Registry<T>)
        ensures
            r.wf(),
            r@ == Map::<Seq<char>, T>::empty(),
    {
        let r = Registry { entries: Vec::new() };
        assert(r@ =~= Map::<Seq<char>, T>::empty());
        r
    }

    /// The number of entries.
    pub fn entry_count(&self) -> (r: usize)
        ensures
            r == self.entry_seq().len(),
    {
        self.entries.len()
    }

    /// The key and value of the entry at position `i`.
    pub fn entry_at(&self, i: usize) -> (r: (&String, &T))
        requires
            self.wf(),
            i < self.entry_seq().len(),
        ensures
            r.0@ == key_at(self.entry_seq(), i as int),
            *r.1 == self.entry_seq()[i as int].1,
            self@.contains_key(r.0@),
            self@[r.0@] == *r.1,
    {
        proof { lemma_value_at(self.entries@, i as int); }
        (&self.entries[i as usize].0, &self.entries[i as usize].1)
    }

    /// Every key of the view stands at exactly one position of the entries,
    /// and the view holds the entry's value there.
    pub proof fn lemma_entries(&self)
        requires
            self.wf(),
        ensures
            keys_unique(self.entry_seq()),
            self@.len() == self.entry_seq().len(),
            forall|k: Seq<char>| #[trigger] self@.contains_key(k) <==> has_key(self.entry_seq(), k),
            forall|i: int|
                0 <= i < self.entry_seq().len() ==> #[trigger] self@[key_at(self.entry_seq(), i)]
                    == self.entry_seq()[i].1,
    {
        self.lemma_len();
        assert forall|i: int| 0 <= i < self.entry_seq().len() implies #[trigger] self@[key_at(
            self.entry_seq(),
            i,
        )] == self.entry_seq()[i].1 by {
            lemma_value_at(self.entries@, i);
        }
    }

    proof fn lemma_len(&self)
        requires
            self.wf(),
        ensures
            self@.len() == self.entries@.len(),
            self@.dom() == Set::new(|i: int| 0 <= i < self.entries@.len()).map(
                |i: int| key_at(self.entries@, i),
            ),
    {
        let s = self.entries@;
        let idx = Set::new(|i: int| 0 <= i < s.len());
        let f = |i: int| key_at(s, i);
        assert(self@.dom() =~= idx.map(f)) by {
            assert forall|k: Seq<char>| self@.dom().contains(k) implies idx.map(f).contains(k) by {
                let i = choose|i: int| 0 <= i < s.len() && #[trigger] key_at(s, i) == k;
                assert(idx.contains(i));
            }
            assert forall|k: Seq<char>| idx.map(f).contains(k) implies self@.dom().contains(k) by {
                let i = choose|i: int| idx.contains(i) && f(i) == k;
                assert(key_at(s, i) == k);
            }
        }
        vstd::set_lib::lemma_int_range(0, s.len() as int);
        assert(idx =~= vstd::set_lib::set_int_range(0, s.len() as int));
        assert forall|i: int, j: int| idx.contains(i) && idx.contains(j) && f(i) == f(j) implies i == j by {}
        vstd::set_lib::lemma_map_size(idx, idx.map(f), f);
    }

    /// Where `key` stands among the entries, if present.
    fn find(&self, key: &String) -> (r: Option<usize>)
        requires
            self.wf(),
        ensures
            match r {
                Some(i) => i < self.entries@.len() && key_at(self.entries@, i as int) == key@,
                None => !self@.contains_key(key@),
            },
    {
        let mut i: usize = 0;
        while i < self.entries.len()
            invariant
                i <= self.entries@.len(),
                forall|j: int| 0 <= j < i ==> key_at(self.entries@, j) != key@,
            decreases self.entries@.len() - i,
        {
            if self.entries[i].0 == *key {
                return Some(i);
            }
            i += 1;
        }
        None
    }

    /// Whether `key` is present.
    pub fn contains(&self, key: &str) -> (r: bool)
        requires
            self.wf(),
        ensures
            r == self@.contains_key(key@),
    {
        let k = String::from_str(key);
        match self.find(&k) {
            Some(i) => {
                proof { lemma_value_at(self.entries@, i as int); }
                true
            },
            None => false,
        }
    }

    /// The value under `key`, if present.
    pub fn get(&self, key: &str) -> (r: Option<&T>)
        requires
            self.wf(),
        ensures
            match r {
                Some(v) => self@.contains_key(key@) && *v == self@[key@],
                None => !self@.contains_key(key@),
            },
    {
        let k = String::from_str(key);
        match self.find(&k) {
            Some(i) => {
                proof { lemma_value_at(self.entries@, i as int); }
                Some(&self.entries[i].1)
            },
            None => None,
        }
    }

    /// Puts `value` under `key`, replacing what was there.
    pub fn insert(&mut self, key: &str, value: T)
        requires
            old(self).wf(),
        ensures
            final(self).wf(),
            final(self)@ == old(self)@.insert(key@, value),
    {
        let k = String::from_str(key);
        let ghost s0 = self.entries@;
        match self.find(&k) {
            Some(i) => {
                self.entries.set(i, (k, value));
                proof {
                    let s = self.entries@;
                    assert forall|a: int, b: int|
                        0 <= a < s.len() && 0 <= b < s.len() && a != b implies #[trigger] key_at(s, a)
                        != #[trigger] key_at(s, b) by {
                        assert(key_at(s0, a) != key_at(s0, b));
                    }
                    assert forall|kk: Seq<char>| #[trigger] has_key(s, kk) == (kk == key@ || has_key(s0, kk)) by {
                        if has_key(s0, kk) {
                            let j = choose|j: int| 0 <= j < s0.len() && #[trigger] key_at(s0, j) == kk;
                            assert(key_at(s, j) == kk);
                        }
                        if has_key(s, kk) {
                            let j = choose|j: int| 0 <= j < s.len() && #[trigger] key_at(s, j) == kk;
                            assert(key_at(s0, j) == kk);
                        }
                        if kk == key@ {
                            assert(key_at(s, i as int) == kk);
                        }
                    }
                    assert forall|kk: Seq<char>| has_key(s, kk) implies map_of(s)[kk]
                        == old(self)@.insert(key@, value)[kk] by {
                        let j = choose|j: int| 0 <= j < s.len() && #[trigger] key_at(s, j) == kk;
                        lemma_value_at(s, j);
                        if j != i {
                            lemma_value_at(s0, j);
                        }
                    }
                    assert(self@ =~= old(self)@.insert(key@, value));
                }
            },
            None => {
                self.entries.push((k, value));
                proof {
                    let s = self.entries@;
                    let n = s0.len() as int;
                    assert forall|a: int, b: int|
                        0 <= a < s.len() && 0 <= b < s.len() && a != b implies #[trigger] key_at(s, a)
                        != #[trigger] key_at(s, b) by {
                        if a < n && b < n {
                            assert(key_at(s0, a) != key_at(s0, b));
                        } else if a < n {
                            assert(has_key(s0, key_at(s0, a)));
                        } else {
                            assert(has_key(s0, key_at(s0, b)));
                        }
                    }
                    assert forall|kk: Seq<char>| #[trigger] has_key(s, kk) == (kk == key@ || has_key(s0, kk)) by {
                        if has_key(s0, kk) {
                            let j = choose|j: int| 0 <= j < s0.len() && #[trigger] key_at(s0, j) == kk;
                            assert(key_at(s, j) == kk);
                        }
                        if has_key(s, kk) {
                            let j = choose|j: int| 0 <= j < s.len() && #[trigger] key_at(s, j) == kk;
                            if j < n {
                                assert(key_at(s0, j) == kk);
                            }
                        }
                        if kk == key@ {
                            assert(key_at(s, n) == kk);
                        }
                    }
                    assert forall|kk: Seq<char>| has_key(s, kk) implies map_of(s)[kk]
                        == old(self)@.insert(key@, value)[kk] by {
                        let j = choose|j: int| 0 <= j < s.len() && #[trigger] key_at(s, j) == kk;
                        lemma_value_at(s, j);
                        if j < n {
                            lemma_value_at(s0, j);
                        }
                    }
                    assert(self@ =~= old(self)@.insert(key@, value));
                }
            },
        }
    }

    fn remove_at(&mut self, i: usize) -> (r: T)
        requires
            old(self).wf(),
            i < old(self).entries@.len(),
        ensures
            final(self).wf(),
            final(self)@ == old(self)@.remove(key_at(old(self).entries@, i as int)),
            old(self)@.contains_key(key_at(old(self).entries@, i as int)),
            r == old(self)@[key_at(old(self).entries@, i as int)],
    {
        let ghost s0 = self.entries@;
        let ghost key = key_at(s0, i as int);
        proof { lemma_value_at(s0, i as int); }
        let (_, v) = self.entries.remove(i);
        proof {
            let s = self.entries@;
            assert forall|a: int| 0 <= a < s.len() implies #[trigger] key_at(s, a) == key_at(
                s0,
                if a < i { a } else { a + 1 },
            ) by {}
            assert forall|a: int, b: int|
                0 <= a < s.len() && 0 <= b < s.len() && a != b implies #[trigger] key_at(s, a)
                != #[trigger] key_at(s, b) by {
                let a0 = if a < i { a } else { a + 1 };
                let b0 = if b < i { b } else { b + 1 };
                assert(key_at(s0, a0) != key_at(s0, b0));
            }
            assert forall|kk: Seq<char>| #[trigger] has_key(s, kk) == (kk != key && has_key(s0, kk)) by {
                if has_key(s0, kk) && kk != key {
                    let j = choose|j: int| 0 <= j < s0.len() && #[trigger] key_at(s0, j) == kk;
                    assert(j != i);
                    let j1 = if j < i { j } else { j - 1 };
                    assert(key_at(s, j1) == kk);
                }
                if has_key(s, kk) {
                    let j = choose|j: int| 0 <= j < s.len() && #[trigger] key_at(s, j) == kk;
                    let j0 = if j < i { j } else { j + 1 };
                    assert(key_at(s0, j0) == kk);
                    assert(j0 != i);
                    assert(key_at(s0, j0) != key_at(s0, i as int));
                }
            }
            assert forall|kk: Seq<char>| has_key(s, kk) implies map_of(s)[kk]
                == old(self)@.remove(key)[kk] by {
                let j = choose|j: int| 0 <= j < s.len() && #[trigger] key_at(s, j) == kk;
                lemma_value_at(s, j);
                let j0 = if j < i { j } else { j + 1 };
                lemma_value_at(s0, j0);
            }
            assert(self@ =~= old(self)@.remove(key));
        }
        v
    }

    /// Takes out the value under `key`, if present.
    pub fn remove(&mut self, key: &str) -> (r: Option<T>)
        requires
            old(self).wf(),
        ensures
            final(self).wf(),
            final(self)@ == old(self)@.remove(key@),
            match r {
                Some(v) => old(self)@.contains_key(key@) && v == old(self)@[key@],
                None => !old(self)@.contains_key(key@),
            },
    {
        let k = String::from_str(key);
        match self.find(&k) {
            Some(i) => Some(self.remove_at(i)),
            None => {
                assert(self@ =~= old(self)@.remove(key@));
                None
            },
        }
    }

    /// Takes out the value under `key`, which must be present.
    pub fn take(&mut self, key: &str) -> (r: T)
        requires
            old(self).wf(),
            old(self)@.contains_key(key@),
        ensures
            final(self).wf(),
            final(self)@ == old(self)@.remove(key@),
            r == old(self)@[key@],
    {
        let k = String::from_str(key);
        let i = match self.find(&k) {
            Some(i) => i,
            None => 0,
        };
        self.remove_at(i)
    }
}

} // verus!
