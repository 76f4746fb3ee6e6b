//! A string-keyed association table with a mathematical map as its view.
//!
//! The state store, the bounds store, the browser registry and the download
//! cancellation registry are all lock-protected tables keyed by an opaque id;
//! this module gives them one verified representation.

use vstd::prelude::*;
use crate::strutil;

verus! {

/// No two entries share a key.
pub open spec fn unique_keys(keys: Seq<String>) -> bool {
    forall|i: int, j: int| 0 <= i < j < keys.len() ==> (#[trigger] keys[i])@ != (#[trigger] keys[j])@
}

/// Some entry holds the key `k`.
pub open spec fn has_key(keys: Seq<String>, k: Seq<char>) -> bool {
    exists|i: int| 0 <= i < keys.len() && (#[trigger] keys[i])@ == k
}

/// The index of the entry holding `k`.
pub open spec fn key_index(keys: Seq<String>, k: Seq<char>) -> int {
    choose|i: int| 0 <= i < keys.len() && (#[trigger] keys[i])@ == k
}

/// The map described by parallel key and value sequences.
pub open spec fn kv_map<V: View>(keys: Seq<String>, vals: Seq<V>) -> Map<Seq<char>, V::V> {
    Map::new(
        |k: Seq<char>| has_key(keys, k),
        |k: Seq<char>| vals[key_index(keys, k)]@,
    )
}

proof fn lemma_unique_index<V: View>(keys: Seq<String>, vals: Seq<V>, i: int)
    requires
        keys.len() == vals.len(),
        unique_keys(keys),
        0 <= i < keys.len(),
    ensures
        kv_map(keys, vals).contains_key(keys[i]@),
        kv_map(keys, vals)[keys[i]@] == vals[i]@,
{
    let k = keys[i]@;
    assert(has_key(keys, k));
    let j = key_index(keys, k);
    assert(keys[j]@ == k);
    if i != j {
        assert(false);
    }
}

proof fn lemma_insert_push<V: View>(keys: Seq<String>, vals: Seq<V>, ks: String, v: V)
    requires
        keys.len() == vals.len(),
        unique_keys(keys),
        !has_key(keys, ks@),
    ensures
        unique_keys(keys.push(ks)),
        kv_map(keys.push(ks), vals.push(v)) =~= kv_map(keys, vals).insert(ks@, v@),
{
    let keys2 = keys.push(ks);
    let vals2 = vals.push(v);
    let n = keys.len() as int;
    assert forall|i: int, j: int| 0 <= i < j < keys2.len() implies (#[trigger] keys2[i])@
        != (#[trigger] keys2[j])@ by {
        if j == n {
            assert(keys2[i]@ == keys[i]@);
        }
    }
    let m1 = kv_map(keys2, vals2);
    let m2 = kv_map(keys, vals).insert(ks@, v@);
    assert forall|k: Seq<char>| m1.contains_key(k) implies m2.contains_key(k) by {
        let i = choose|i: int| 0 <= i < keys2.len() && (#[trigger] keys2[i])@ == k;
        if i < n {
            assert(keys[i]@ == k);
        }
    }
    assert forall|k: Seq<char>| m2.contains_key(k) implies m1.contains_key(k) by {
        if k == ks@ {
            assert(keys2[n]@ == k);
        } else {
            let i = choose|i: int| 0 <= i < keys.len() && (#[trigger] keys[i])@ == k;
            assert(keys2[i]@ == k);
        }
    }
    assert forall|k: Seq<char>| m1.contains_key(k) implies m1[k] == m2[k] by {
        let i = key_index(keys2, k);
        assert(keys2[i]@ == k);
        if k == ks@ {
            if i < n {
                assert(keys[i]@ == ks@);
                assert(false);
            }
            assert(m1[k] == v@);
        } else {
            assert(i < n);
            assert(keys[i]@ == k);
            let j = key_index(keys, k);
            assert(keys[j]@ == k);
            if i != j {
                assert(false);
            }
            assert(m1[k] == vals[i]@);
        }
    }
}

proof fn lemma_update_value<V: View>(keys: Seq<String>, vals: Seq<V>, i: int, v: V)
    requires
        keys.len() == vals.len(),
        unique_keys(keys),
        0 <= i < keys.len(),
    ensures
        kv_map(keys, vals.update(i, v)) =~= kv_map(keys, vals).insert(keys[i]@, v@),
{
    let vals2 = vals.update(i, v);
    let m1 = kv_map(keys, vals2);
    let m2 = kv_map(keys, vals).insert(keys[i]@, v@);
    assert forall|k: Seq<char>| m1.contains_key(k) implies m1[k] == m2[k] by {
        let j = key_index(keys, k);
        assert(keys[j]@ == k);
        if k == keys[i]@ {
            if i != j {
                assert(false);
            }
            assert(m1[k] == v@);
        } else {
            assert(j != i);
            assert(m1[k] == vals[j]@);
        }
    }
}

proof fn lemma_remove_at<V: View>(keys: Seq<String>, vals: Seq<V>, i: int)
    requires
        keys.len() == vals.len(),
        unique_keys(keys),
        0 <= i < keys.len(),
    ensures
        unique_keys(keys.remove(i)),
        kv_map(keys.remove(i), vals.remove(i)) =~= kv_map(keys, vals).remove(keys[i]@),
{
    let keys2 = keys.remove(i);
    let vals2 = vals.remove(i);
    let n = keys.len() as int;
    assert forall|a: int, b: int| 0 <= a < b < keys2.len() implies (#[trigger] keys2[a])@
        != (#[trigger] keys2[b])@ by {
        let a0: int = if a < i { a } else { a + 1 };
        let b0: int = if b < i { b } else { b + 1 };
        assert(keys2[a]@ == keys[a0]@);
        assert(keys2[b]@ == keys[b0]@);
    }
    let m1 = kv_map(keys2, vals2);
    let m2 = kv_map(keys, vals).remove(keys[i]@);
    assert forall|k: Seq<char>| m1.contains_key(k) implies m2.contains_key(k) by {
        let j = choose|j: int| 0 <= j < keys2.len() && (#[trigger] keys2[j])@ == k;
        let j0: int = if j < i { j } else { j + 1 };
        assert(keys[j0]@ == k);
        if k == keys[i]@ {
            assert(j0 != i);
            assert(false);
        }
    }
    assert forall|k: Seq<char>| m2.contains_key(k) implies m1.contains_key(k) by {
        let j = choose|j: int| 0 <= j < keys.len() && (#[trigger] keys[j])@ == k;
        assert(j != i);
        let j2: int = if j < i { j } else { j - 1 };
        assert(keys2[j2]@ == k);
    }
    assert forall|k: Seq<char>| m1.contains_key(k) implies m1[k] == m2[k] by {
        let j = key_index(keys2, k);
        assert(keys2[j]@ == k);
        let j0: int = if j < i { j } else { j + 1 };
        assert(keys[j0]@ == k);
        assert(j0 != i || k == keys[i]@);
        let j1 = key_index(keys, k);
        assert(keys[j1]@ == k);
        if j1 != j0 {
            assert(false);
        }
        assert(vals2[j]@ == vals[j0]@);
    }
}

/// A table of values keyed by id strings. Its view is the map from key
/// characters to value views; keys are kept unique.
pub struct KeyTable<V> {
    keys: Vec<String>,
    vals: Vec<V>,
}

impl<V: View> View for KeyTable<V> {
    type V = Map<Seq<char>, V::V>;

    closed spec fn view(&self) -> Map<Seq<char>, V::V> {
        kv_map(self.keys@, self.vals@)
    }
}

impl<V: View> KeyTable<V> {
    /// The representation invariant: parallel columns and unique keys.
    pub closed spec fn wf(&self) -> bool {
        self.keys@.len() == self.vals@.len() && unique_keys(self.keys@)
    }

    /// The key sequence, for contracts that need an enumeration order.
    pub closed spec fn spec_keys(&self) -> Seq<Seq<char>> {
        self.keys@.map_values(|s: String| s@)
    }

    pub closed spec fn spec_len(&self) -> nat {
        self.keys@.len()
    }

    /// An empty table.
    pub fn new() -> (r: Self)
        ensures
            r.wf(),
            r@ =~= Map::<Seq<char>, V::V>::empty(),
            r.spec_len() == 0,
    {
        let r = KeyTable { keys: Vec::new(), vals: Vec::new() };
        proof {
            assert forall|k: Seq<char>| !r@.contains_key(k) by {}
        }
        r
    }

    fn index_of(&self, k: &str) -> (r: Option<usize>)
        requires
            self.wf(),
        ensures
            match r {
                Some(i) => i < self.keys@.len() && self.keys@[i as int]@ == k@,
                None => !has_key(self.keys@, k@),
            },
    {
        let n = self.keys.len();
        let mut i: usize = 0;
        while i < n
            invariant
                n == self.keys@.len(),
                i <= n,
                forall|j: int| 0 <= j < i ==> (#[trigger] self.keys@[j])@ != k@,
            decreases n - i,
        {
            if strutil::str_eq(self.keys[i].as_str(), k) {
                return Some(i);
            }
            i += 1;
        }
        None
    }

    /// Number of entries; equals the cardinality of the key enumeration.
    pub fn len(&self) -> (r: usize)
        ensures
            r == self.spec_len(),
    {
        self.keys.len()
    }

    /// Whether an entry with key `k` exists.
    pub fn contains(&self, k: &str) -> (r: bool)
        requires
            self.wf(),
        ensures
            r == self@.contains_key(k@),
    {
        match self.index_of(k) {
            Some(i) => {
                proof {
                    assert(has_key(self.keys@, k@));
                }
                true
            },
            None => false,
        }
    }

    /// A borrowed view of the value stored under `k`.
    pub fn get(&self, k: &str) -> (r: Option<&V>)
        requires
            self.wf(),
        ensures
            match r {
                Some(v) => self@.contains_key(k@) && v@ == self@[k@],
                None => !self@.contains_key(k@),
            },
    {
        match self.index_of(k) {
            Some(i) => {
                proof {
                    lemma_unique_index(self.keys@, self.vals@, i as int);
                }
                Some(&self.vals[i])
            },
            None => None,
        }
    }

    /// Inserts or overwrites the value under `k`.
    pub fn insert(&mut self, k: String, v: V)
        requires
            old(self).wf(),
        ensures
            final(self).wf(),
            final(self)@ =~= old(self)@.insert(k@, v@),
    {
        match self.index_of(k.as_str()) {
            Some(i) => {
                proof {
                    lemma_update_value(self.keys@, self.vals@, i as int, v);
                }
                self.vals.set(i, v);
            },
            None => {
                proof {
                    lemma_insert_push(self.keys@, self.vals@, k, v);
                }
                self.keys.push(k);
                self.vals.push(v);
            },
        }
    }

    /// Removes the entry under `k`, if any; idempotent.
    pub fn remove(&mut self, k: &str)
        requires
            old(self).wf(),
        ensures
            final(self).wf(),
            final(self)@ =~= old(self)@.remove(k@),
    {
        match self.index_of(k) {
            Some(i) => {
                proof {
                    lemma_remove_at(self.keys@, self.vals@, i as int);
                }
                self.keys.remove(i);
                self.vals.remove(i);
            },
            None => {
                proof {
                    assert(!self@.contains_key(k@));
                    assert(self@ =~= self@.remove(k@));
                }
            },
        }
    }

    /// The key enumeration has exactly one position per entry.
    pub proof fn lemma_keys_len(&self)
        ensures
            self.spec_keys().len() == self.spec_len(),
    {
    }

    /// The key and value of the entry at position `i` in enumeration order.
    pub fn pair_at(&self, i: usize) -> (r: (&String, &V))
        requires
            self.wf(),
            i < self.spec_len(),
        ensures
            r.0@ == self.spec_keys()[i as int],
            self@.contains_key(r.0@),
            r.1@ == self@[r.0@],
    {
        proof {
            lemma_unique_index(self.keys@, self.vals@, i as int);
        }
        (&self.keys[i], &self.vals[i])
    }

    /// Clones out the list of keys, in enumeration order.
    pub fn key_list(&self) -> (r: Vec<String>)
        requires
            self.wf(),
        ensures
            r@.map_values(|s: String| s@) =~= self.spec_keys(),
            forall|i: int| 0 <= i < r@.len() ==> self@.contains_key((#[trigger] r@[i])@),
            forall|k: Seq<char>| self@.contains_key(k) ==> exists|i: int|
                0 <= i < r@.len() && (#[trigger] r@[i])@ == k,
    {
        let n = self.keys.len();
        let mut out: Vec<String> = Vec::new();
        let mut i: usize = 0;
        while i < n
            invariant
                self.wf(),
                n == self.keys@.len(),
                i <= n,
                out@.len() == i,
                forall|j: int| 0 <= j < i ==> (#[trigger] out@[j])@ == self.keys@[j]@,
            decreases n - i,
        {
            out.push(self.keys[i].clone());
            i += 1;
        }
        proof {
            assert(out@.map_values(|s: String| s@) =~= self.spec_keys());
            assert forall|i2: int| 0 <= i2 < out@.len() implies self@.contains_key(
                (#[trigger] out@[i2])@,
            ) by {
                assert(self.keys@[i2]@ == out@[i2]@);
                assert(has_key(self.keys@, out@[i2]@));
            }
            assert forall|k: Seq<char>| self@.contains_key(k) implies exists|i2: int|
                0 <= i2 < out@.len() && (#[trigger] out@[i2])@ == k by {
                let j = key_index(self.keys@, k);
                assert(out@[j]@ == k);
            }
        }
        out
    }
}

} // verus!
