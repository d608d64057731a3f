//! A small association map with `String` keys.
//!
//! The migration runner and the sync manager both track per-name state
//! (namespace → schema version, table → sync state). This map stores the
//! entries in a vector with pairwise-distinct keys and presents them as a
//! `Map<Seq<char>, V>`, so their contracts can speak in terms of ordinary
//! mathematical maps.

use vstd::prelude::*;

verus! {

/// Map from string keys to values of type `V`, viewed as `Map<Seq<char>, V>`.
pub struct StrMap<V> {
    entries: Vec<(String, V)>,
}

/// The mathematical map described by an entry sequence: later entries win,
/// though the type invariant keeps keys distinct anyway.
spec fn entries_map<V>(s: Seq<(String, V)>) -> Map<Seq<char>, V>
    decreases s.len(),
{
    if s.len() == 0 {
        Map::empty()
    } else {
        entries_map(s.drop_last()).insert(s.last().0@, s.last().1)
    }
}

/// All keys in the entry sequence are pairwise distinct.
spec fn unique_keys<V>(s: Seq<(String, V)>) -> bool {
    forall|i: int, j: int| 0 <= i < j < s.len() ==> s[i].0@ != s[j].0@
}

proof fn lemma_map_absent<V>(s: Seq<(String, V)>, k: Seq<char>)
    requires
        forall|i: int| 0 <= i < s.len() ==> s[i].0@ != k,
    ensures
        !entries_map(s).contains_key(k),
    decreases s.len(),
{
    if s.len() > 0 {
        assert(forall|i: int| 0 <= i < s.drop_last().len() ==> s.drop_last()[i].0@ != k);
        lemma_map_absent(s.drop_last(), k);
        assert(s.last().0@ != k);
    }
}

proof fn lemma_map_found<V>(s: Seq<(String, V)>, i: int)
    requires
        unique_keys(s),
        0 <= i < s.len(),
    ensures
        entries_map(s).contains_key(s[i].0@),
        entries_map(s)[s[i].0@] == s[i].1,
    decreases s.len(),
{
    if i < s.len() - 1 {
        assert(unique_keys(s.drop_last()));
        lemma_map_found(s.drop_last(), i);
        assert(s.last().0@ != s[i].0@);
    }
}

proof fn lemma_map_update<V>(s: Seq<(String, V)>, i: int, e: (String, V))
    requires
        unique_keys(s),
        0 <= i < s.len(),
        e.0@ == s[i].0@,
    ensures
        entries_map(s.update(i, e)) == entries_map(s).insert(e.0@, e.1),
    decreases s.len(),
{
    let t = s.update(i, e);
    if i == s.len() - 1 {
        assert(t.drop_last() =~= s.drop_last());
        assert(entries_map(t) =~= entries_map(s).insert(e.0@, e.1));
    } else {
        assert(t.drop_last() =~= s.drop_last().update(i, e));
        assert(unique_keys(s.drop_last()));
        lemma_map_update(s.drop_last(), i, e);
        assert(s.last().0@ != e.0@);
        assert(entries_map(t) =~= entries_map(s).insert(e.0@, e.1));
    }
}

impl<V> View for StrMap<V> {
    type V = Map<Seq<char>, V>;

    closed spec fn view(&self) -> Map<Seq<char>, V> {
        entries_map(self.entries@)
    }
}

impl<V> StrMap<V> {
    #[verifier::type_invariant]
    spec fn wf(self) -> bool {
        unique_keys(self.entries@)
    }

    /// An empty map.
    pub fn new() -> (r: Self)
        ensures
            r@ == Map::<Seq<char>, V>::empty(),
    {
        StrMap { entries: Vec::new() }
    }

    /// Look the key up, or `None` when it is not bound.
    pub fn get(&self, key: &str) -> (r: Option<&V>)
        ensures
            match r {
                Some(v) => self@.contains_key(key@) && *v == self@[key@],
                None => !self@.contains_key(key@),
            },
    {
        proof {
            use_type_invariant(self);
        }
        let k: String = key.to_owned();
        let n = self.entries.len();
        let mut i: usize = 0;
        while i < n
            invariant
                n == self.entries.len(),
                i <= n,
                k@ == key@,
                unique_keys(self.entries@),
                forall|j: int| 0 <= j < i ==> self.entries@[j].0@ != key@,
            decreases n - i,
        {
            if self.entries[i].0 == k {
                proof {
                    lemma_map_found(self.entries@, i as int);
                }
                return Some(&self.entries[i].1);
            }
            i += 1;
        }
        proof {
            lemma_map_absent(self.entries@, key@);
        }
        None
    }

    /// Bind the key to the value, replacing any earlier binding.
    pub fn set(&mut self, key: &str, value: V)
        ensures
            final(self)@ == old(self)@.insert(key@, value),
    {
        proof {
            use_type_invariant(&*self);
        }
        let mut entries: Vec<(String, V)> = Vec::new();
        core::mem::swap(&mut entries, &mut self.entries);
        let ghost s0 = entries@;
        let k: String = key.to_owned();
        let n = entries.len();
        let mut i: usize = 0;
        while i < n
            invariant
                entries@ == s0,
                s0 == old(self).entries@,
                n == s0.len(),
                i <= n,
                k@ == key@,
                unique_keys(s0),
                forall|j: int| 0 <= j < i ==> s0[j].0@ != key@,
            decreases n - i,
        {
            if entries[i].0 == k {
                entries[i] = (k, value);
                proof {
                    assert(entries@ == s0.update(i as int, entries@[i as int]));
                    lemma_map_update(s0, i as int, entries@[i as int]);
                }
                core::mem::swap(&mut entries, &mut self.entries);
                return;
            }
            i += 1;
        }
        entries.push((k, value));
        proof {
            assert(entries@.drop_last() =~= s0);
            assert(entries_map(entries@) =~= entries_map(s0).insert(key@, value));
        }
        core::mem::swap(&mut entries, &mut self.entries);
    }
}

} // verus!
