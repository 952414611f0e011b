//! A string-keyed registry: the shared shape of the relay's id-indexed
//! tables (sessions, connections, pending requests). Behaves as a
//! mathematical map from key contents to values, with the keys
//! enumerable for sweeps.

use vstd::prelude::*;
use crate::strfmt::str_views;

verus! {

/// No two entries share key contents.
pub open spec fn unique_keys<V>(s: Seq<(String, V)>) -> bool {
    forall|i: int, j: int| 0 <= i < j < s.len() ==> s[i].0@ != s[j].0@
}

/// The map an entry sequence denotes; later entries win, though a registry
/// never holds two entries with one key.
pub open spec fn seq_to_map<V>(s: Seq<(String, V)>) -> Map<Seq<char>, V>
    decreases s.len(),
{
    if s.len() == 0 {
        Map::empty()
    } else {
        seq_to_map(s.drop_last()).insert(s.last().0@, s.last().1)
    }
}

pub proof fn lemma_seq_to_map_dom<V>(s: Seq<(String, V)>, k: Seq<char>)
    ensures
        seq_to_map(s).contains_key(k) <==> (exists|i: int| 0 <= i < s.len() && s[i].0@ == k),
    decreases s.len(),
{
    if s.len() > 0 {
        lemma_seq_to_map_dom(s.drop_last(), k);
        if s.last().0@ == k {
            assert(s[s.len() - 1].0@ == k);
        } else {
            if exists|i: int| 0 <= i < s.drop_last().len() && s.drop_last()[i].0@ == k {
                let i = choose|i: int| 0 <= i < s.drop_last().len() && s.drop_last()[i].0@ == k;
                assert(s[i].0@ == k);
            }
            if exists|i: int| 0 <= i < s.len() && s[i].0@ == k {
                let i = choose|i: int| 0 <= i < s.len() && s[i].0@ == k;
                assert(i < s.len() - 1);
                assert(s.drop_last()[i].0@ == k);
            }
        }
    }
}

pub proof fn lemma_seq_to_map_index<V>(s: Seq<(String, V)>, i: int)
    requires
        unique_keys(s),
        0 <= i < s.len(),
    ensures
        seq_to_map(s).contains_key(s[i].0@),
        seq_to_map(s)[s[i].0@] == s[i].1,
    decreases s.len(),
{
    if i < s.len() - 1 {
        assert(unique_keys(s.drop_last()));
        lemma_seq_to_map_index(s.drop_last(), i);
        assert(s.drop_last()[i] == s[i]);
        assert(s.last().0@ != s[i].0@);
    }
}

pub proof fn lemma_seq_to_map_len<V>(s: Seq<(String, V)>)
    requires
        unique_keys(s),
    ensures
        seq_to_map(s).dom().finite(),
        seq_to_map(s).dom().len() == s.len(),
    decreases s.len(),
{
    if s.len() > 0 {
        assert(unique_keys(s.drop_last()));
        lemma_seq_to_map_len(s.drop_last());
        lemma_seq_to_map_dom(s.drop_last(), s.last().0@);
        assert(!seq_to_map(s.drop_last()).contains_key(s.last().0@)) by {
            if exists|i: int|
                0 <= i < s.drop_last().len() && s.drop_last()[i].0@ == s.last().0@ {
                let i = choose|i: int|
                    0 <= i < s.drop_last().len() && s.drop_last()[i].0@ == s.last().0@;
                assert(s[i].0@ == s[s.len() - 1].0@);
            }
        }
    }
}

pub proof fn lemma_seq_to_map_remove<V>(s: Seq<(String, V)>, i: int)
    requires
        unique_keys(s),
        0 <= i < s.len(),
    ensures
        seq_to_map(s.remove(i)) == seq_to_map(s).remove(s[i].0@),
    decreases s.len(),
{
    let k = s[i].0@;
    if i == s.len() - 1 {
        assert(s.remove(i) =~= s.drop_last());
        lemma_seq_to_map_dom(s.drop_last(), k);
        assert(!seq_to_map(s.drop_last()).contains_key(k)) by {
            if exists|j: int| 0 <= j < s.drop_last().len() && s.drop_last()[j].0@ == k {
                let j = choose|j: int| 0 <= j < s.drop_last().len() && s.drop_last()[j].0@ == k;
                assert(s[j].0@ == s[i].0@);
            }
        }
        assert(seq_to_map(s.remove(i)) =~= seq_to_map(s).remove(k));
    } else {
        let t = s.remove(i);
        assert(t.len() == s.len() - 1);
        assert(t.drop_last() =~= s.drop_last().remove(i));
        assert(t.last() == s.last());
        assert(unique_keys(s.drop_last()));
        lemma_seq_to_map_remove(s.drop_last(), i);
        assert(s.drop_last()[i] == s[i]);
        assert(seq_to_map(t) == seq_to_map(s.drop_last().remove(i)).insert(
            s.last().0@,
            s.last().1,
        ));
        assert(s.last().0@ != k);
        assert(seq_to_map(s.drop_last()).remove(k).insert(s.last().0@, s.last().1)
            =~= seq_to_map(s.drop_last()).insert(s.last().0@, s.last().1).remove(k));
    }
}

/// A registry of values keyed by strings. Its view is the map from key
/// contents to values; no key occurs twice.
pub struct Registry<V> {
    entries: Vec<(String, V)>,
}

impl<V> View for Registry<V> {
    type V = Map<Seq<char>, V>;

    closed spec fn view(&self) -> Map<Seq<char>, V> {
        seq_to_map(self.entries@)
    }
}

impl<V> Registry<V> {
    /// Well-formed: no key occurs twice. Established by [`Registry::new`]
    /// and preserved by every operation.
    pub closed spec fn wf(self) -> bool {
        unique_keys(self.entries@)
    }

    /// The empty registry.
    pub fn new() -> (r: Self)
        ensures
            r.wf(),
            r@ == Map::<Seq<char>, V>::empty(),
    {
        Registry { entries: Vec::new() }
    }

    /// How many entries the registry holds.
    pub fn len(&self) -> (r: usize)
        requires
            self.wf(),
        ensures
            r == self@.len(),
    {
        proof {
            lemma_seq_to_map_len(self.entries@);
        }
        self.entries.len()
    }

    /// Whether the registry holds no entry.
    pub fn is_empty(&self) -> (r: bool)
        requires
            self.wf(),
        ensures
            r == self@.is_empty(),
    {
        proof {
            lemma_seq_to_map_len(self.entries@);
            if self.entries@.len() == 0 {
                assert(self@ =~= Map::<Seq<char>, V>::empty());
            } else {
                assert(self@.dom().len() != 0);
                assert(!(self@ =~= Map::<Seq<char>, V>::empty()));
            }
        }
        self.entries.len() == 0
    }

    fn find(&self, key: &str) -> (r: Option<usize>)
        ensures
            match r {
                Some(i) => i < self.entries@.len() && self.entries@[i as int].0@ == key@,
                None => forall|i: int| 0 <= i < self.entries@.len() ==> self.entries@[i].0@ != key@,
            },
    {
        let n = self.entries.len();
        let mut i: usize = 0;
        while i < n
            invariant
                n == self.entries@.len(),
                i <= n,
                forall|j: int| 0 <= j < i ==> self.entries@[j].0@ != key@,
            decreases n - i,
        {
            if crate::strfmt::str_eq(self.entries[i].0.as_str(), key) {
                return Some(i);
            }
            i += 1;
        }
        None
    }

    /// Whether the registry holds an entry for `key`.
    pub fn contains_key(&self, key: &str) -> (r: bool)
        requires
            self.wf(),
        ensures
            r == self@.contains_key(key@),
    {
        proof {
            lemma_seq_to_map_dom(self.entries@, key@);
        }
        self.find(key).is_some()
    }

    /// The value registered for `key`, if any.
    pub fn get(&self, key: &str) -> (r: Option<&V>)
        requires
            self.wf(),
        ensures
            match r {
                Some(v) => self@.contains_key(key@) && *v == self@[key@],
                None => !self@.contains_key(key@),
            },
    {
        proof {
            lemma_seq_to_map_dom(self.entries@, key@);
        }
        match self.find(key) {
            Some(i) => {
                proof {
                    lemma_seq_to_map_index(self.entries@, i as int);
                }
                Some(&self.entries[i].1)
            },
            None => None,
        }
    }

    /// Removes and returns the entry for `key`; the registry is unchanged
    /// when no such entry exists.
    pub fn remove(&mut self, key: &str) -> (r: Option<V>)
        requires
            old(self).wf(),
        ensures
            final(self).wf(),
            match r {
                Some(v) => old(self)@.contains_key(key@) && v == old(self)@[key@] && final(self)@
                    == old(self)@.remove(key@),
                None => !old(self)@.contains_key(key@) && final(self)@ == old(self)@,
            },
    {
        proof {
            lemma_seq_to_map_dom(self.entries@, key@);
        }
        match self.find(key) {
            Some(i) => {
                proof {
                    lemma_seq_to_map_index(self.entries@, i as int);
                    lemma_seq_to_map_remove(self.entries@, i as int);
                    assert(unique_keys(self.entries@.remove(i as int)));
                }
                let entry = self.entries.remove(i);
                Some(entry.1)
            },
            None => None,
        }
    }

    /// Registers `value` under `key`, replacing any earlier entry.
    pub fn insert(&mut self, key: String, value: V)
        requires
            old(self).wf(),
        ensures
            final(self).wf(),
            final(self)@ == old(self)@.insert(key@, value),
    {
        let ghost m0 = self@;
        let _ = self.remove(key.as_str());
        proof {
            lemma_seq_to_map_dom(self.entries@, key@);
            assert(forall|i: int|
                0 <= i < self.entries@.len() ==> self.entries@[i].0@ != key@) by {
                assert(!seq_to_map(self.entries@).contains_key(key@));
                lemma_seq_to_map_dom(self.entries@, key@);
            }
            assert(unique_keys(self.entries@.push((key, value))));
        }
        let ghost before = self.entries@;
        self.entries.push((key, value));
        proof {
            assert(self.entries@.drop_last() =~= before);
            assert(self@ =~= m0.insert(key@, value));
        }
    }

    /// The keys currently registered, each exactly once.
    pub fn keys(&self) -> (r: Vec<String>)
        requires
            self.wf(),
        ensures
            str_views(r@).no_duplicates(),
            forall|i: int| 0 <= i < r@.len() ==> #[trigger] self@.contains_key(str_views(r@)[i]),
            forall|k: Seq<char>| #[trigger] self@.contains_key(k) ==> str_views(r@).contains(k),
            r@.len() == self@.len(),
    {
        let n = self.entries.len();
        let mut r: Vec<String> = Vec::new();
        let mut i: usize = 0;
        while i < n
            invariant
                n == self.entries@.len(),
                i <= n,
                r@.len() == i,
                forall|j: int| 0 <= j < i ==> str_views(r@)[j] == self.entries@[j].0@,
            decreases n - i,
        {
            let ghost r_pre = r@;
            let k = self.entries[i].0.clone();
            proof {
                assert(k@ == self.entries@[i as int].0@);
            }
            r.push(k);
            proof {
                assert forall|j: int| 0 <= j < i + 1 implies str_views(r@)[j]
                    == self.entries@[j].0@ by {
                    assert(str_views(r@)[j] == r@[j]@);
                    if j < i {
                        assert(str_views(r_pre)[j] == self.entries@[j].0@);
                        assert(str_views(r_pre)[j] == r_pre[j]@);
                        assert(r@[j] == r_pre[j]);
                    }
                }
            }
            i += 1;
        }
        proof {
            let kv = str_views(r@);
            assert forall|j: int| 0 <= j < kv.len() implies #[trigger] self@.contains_key(
                kv[j],
            ) by {
                lemma_seq_to_map_index(self.entries@, j);
            }
            assert(kv.no_duplicates());
            assert forall|k: Seq<char>| #[trigger] self@.contains_key(k) implies kv.contains(
                k,
            ) by {
                lemma_seq_to_map_dom(self.entries@, k);
                let j = choose|j: int| 0 <= j < self.entries@.len() && self.entries@[j].0@ == k;
                assert(kv[j] == k);
            }
            lemma_seq_to_map_len(self.entries@);
        }
        r
    }
}

} // verus!
