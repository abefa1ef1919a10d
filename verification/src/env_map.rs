//! An ordered map from environment variable names to values, kept sorted by
//! name with each name once, so that it lists its entries in the order of a
//! `BTreeMap<String, String>`.
use vstd::prelude::*;

use crate::text::{
    lemma_seq_less_irreflexive, lemma_seq_less_transitive, lemma_seq_less_trichotomy, less_than,
    seq_less, str_eq,
};

verus! {

/// Names strictly increasing along the sequence.
pub open spec fn keys_sorted(s: Seq<(Seq<char>, Seq<char>)>) -> bool {
    forall|i: int, j: int| 0 <= i < j < s.len() ==> seq_less(#[trigger] s[i].0, #[trigger] s[j].0)
}

/// Whether a name has an entry.
pub open spec fn has_key(s: Seq<(Seq<char>, Seq<char>)>, k: Seq<char>) -> bool {
    exists|i: int| 0 <= i < s.len() && #[trigger] s[i].0 == k
}

/// The position of a name's entry.
pub open spec fn key_index(s: Seq<(Seq<char>, Seq<char>)>, k: Seq<char>) -> int {
    choose|i: int| 0 <= i < s.len() && #[trigger] s[i].0 == k
}

/// The entries as a map from name to value.
pub open spec fn entries_map(s: Seq<(Seq<char>, Seq<char>)>) -> Map<Seq<char>, Seq<char>> {
    Map::new(|k: Seq<char>| has_key(s, k), |k: Seq<char>| s[key_index(s, k)].1)
}

/// The views of a vector of string pairs.
pub open spec fn pair_views(v: Seq<(String, String)>) -> Seq<(Seq<char>, Seq<char>)> {
    v.map_values(|p: (String, String)| (p.0@, p.1@))
}

/// Environment variables ordered by name.
#[derive(Debug)]
pub struct EnvMap {
    entries: Vec<(String, String)>,
}

impl View for EnvMap {
    type V = Seq<(Seq<char>, Seq<char>)>;

    /// The entries in order of name.
    closed spec fn view(&self) -> Seq<(Seq<char>, Seq<char>)> {
        pair_views(self.entries@)
    }
}

impl Clone for EnvMap {
    /// The same entries.
    fn clone(&self) -> (r: Self)
        ensures
            r@ == self@,
    {
        proof {
            use_type_invariant(self);
        }
        let mut entries: Vec<(String, String)> = Vec::new();
        let n = self.entries.len();
        let mut i: usize = 0;
        while i < n
            invariant
                n == self.entries@.len(),
                i <= n,
                pair_views(entries@) == pair_views(self.entries@).take(i as int),
            decreases n - i,
        {
            let ghost before = entries@;
            let k = self.entries[i].0.clone();
            let v = self.entries[i].1.clone();
            let ghost kv = (k@, v@);
            entries.push((k, v));
            assert(pair_views(entries@) =~= pair_views(before).push(kv));
            assert(pair_views(self.entries@).take(i + 1) =~= pair_views(self.entries@).take(
                i as int,
            ).push(kv));
            i = i + 1;
        }
        assert(pair_views(self.entries@).take(n as int) =~= pair_views(self.entries@));
        EnvMap { entries }
    }
}

impl EnvMap {
    /// Names are sorted and distinct.
    #[verifier::type_invariant]
    closed spec fn sorted(self) -> bool {
        keys_sorted(pair_views(self.entries@))
    }

    /// Names are sorted and distinct.
    pub open spec fn wf(&self) -> bool {
        keys_sorted(self@)
    }

    /// The entries as a map from name to value.
    pub open spec fn as_map(&self) -> Map<Seq<char>, Seq<char>> {
        entries_map(self@)
    }

    /// An empty map.
    pub fn new() -> (r: Self)
        ensures
            r.wf(),
            r@ == Seq::<(Seq<char>, Seq<char>)>::empty(),
    {
        let r = EnvMap { entries: Vec::new() };
        assert(r@ =~= Seq::<(Seq<char>, Seq<char>)>::empty());
        r
    }

    /// The number of entries.
    pub fn len(&self) -> (n: usize)
        ensures
            n == self@.len(),
    {
        self.entries.len()
    }

    /// The entries in order of name.
    pub fn entries(&self) -> (r: &Vec<(String, String)>)
        ensures
            pair_views(r@) == self@,
    {
        &self.entries
    }

    /// Sets `key` to `value`, replacing an earlier value of `key`.
    pub fn insert(&mut self, key: String, value: String)
        ensures
            old(self).wf(),
            final(self).wf(),
            exists|p: int|
                0 <= p <= old(self)@.len() && (forall|i: int|
                    0 <= i < p ==> seq_less(#[trigger] old(self)@[i].0, key@)) && (if p
                    < old(self)@.len() && old(self)@[p].0 == key@ {
                    final(self)@ == old(self)@.update(p, (key@, value@))
                } else {
                    &&& final(self)@ == old(self)@.insert(p, (key@, value@))
                    &&& forall|i: int|
                        p <= i < old(self)@.len() ==> seq_less(key@, #[trigger] old(self)@[i].0)
                }),
            final(self).as_map() == old(self).as_map().insert(key@, value@),
    {
        proof {
            use_type_invariant(&*self);
        }
        let ghost s0 = self@;
        let mut entries: Vec<(String, String)> = Vec::new();
        std::mem::swap(&mut entries, &mut self.entries);
        let n = entries.len();
        let mut p: usize = 0;
        while p < n && less_than(entries[p].0.as_str(), key.as_str())
            invariant
                n == entries@.len(),
                s0 == pair_views(entries@),
                p <= n,
                forall|i: int| 0 <= i < p ==> seq_less(#[trigger] s0[i].0, key@),
            decreases n - p,
        {
            p = p + 1;
        }
        let found = p < n && str_eq(entries[p].0.as_str(), key.as_str());
        let ghost kv = (key@, value@);
        if found {
            entries.set(p, (key, value));
            proof {
                assert(pair_views(entries@) =~= s0.update(p as int, kv));
                assert forall|i: int, j: int| 0 <= i < j < pair_views(entries@).len() implies seq_less(
                    #[trigger] pair_views(entries@)[i].0,
                    #[trigger] pair_views(entries@)[j].0,
                ) by {
                    assert(s0[i].0 == pair_views(entries@)[i].0);
                    assert(s0[j].0 == pair_views(entries@)[j].0);
                }
                Self::lemma_map_update(s0, p as int, kv);
            }
        } else {
            proof {
                assert forall|i: int| p <= i < s0.len() implies seq_less(
                    key@,
                    #[trigger] s0[i].0,
                ) by {
                    lemma_seq_less_trichotomy(s0[p as int].0, key@);
                    if i > p {
                        assert(seq_less(s0[p as int].0, s0[i].0));
                        lemma_seq_less_trichotomy(key@, s0[p as int].0);
                        if key@ != s0[p as int].0 {
                            lemma_seq_less_transitive(key@, s0[p as int].0, s0[i].0);
                        }
                    }
                }
            }
            entries.insert(p, (key, value));
            proof {
                assert(pair_views(entries@) =~= s0.insert(p as int, kv));
                assert forall|i: int, j: int| 0 <= i < j < pair_views(entries@).len() implies seq_less(
                    #[trigger] pair_views(entries@)[i].0,
                    #[trigger] pair_views(entries@)[j].0,
                ) by {
                    if j < p {
                        assert(pair_views(entries@)[i] == s0[i] && pair_views(entries@)[j] == s0[j]);
                    } else if j == p {
                        assert(pair_views(entries@)[i] == s0[i]);
                    } else if i < p {
                        assert(pair_views(entries@)[i] == s0[i] && pair_views(entries@)[j] == s0[j - 1]);
                        lemma_seq_less_transitive(s0[i].0, key@, s0[j - 1].0);
                    } else if i == p {
                        assert(pair_views(entries@)[j] == s0[j - 1]);
                    } else {
                        assert(pair_views(entries@)[i] == s0[i - 1] && pair_views(entries@)[j] == s0[j - 1]);
                    }
                }
                Self::lemma_map_insert(s0, p as int, kv);
            }
        }
        self.entries = entries;
    }

    proof fn lemma_unique(s: Seq<(Seq<char>, Seq<char>)>, i: int, j: int)
        requires
            keys_sorted(s),
            0 <= i < s.len(),
            0 <= j < s.len(),
            s[i].0 == s[j].0,
        ensures
            i == j,
    {
        if i < j {
            lemma_seq_less_irreflexive(s[i].0);
        } else if j < i {
            lemma_seq_less_irreflexive(s[j].0);
        }
    }

    proof fn lemma_map_update(s0: Seq<(Seq<char>, Seq<char>)>, p: int, kv: (Seq<char>, Seq<char>))
        requires
            keys_sorted(s0),
            keys_sorted(s0.update(p, kv)),
            0 <= p < s0.len(),
            s0[p].0 == kv.0,
        ensures
            entries_map(s0.update(p, kv)) == entries_map(s0).insert(kv.0, kv.1),
    {
        let s1 = s0.update(p, kv);
        assert forall|k: Seq<char>| #[trigger] has_key(s1, k) == has_key(s0, k) by {
            if has_key(s0, k) {
                let i = choose|i: int| 0 <= i < s0.len() && #[trigger] s0[i].0 == k;
                assert(s1[i].0 == k);
            }
            if has_key(s1, k) {
                let i = choose|i: int| 0 <= i < s1.len() && #[trigger] s1[i].0 == k;
                assert(s0[i].0 == k);
            }
        }
        assert forall|k: Seq<char>| has_key(s1, k) implies #[trigger] entries_map(s1)[k]
            == entries_map(s0).insert(kv.0, kv.1)[k] by {
            let i1 = key_index(s1, k);
            assert(s1[i1].0 == k);
            if k == kv.0 {
                assert(s1[p].0 == k);
                Self::lemma_unique(s1, i1, p);
            } else {
                let i0 = key_index(s0, k);
                assert(s0[i0].0 == k);
                assert(s0[i1].0 == k);
                Self::lemma_unique(s0, i1, i0);
            }
        }
        assert(entries_map(s1) =~= entries_map(s0).insert(kv.0, kv.1));
    }

    proof fn lemma_map_insert(s0: Seq<(Seq<char>, Seq<char>)>, p: int, kv: (Seq<char>, Seq<char>))
        requires
            keys_sorted(s0),
            keys_sorted(s0.insert(p, kv)),
            0 <= p <= s0.len(),
        ensures
            entries_map(s0.insert(p, kv)) == entries_map(s0).insert(kv.0, kv.1),
    {
        let s1 = s0.insert(p, kv);
        assert(s1[p].0 == kv.0);
        assert forall|k: Seq<char>| #[trigger] has_key(s1, k) == (has_key(s0, k) || k == kv.0) by {
            if has_key(s0, k) {
                let i = choose|i: int| 0 <= i < s0.len() && #[trigger] s0[i].0 == k;
                if i < p {
                    assert(s1[i].0 == k);
                } else {
                    assert(s1[i + 1].0 == k);
                }
            }
            if has_key(s1, k) && k != kv.0 {
                let i = choose|i: int| 0 <= i < s1.len() && #[trigger] s1[i].0 == k;
                if i < p {
                    assert(s0[i].0 == k);
                } else {
                    assert(i != p);
                    assert(s0[i - 1].0 == k);
                }
            }
        }
        assert forall|k: Seq<char>| has_key(s1, k) implies #[trigger] entries_map(s1)[k]
            == entries_map(s0).insert(kv.0, kv.1)[k] by {
            let i1 = key_index(s1, k);
            assert(s1[i1].0 == k);
            if k == kv.0 {
                Self::lemma_unique(s1, i1, p);
            } else {
                let i0 = key_index(s0, k);
                assert(s0[i0].0 == k);
                if i0 < p {
                    assert(s1[i0].0 == k);
                    Self::lemma_unique(s1, i1, i0);
                } else {
                    assert(s1[i0 + 1].0 == k);
                    Self::lemma_unique(s1, i1, i0 + 1);
                }
            }
        }
        assert(entries_map(s1) =~= entries_map(s0).insert(kv.0, kv.1));
    }
}

} // verus!
