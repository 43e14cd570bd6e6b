//! A small verified map keyed by `u64`, backed by a vector of pairs.
//!
//! The saga runtime keys everything — states, journals, dedupe entries —
//! by the raw saga ID, so one keyed store serves all three. Its view is a
//! `Map<u64, V>`; the backing vector holds each key at most once.

use vstd::prelude::*;

verus! {

/// Whether every key occurs at most once in `s`.
pub open spec fn distinct_keys<V>(s: Seq<(u64, V)>) -> bool {
    forall|i: int, j: int|
        0 <= i < j < s.len() ==> (#[trigger] s[i].0) != (#[trigger] s[j].0)
}

/// The map holding the pairs of `s`, later pairs winning.
pub open spec fn pairs_to_map<V>(s: Seq<(u64, V)>) -> Map<u64, V>
    decreases s.len(),
{
    if s.len() == 0 {
        Map::empty()
    } else {
        pairs_to_map(s.drop_last()).insert(s.last().0, s.last().1)
    }
}

/// A key is in the map exactly when some pair of `s` holds it.
pub proof fn lemma_pairs_to_map_contains<V>(s: Seq<(u64, V)>, k: u64)
    ensures
        pairs_to_map(s).contains_key(k) <==> exists|i: int|
            0 <= i < s.len() && (#[trigger] s[i].0) == k,
    decreases s.len(),
{
    if s.len() > 0 {
        lemma_pairs_to_map_contains(s.drop_last(), k);
        if s.last().0 == k {
            assert(s[s.len() - 1].0 == k);
        } else if pairs_to_map(s).contains_key(k) {
            let i = choose|i: int| 0 <= i < s.drop_last().len() && (#[trigger] s.drop_last()[i].0)
                == k;
            assert(s[i].0 == k);
        } else if exists|i: int| 0 <= i < s.len() && (#[trigger] s[i].0) == k {
            let i = choose|i: int| 0 <= i < s.len() && (#[trigger] s[i].0) == k;
            assert(s.drop_last()[i].0 == k);
        }
    }
}

/// With distinct keys, the map returns the value paired with the key.
pub proof fn lemma_pairs_to_map_index<V>(s: Seq<(u64, V)>, i: int)
    requires
        distinct_keys(s),
        0 <= i < s.len(),
    ensures
        pairs_to_map(s).contains_key(s[i].0),
        pairs_to_map(s)[s[i].0] == s[i].1,
    decreases s.len(),
{
    lemma_pairs_to_map_contains(s, s[i].0);
    if i < s.len() - 1 {
        assert(distinct_keys(s.drop_last()));
        assert(s.drop_last()[i] == s[i]);
        lemma_pairs_to_map_index(s.drop_last(), i);
        assert(s[i].0 != s.last().0);
    }
}

/// Removing the pair at `i` removes exactly its key from the map.
pub proof fn lemma_pairs_to_map_remove<V>(s: Seq<(u64, V)>, i: int)
    requires
        distinct_keys(s),
        0 <= i < s.len(),
    ensures
        distinct_keys(s.remove(i)),
        pairs_to_map(s.remove(i)) =~= pairs_to_map(s).remove(s[i].0),
    decreases s.len(),
{
    assert forall|x: int, y: int| 0 <= x < y < s.remove(i).len() implies (#[trigger] s.remove(
        i,
    )[x].0) != (#[trigger] s.remove(i)[y].0) by {
        let x0 = if x < i {
            x
        } else {
            x + 1
        };
        let y0 = if y < i {
            y
        } else {
            y + 1
        };
        assert(s.remove(i)[x] == s[x0] && s.remove(i)[y] == s[y0]);
    }
    if i == s.len() - 1 {
        assert(s.remove(i) =~= s.drop_last());
        lemma_pairs_to_map_contains(s.drop_last(), s[i].0);
        assert forall|j: int| 0 <= j < s.drop_last().len() implies (#[trigger] s.drop_last()[j].0)
            != s[i].0 by {
            assert(s[j] == s.drop_last()[j]);
        }
        assert(!pairs_to_map(s.drop_last()).contains_key(s[i].0));
        assert(pairs_to_map(s.drop_last()) =~= pairs_to_map(s.drop_last()).insert(
            s.last().0,
            s.last().1,
        ).remove(s[i].0));
    } else {
        let t = s.remove(i);
        assert(t.drop_last() =~= s.drop_last().remove(i));
        assert(t.last() == s.last());
        assert(distinct_keys(s.drop_last()));
        lemma_pairs_to_map_remove(s.drop_last(), i);
        assert(s[i].0 != s.last().0);
        assert(s.drop_last()[i] == s[i]);
        assert(pairs_to_map(t) =~= pairs_to_map(s.drop_last()).remove(s[i].0).insert(
            s.last().0,
            s.last().1,
        ));
        assert(pairs_to_map(s).remove(s[i].0) =~= pairs_to_map(s.drop_last()).remove(
            s[i].0,
        ).insert(s.last().0, s.last().1));
    }
}

/// A verified map from raw saga IDs to values.
pub struct U64Map<V> {
    entries: Vec<(u64, V)>,
}

impl<V> U64Map<V> {
    /// The backing pairs, in insertion order.
    pub closed spec fn pairs(self) -> Seq<(u64, V)> {
        self.entries@
    }

    /// The contents as a map.
    pub closed spec fn view(self) -> Map<u64, V> {
        pairs_to_map(self.entries@)
    }

    /// Well-formed: the backing vector holds each key at most once. Every
    /// operation preserves it.
    pub closed spec fn wf(self) -> bool {
        distinct_keys(self.entries@)
    }

    /// Create an empty map.
    pub fn new() -> (r: Self)
        ensures
            r@ == Map::<u64, V>::empty(),
            r.pairs() == Seq::<(u64, V)>::empty(),
            r.wf(),
    {
        let r = U64Map { entries: Vec::new() };
        proof {
            assert(r@ =~= Map::<u64, V>::empty());
        }
        r
    }

    /// The index holding key `k`, if any.
    fn index_of(&self, k: u64) -> (r: Option<usize>)
        ensures
            match r {
                Some(i) => i < self.pairs().len() && self.pairs()[i as int].0 == k,
                None => forall|j: int| 0 <= j < self.pairs().len() ==> (#[trigger] self.pairs()[j].0) != k,
            },
    {
        let n = self.entries.len();
        let mut idx: usize = 0;
        while idx < n
            invariant
                n == self.entries.len(),
                idx <= n,
                forall|j: int| 0 <= j < idx ==> (#[trigger] self.entries@[j].0) != k,
            decreases n - idx,
        {
            if self.entries[idx].0 == k {
                return Some(idx);
            }
            idx = idx + 1;
        }
        None
    }

    /// Whether the map holds key `k`.
    pub fn contains_key(&self, k: u64) -> (r: bool)
        ensures
            r == self@.contains_key(k),
    {
        proof {
            lemma_pairs_to_map_contains(self.pairs(), k);
        }
        self.index_of(k).is_some()
    }

    /// The value at key `k`, if any.
    pub fn get(&self, k: u64) -> (r: Option<&V>)
        requires
            self.wf(),
        ensures
            match r {
                Some(v) => self@.contains_key(k) && *v == self@[k],
                None => !self@.contains_key(k),
            },
    {
        proof {
            lemma_pairs_to_map_contains(self.pairs(), k);
        }
        match self.index_of(k) {
            Some(i) => {
                proof {
                    lemma_pairs_to_map_index(self.pairs(), i as int);
                }
                Some(&self.entries[i].1)
            },
            None => None,
        }
    }

    /// Insert `v` at key `k`, replacing any previous value.
    pub fn insert(&mut self, k: u64, v: V)
        requires
            old(self).wf(),
        ensures
            final(self).wf(),
            final(self)@ == old(self)@.insert(k, v),
    {
        proof {
            lemma_pairs_to_map_contains(self.pairs(), k);
        }
        let ghost pre = self.entries@;
        match self.index_of(k) {
            Some(i) => {
                proof {
                    lemma_pairs_to_map_remove(self.entries@, i as int);
                }
                let _ = self.entries.remove(i);
                proof {
                    lemma_pairs_to_map_contains(self.entries@, k);
                    assert(forall|j: int|
                        0 <= j < self.entries@.len() ==> (#[trigger] self.entries@[j].0) != k);
                }
                self.entries.push((k, v));
                proof {
                    assert(self.entries@.drop_last() =~= pre.remove(i as int));
                    assert(pairs_to_map(self.entries@) =~= pairs_to_map(pre).remove(k).insert(
                        k,
                        v,
                    ));
                    assert(pairs_to_map(pre).remove(k).insert(k, v) =~= pairs_to_map(pre).insert(
                        k,
                        v,
                    ));
                }
            },
            None => {
                self.entries.push((k, v));
                proof {
                    assert(self.entries@.drop_last() =~= pre);
                }
            },
        }
    }

    /// Remove key `k`, returning its value if it was present.
    pub fn remove(&mut self, k: u64) -> (r: Option<V>)
        requires
            old(self).wf(),
        ensures
            final(self).wf(),
            final(self)@ == old(self)@.remove(k),
            match r {
                Some(v) => old(self)@.contains_key(k) && v == old(self)@[k],
                None => !old(self)@.contains_key(k),
            },
    {
        proof {
            lemma_pairs_to_map_contains(self.pairs(), k);
        }
        match self.index_of(k) {
            Some(i) => {
                proof {
                    lemma_pairs_to_map_index(self.entries@, i as int);
                    lemma_pairs_to_map_remove(self.entries@, i as int);
                }
                let pair = self.entries.remove(i);
                Some(pair.1)
            },
            None => {
                proof {
                    assert(self@ =~= self@.remove(k));
                }
                None
            },
        }
    }

    /// How many pairs the map holds.
    pub fn len(&self) -> (r: usize)
        ensures
            r == self.pairs().len(),
    {
        self.entries.len()
    }

    /// The pair at backing index `i`.
    pub fn pair_at(&self, i: usize) -> (r: (u64, &V))
        requires
            i < self.pairs().len(),
        ensures
            r.0 == self.pairs()[i as int].0,
            *r.1 == self.pairs()[i as int].1,
    {
        (self.entries[i].0, &self.entries[i].1)
    }

    /// The keys, in backing order, each exactly once.
    pub fn keys(&self) -> (r: Vec<u64>)
        requires
            self.wf(),
        ensures
            r@.no_duplicates(),
            forall|k: u64| r@.contains(k) <==> self@.contains_key(k),
            r@.len() == self.pairs().len(),
            forall|t: int| 0 <= t < r@.len() ==> r@[t] == (#[trigger] self.pairs()[t]).0,
    {
        let n = self.entries.len();
        let mut out: Vec<u64> = Vec::new();
        let mut idx: usize = 0;
        while idx < n
            invariant
                n == self.entries.len(),
                idx <= n,
                out@.len() == idx,
                forall|t: int| 0 <= t < idx ==> out@[t] == (#[trigger] self.entries@[t].0),
            decreases n - idx,
        {
            out.push(self.entries[idx].0);
            idx = idx + 1;
        }
        proof {
            assert forall|x: int, y: int| 0 <= x < y < out@.len() implies out@[x] != out@[y] by {
                assert(out@[x] == self.entries@[x].0 && out@[y] == self.entries@[y].0);
            }
            assert forall|k: u64| out@.contains(k) <==> self@.contains_key(k) by {
                lemma_pairs_to_map_contains(self.entries@, k);
                if out@.contains(k) {
                    let t = choose|t: int| 0 <= t < out@.len() && out@[t] == k;
                    assert(self.entries@[t].0 == k);
                }
                if self@.contains_key(k) {
                    let i = choose|i: int|
                        0 <= i < self.entries@.len() && (#[trigger] self.entries@[i].0) == k;
                    assert(out@[i] == k);
                }
            }
        }
        out
    }

    /// What well-formedness gives a caller: the backing keys are distinct
    /// and the map view is exactly the fold of the backing pairs.
    pub proof fn lemma_wf_facts(&self)
        requires
            self.wf(),
        ensures
            distinct_keys(self.pairs()),
            self@ == pairs_to_map(self.pairs()),
    {
    }
}

} // verus!
