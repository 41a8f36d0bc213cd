//! An ordered map keyed by `Oid`, kept as a vector of entries with strictly
//! increasing keys. It models the catalog maps: a later insert for the same
//! key overwrites the earlier entry, and iteration runs in ascending key
//! order.
use vstd::prelude::*;
use vstd::pervasive::VecAdditionalExecFns;

use crate::types::Oid;

verus! {

/// Lookup over an entry sequence: the value of the first entry whose key
/// matches, if any. On a well-formed map keys are unique, so "first" is
/// "the" entry.
pub open spec fn spec_get<K, T>(s: Seq<(K, T)>, k: K) -> Option<T>
    decreases s.len(),
{
    if s.len() == 0 {
        Option::None
    } else if s[0].0 == k {
        Option::Some(s[0].1)
    } else {
        spec_get(s.skip(1), k)
    }
}

/// Entry keys are strictly increasing, hence unique.
pub open spec fn sorted_keys<T>(s: Seq<(Oid, T)>) -> bool {
    forall|i: int, j: int| 0 <= i < j < s.len() ==> s[i].0 < s[j].0
}

/// On any sequence, the first entry holding a key decides the lookup, and
/// a key held by no entry looks up to `None`.
pub proof fn lemma_get_position<K, T>(s: Seq<(K, T)>, k: K, i: int)
    requires
        0 <= i < s.len(),
        s[i].0 == k,
        forall|j: int| 0 <= j < i ==> s[j].0 != k,
    ensures
        spec_get(s, k) == Option::Some(s[i].1),
    decreases i,
{
    if i == 0 {
    } else {
        lemma_get_position(s.skip(1), k, i - 1);
    }
}

pub proof fn lemma_get_absent<K, T>(s: Seq<(K, T)>, k: K)
    requires
        forall|j: int| 0 <= j < s.len() ==> s[j].0 != k,
    ensures
        spec_get(s, k) is None,
    decreases s.len(),
{
    if s.len() > 0 {
        lemma_get_absent(s.skip(1), k);
    }
}

/// The map itself. The sortedness invariant is part of the view's
/// well-formedness, stated by `wf`.
pub struct OidMap<V> {
    entries: Vec<(Oid, V)>,
}

impl<V> View for OidMap<V> {
    type V = Seq<(Oid, V)>;

    closed spec fn view(&self) -> Seq<(Oid, V)> {
        self.entries@
    }
}

impl<V: DeepView> DeepView for OidMap<V> {
    type V = Seq<(Oid, V::V)>;

    open spec fn deep_view(&self) -> Seq<(Oid, V::V)> {
        Seq::new(self@.len(), |i: int| (self@[i].0, self@[i].1.deep_view()))
    }
}

impl<V: DeepView> OidMap<V> {
    pub open spec fn wf(&self) -> bool {
        sorted_keys(self@)
    }

    pub fn new() -> (r: OidMap<V>)
        ensures
            r.wf(),
            r@ =~= Seq::<(Oid, V)>::empty(),
            r.deep_view() =~= Seq::<(Oid, V::V)>::empty(),
    {
        OidMap { entries: Vec::new() }
    }

    pub fn len(&self) -> (n: usize)
        ensures
            n == self@.len(),
            n == self.deep_view().len(),
    {
        self.entries.len()
    }

    /// The entry at position `i` in key order.
    pub fn entry_at(&self, i: usize) -> (e: &(Oid, V))
        requires
            i < self@.len(),
        ensures
            *e == self@[i as int],
            e.1.deep_view() == self.deep_view()[i as int].1,
            e.0 == self.deep_view()[i as int].0,
    {
        &self.entries[i]
    }

    /// Key lookup.
    pub fn get(&self, k: Oid) -> (r: Option<&V>)
        requires
            self.wf(),
        ensures
            match r {
                Option::Some(v) => spec_get(self.deep_view(), k) == Option::Some(v.deep_view()),
                Option::None => spec_get(self.deep_view(), k) is None,
            },
    {
        let ghost dv = self.deep_view();
        let n: usize = self.entries.len();
        let mut i: usize = 0;
        while i < n
            invariant
                n == self@.len(),
                dv == self.deep_view(),
                0 <= i <= n,
                forall|j: int| 0 <= j < i ==> dv[j].0 != k,
            decreases n - i,
        {
            if self.entries[i].0 == k {
                proof {
                    assert(dv[i as int].0 == k);
                    lemma_get_position(dv, k, i as int);
                }
                return Some(&self.entries[i].1);
            }
            assert(dv[i as int].0 != k);
            i = i + 1;
        }
        proof {
            lemma_get_absent(dv, k);
        }
        None
    }

    /// Insert or overwrite: afterwards `k` maps to `v` and every other key
    /// is untouched; key order is preserved.
    pub fn insert(&mut self, k: Oid, v: V)
        requires
            old(self).wf(),
        ensures
            final(self).wf(),
            spec_get(final(self).deep_view(), k) == Option::Some(v.deep_view()),
            forall|k2: Oid| k2 != k ==> spec_get(final(self).deep_view(), k2) == spec_get(
                old(self).deep_view(),
                k2,
            ),
    {
        let ghost olddv = old(self).deep_view();
        let n: usize = self.entries.len();
        let mut i: usize = 0;
        while i < n && self.entries[i].0 < k
            invariant
                *self == *old(self),
                n == self@.len(),
                0 <= i <= n,
                forall|j: int| 0 <= j < i ==> self@[j].0 < k,
            decreases n - i,
        {
            i = i + 1;
        }
        if i < n && self.entries[i].0 == k {
            self.entries.set(i, (k, v));
            proof {
                let dv = self.deep_view();
                assert forall|a: int, b: int| 0 <= a < b < dv.len() implies self@[a].0
                    < self@[b].0 by {
                    assert(old(self)@[a].0 < old(self)@[b].0);
                }
                lemma_get_position(dv, k, i as int);
                let o = old(self)@;
                assert forall|k2: Oid| k2 != k implies spec_get(dv, k2) == spec_get(
                    olddv,
                    k2,
                ) by {
                    if exists|j: int| 0 <= j < olddv.len() && olddv[j].0 == k2 {
                        let j = choose|j: int| 0 <= j < olddv.len() && olddv[j].0 == k2;
                        assert(j != i as int);
                        assert(dv[j].0 == k2 && dv[j].1 == olddv[j].1);
                        assert forall|x: int| 0 <= x < j implies olddv[x].0 != k2 by {
                            assert(o[x].0 < o[j].0);
                        }
                        assert forall|x: int| 0 <= x < j implies dv[x].0 != k2 by {
                            assert(self@[x].0 < self@[j].0);
                        }
                        lemma_get_position(olddv, k2, j);
                        lemma_get_position(dv, k2, j);
                    } else {
                        assert forall|x: int| 0 <= x < dv.len() implies dv[x].0 != k2 by {
                            if x != i as int {
                                assert(olddv[x].0 != k2);
                            }
                        }
                        lemma_get_absent(olddv, k2);
                        lemma_get_absent(dv, k2);
                    }
                }
            }
        } else {
            self.entries.insert(i, (k, v));
            proof {
                let dv = self.deep_view();
                let o = old(self)@;
                assert forall|a: int, b: int| 0 <= a < b < dv.len() implies self@[a].0
                    < self@[b].0 by {
                    if b < i as int {
                        assert(self@[a] == o[a] && self@[b] == o[b]);
                    } else if b == i as int {
                        assert(self@[a] == o[a] && o[a].0 < k);
                    } else if a == i as int {
                        assert(self@[b] == o[b - 1]);
                        assert(o[i as int].0 > k);
                        assert(b - 1 == i as int || o[b - 1].0 > o[i as int].0);
                    } else if a < i as int {
                        assert(self@[a] == o[a] && self@[b] == o[b - 1]);
                        assert(o[a].0 < k);
                        assert(o[i as int].0 > k);
                        assert(b - 1 == i as int || o[b - 1].0 > o[i as int].0);
                    } else {
                        assert(self@[a] == o[a - 1] && self@[b] == o[b - 1]);
                        assert(o[a - 1].0 < o[b - 1].0);
                    }
                }
                assert(dv[i as int].0 == k && dv[i as int].1 == v.deep_view());
                assert(forall|j: int| 0 <= j < i ==> dv[j].0 != k);
                lemma_get_position(dv, k, i as int);
                assert forall|k2: Oid| k2 != k implies spec_get(dv, k2) == spec_get(
                    olddv,
                    k2,
                ) by {
                    if exists|j: int| 0 <= j < olddv.len() && olddv[j].0 == k2 {
                        let j = choose|j: int| 0 <= j < olddv.len() && olddv[j].0 == k2;
                        let m: int = if j < i as int { j } else { j + 1 };
                        assert(self@[m] == o[j]);
                        assert(dv[m].0 == k2 && dv[m].1 == olddv[j].1);
                        assert forall|x: int| 0 <= x < j implies olddv[x].0 != k2 by {
                            assert(o[x].0 < o[j].0);
                        }
                        assert forall|x: int| 0 <= x < m implies dv[x].0 != k2 by {
                            assert(self@[x].0 < self@[m].0);
                        }
                        lemma_get_position(olddv, k2, j);
                        lemma_get_position(dv, k2, m);
                    } else {
                        assert forall|x: int| 0 <= x < dv.len() implies dv[x].0 != k2 by {
                            if x < i as int {
                                assert(self@[x] == o[x]);
                                assert(olddv[x].0 != k2);
                            } else if x > i as int {
                                assert(self@[x] == o[x - 1]);
                                assert(olddv[x - 1].0 != k2);
                            }
                        }
                        lemma_get_absent(olddv, k2);
                        lemma_get_absent(dv, k2);
                    }
                }
            }
        }
    }
}

} // verus!
