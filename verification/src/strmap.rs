//! A small map from strings to values, kept as a vector of pairs with
//! distinct keys. Insertion overwrites in place; lookup scans. Its contracts
//! speak of `map_find` over the deep view, on which the task and service
//! invariants are stated.

use vstd::prelude::*;
use crate::value::{Value, ValueModel};
use crate::wire::{vec_of_value, vec_to_value, wire_seq, Wire};

verus! {

/// First match for key `q` in `s`, scanning from index `i`.
pub open spec fn map_find_from<K, MV>(s: Seq<(K, MV)>, q: K, i: int) -> Option<MV>
    decreases s.len() - i,
{
    if i < 0 || i >= s.len() {
        None
    } else if s[i].0 == q {
        Some(s[i].1)
    } else {
        map_find_from(s, q, i + 1)
    }
}

/// The value bound to key `q`, if any.
pub open spec fn map_find<K, MV>(s: Seq<(K, MV)>, q: K) -> Option<MV> {
    map_find_from(s, q, 0)
}

/// Whether key `q` is bound.
pub open spec fn map_contains<K, MV>(s: Seq<(K, MV)>, q: K) -> bool {
    map_find(s, q) is Some
}

/// All keys are distinct.
pub open spec fn map_keys_distinct<K, MV>(s: Seq<(K, MV)>) -> bool {
    forall|i: int, j: int| 0 <= i < j < s.len() ==> s[i].0 != s[j].0
}

/// Two key sets coincide.
pub open spec fn same_keys<K, MV, NV>(s: Seq<(K, MV)>, t: Seq<(K, NV)>) -> bool {
    forall|q: K| map_contains(s, q) == map_contains(t, q)
}

/// A bound key is found at some index, and conversely.
pub proof fn lemma_find_exists<K, MV>(s: Seq<(K, MV)>, q: K, j: int)
    requires
        0 <= j <= s.len(),
    ensures
        map_find_from(s, q, j) is Some <==> exists|i: int| j <= i < s.len() && s[i].0 == q,
    decreases s.len() - j,
{
    if j < s.len() {
        lemma_find_exists(s, q, j + 1);
    }
}

/// Updating the value at index `i` rebinds exactly that key.
pub proof fn lemma_find_update<K, MV>(s: Seq<(K, MV)>, i: int, v: MV, q: K, j: int)
    requires
        map_keys_distinct(s),
        0 <= i < s.len(),
        0 <= j <= s.len(),
    ensures
        map_find_from(s.update(i, (s[i].0, v)), q, j) == (if j <= i && q == s[i].0 {
            Some(v)
        } else {
            map_find_from(s, q, j)
        }),
    decreases s.len() - j,
{
    if j < s.len() {
        lemma_find_update(s, i, v, q, j + 1);
    }
}

/// Appending a fresh binding leaves old keys alone and binds the new one.
pub proof fn lemma_find_push<K, MV>(s: Seq<(K, MV)>, k: K, v: MV, q: K, j: int)
    requires
        0 <= j <= s.len(),
    ensures
        map_find_from(s.push((k, v)), q, j) == (match map_find_from(s, q, j) {
            Some(x) => Some(x),
            None => if q == k {
                Some(v)
            } else {
                None
            },
        }),
    decreases s.len() - j,
{
    if j < s.len() {
        lemma_find_push(s, k, v, q, j + 1);
    } else {
        assert(s.push((k, v))[s.len() as int] == (k, v));
        assert(map_find_from(s.push((k, v)), q, j + 1) is None);
    }
}

/// A map from strings to values with distinct keys.
#[derive(Debug, Clone, PartialEq)]
pub struct StringMap<V> {
    pub pairs: Vec<(String, V)>,
}

impl<V: DeepView> DeepView for StringMap<V> {
    type V = Seq<(Seq<char>, <V as DeepView>::V)>;

    open spec fn deep_view(&self) -> Seq<(Seq<char>, <V as DeepView>::V)> {
        self.pairs.deep_view()
    }
}

impl<V: DeepView> StringMap<V> {
    /// Keys are pairwise distinct.
    pub open spec fn wf(&self) -> bool {
        map_keys_distinct(self.deep_view())
    }

    /// What the key `q` is bound to.
    pub open spec fn spec_find(&self, q: Seq<char>) -> Option<<V as DeepView>::V> {
        map_find(self.deep_view(), q)
    }

    /// Whether the key `q` is bound.
    pub open spec fn spec_contains(&self, q: Seq<char>) -> bool {
        map_contains(self.deep_view(), q)
    }
}

impl<V: DeepView> StringMap<V> {
    /// The empty map.
    pub fn new() -> (r: StringMap<V>)
        ensures
            r.deep_view() =~= Seq::<(Seq<char>, <V as DeepView>::V)>::empty(),
            r.wf(),
    {
        let r = StringMap { pairs: Vec::new() };
        proof {
            assert(r.deep_view() =~= Seq::<(Seq<char>, <V as DeepView>::V)>::empty());
        }
        r
    }

    /// How many keys are bound.
    pub fn len(&self) -> (r: usize)
        ensures
            r == self.deep_view().len(),
    {
        self.pairs.len()
    }

    /// The entry at position `i`, in insertion order.
    pub fn entry(&self, i: usize) -> (r: &(String, V))
        requires
            i < self.deep_view().len(),
        ensures
            r.0@ == self.deep_view()[i as int].0,
            r.1.deep_view() == self.deep_view()[i as int].1,
    {
        &self.pairs[i]
    }

    /// Looks the key up.
    pub fn get(&self, k: &String) -> (r: Option<&V>)
        ensures
            match r {
                Some(v) => self.spec_find(k@) == Some(v.deep_view()),
                None => self.spec_find(k@) is None,
            },
    {
        let ghost dv = self.deep_view();
        let mut i: usize = 0;
        while i < self.pairs.len()
            invariant
                0 <= i <= self.pairs.len(),
                dv == self.deep_view(),
                dv.len() == self.pairs.len(),
                map_find_from(dv, k@, 0) == map_find_from(dv, k@, i as int),
            decreases self.pairs.len() - i,
        {
            if self.pairs[i].0 == *k {
                return Some(&self.pairs[i].1);
            }
            i += 1;
        }
        None
    }

    /// Whether the key is bound.
    pub fn contains_key(&self, k: &String) -> (r: bool)
        ensures
            r == self.spec_contains(k@),
    {
        match self.get(k) {
            Some(_) => true,
            None => false,
        }
    }

    /// The position of the key `k`, if it is bound.
    pub fn find_index(&self, k: &String) -> (r: Option<usize>)
        ensures
            match r {
                Some(i) => i < self.deep_view().len() && self.deep_view()[i as int].0 == k@,
                None => forall|j: int|
                    0 <= j < self.deep_view().len() ==> self.deep_view()[j].0 != k@,
            },
    {
        let ghost dv = self.deep_view();
        let mut i: usize = 0;
        while i < self.pairs.len()
            invariant
                0 <= i <= self.pairs.len(),
                dv == self.deep_view(),
                dv.len() == self.pairs.len(),
                forall|j: int| 0 <= j < i ==> dv[j].0 != k@,
            decreases self.pairs.len() - i,
        {
            if self.pairs[i].0 == *k {
                return Some(i);
            }
            i += 1;
        }
        None
    }

    /// Binds `k` to `v`, overwriting any previous binding.
    pub fn insert(&mut self, k: String, v: V)
        requires
            old(self).wf(),
        ensures
            final(self).wf(),
            forall|q: Seq<char>|
                #[trigger] map_find(final(self).deep_view(), q) == (if q == k@ {
                    Some(v.deep_view())
                } else {
                    map_find(old(self).deep_view(), q)
                }),
            final(self).deep_view().len() <= old(self).deep_view().len() + 1,
    {
        let ghost dv = self.deep_view();
        let ghost kdv = k@;
        let ghost vdv = v.deep_view();
        match self.find_index(&k) {
            Some(i) => {
                let ghost iv = i as int;
                self.pairs[i] = (k, v);
                proof {
                    assert(dv[iv].0 == kdv);
                    assert(self.deep_view() =~= dv.update(iv, (dv[iv].0, vdv)));
                    assert(self.deep_view().len() == dv.len());
                    assert forall|q: Seq<char>|
                        #[trigger] map_find(self.deep_view(), q) == (if q == kdv {
                            Some(vdv)
                        } else {
                            map_find(dv, q)
                        }) by {
                        lemma_find_update(dv, iv, vdv, q, 0);
                    }
                    assert forall|a: int, b: int|
                        0 <= a < b < self.deep_view().len() implies #[trigger] self.deep_view()[a].0
                        != #[trigger] self.deep_view()[b].0 by {
                        assert(dv[a].0 != dv[b].0);
                    }
                }
                return ;
            },
            None => {},
        }
        self.pairs.push((k, v));
        proof {
            assert(self.deep_view() =~= dv.push((kdv, vdv)));
            assert(map_find(dv, kdv) is None) by {
                lemma_find_exists(dv, kdv, 0);
            }
            assert forall|q: Seq<char>|
                #[trigger] map_find(self.deep_view(), q) == (if q == kdv {
                    Some(vdv)
                } else {
                    map_find(dv, q)
                }) by {
                lemma_find_push(dv, kdv, vdv, q, 0);
            }
            assert forall|a: int, b: int|
                0 <= a < b < self.deep_view().len() implies #[trigger] self.deep_view()[a].0
                != #[trigger] self.deep_view()[b].0 by {
                if b < dv.len() {
                    assert(dv[a].0 != dv[b].0);
                } else {
                    assert(self.deep_view()[b].0 == kdv);
                    assert(dv[a].0 != kdv) by {
                        if dv[a].0 == kdv {
                            lemma_find_exists(dv, kdv, 0);
                        }
                    }
                }
            }
        }
    }
}

impl<V: Wire> Wire for StringMap<V> {
    open spec fn wire(m: Seq<(Seq<char>, <V as DeepView>::V)>) -> ValueModel {
        wire_seq::<(String, V)>(m)
    }

    fn to_value(&self) -> (v: Value) {
        vec_to_value(&self.pairs)
    }

    fn of_value(v: Value) -> (r: Option<StringMap<V>>) {
        match vec_of_value::<(String, V)>(v) {
            Some(pairs) => Some(StringMap { pairs }),
            None => None,
        }
    }
}

} // verus!
