//! The storage contract the management core depends on: a byte-keyed store
//! with idempotent overwrite and lookup, plus an append-only FIFO of named
//! queue entries.

use vstd::prelude::*;
use crate::strmap::{lemma_find_exists, lemma_find_push, lemma_find_update, map_find,
    map_find_from, map_keys_distinct};

verus! {

/// Whether two byte vectors hold the same bytes.
pub fn bytes_eq(a: &Vec<u8>, b: &Vec<u8>) -> (r: bool)
    ensures
        r == (a.deep_view() == b.deep_view()),
{
    if a.len() != b.len() {
        proof {
            assert(a.deep_view().len() == a@.len());
            assert(b.deep_view().len() == b@.len());
        }
        return false;
    }
    let mut i: usize = 0;
    while i < a.len()
        invariant
            0 <= i <= a@.len(),
            a@.len() == b@.len(),
            forall|j: int| 0 <= j < i ==> a@[j] == b@[j],
        decreases a@.len() - i,
    {
        if a[i] != b[i] {
            proof {
                assert(a.deep_view()[i as int] == a@[i as int]);
                assert(b.deep_view()[i as int] == b@[i as int]);
            }
            return false;
        }
        i += 1;
    }
    proof {
        assert(a.deep_view() =~= b.deep_view());
    }
    true
}

/// The key/value store with its FIFO queue: `Put` overwrites, `Get` fails on
/// absent keys, `Enqueue` appends to a named queue.
#[derive(Debug)]
pub struct Storage {
    pub kv: Vec<(Vec<u8>, Vec<u8>)>,
    pub queue: Vec<(Vec<u8>, Vec<u8>)>,
}

impl Storage {
    /// The keys in the store are distinct.
    pub open spec fn wf(&self) -> bool {
        map_keys_distinct(self.kv.deep_view())
    }

    /// The bytes stored under a key.
    pub open spec fn spec_get(&self, k: Seq<u8>) -> Option<Seq<u8>> {
        map_find(self.kv.deep_view(), k)
    }

    /// An empty store.
    pub fn new() -> (r: Storage)
        ensures
            r.kv.deep_view() =~= Seq::<(Seq<u8>, Seq<u8>)>::empty(),
            r.queue.deep_view() =~= Seq::<(Seq<u8>, Seq<u8>)>::empty(),
            r.wf(),
    {
        let r = Storage { kv: Vec::new(), queue: Vec::new() };
        proof {
            assert(r.kv.deep_view() =~= Seq::<(Seq<u8>, Seq<u8>)>::empty());
            assert(r.queue.deep_view() =~= Seq::<(Seq<u8>, Seq<u8>)>::empty());
        }
        r
    }

    /// Reads the bytes stored under `k`, failing exactly when it is absent.
    pub fn get(&self, k: &Vec<u8>) -> (r: Option<&Vec<u8>>)
        ensures
            match r {
                Some(v) => self.spec_get(k.deep_view()) == Some(v.deep_view()),
                None => self.spec_get(k.deep_view()) is None,
            },
    {
        let ghost dv = self.kv.deep_view();
        let ghost kdv = k.deep_view();
        let mut i: usize = 0;
        while i < self.kv.len()
            invariant
                0 <= i <= self.kv.len(),
                dv == self.kv.deep_view(),
                kdv == k.deep_view(),
                dv.len() == self.kv.len(),
                map_find_from(dv, kdv, 0) == map_find_from(dv, kdv, i as int),
            decreases self.kv.len() - i,
        {
            if bytes_eq(&self.kv[i].0, k) {
                return Some(&self.kv[i].1);
            }
            i += 1;
        }
        None
    }

    /// Stores `v` under `k`, overwriting any previous value.
    pub fn put(&mut self, k: Vec<u8>, v: Vec<u8>)
        requires
            old(self).wf(),
        ensures
            final(self).wf(),
            forall|q: Seq<u8>|
                #[trigger] map_find(final(self).kv.deep_view(), q) == (if q == k.deep_view() {
                    Some(v.deep_view())
                } else {
                    map_find(old(self).kv.deep_view(), q)
                }),
            final(self).queue == old(self).queue,
    {
        let ghost dv = self.kv.deep_view();
        let ghost kdv = k.deep_view();
        let ghost vdv = v.deep_view();
        let mut i: usize = 0;
        let mut found: Option<usize> = None;
        while i < self.kv.len()
            invariant
                0 <= i <= self.kv.len(),
                dv == self.kv.deep_view(),
                kdv == k.deep_view(),
                dv.len() == self.kv.len(),
                match found {
                    Some(t) => t < i && dv[t as int].0 == kdv,
                    None => forall|j: int| 0 <= j < i ==> dv[j].0 != kdv,
                },
            decreases self.kv.len() - i,
        {
            match found {
                Some(_) => {
                },
                None => {
                    if bytes_eq(&self.kv[i].0, &k) {
                        found = Some(i);
                    }
                },
            }
            i += 1;
        }
        match found {
            Some(t) => {
                let ghost tv = t as int;
                self.kv[t] = (k, v);
                proof {
                    assert(self.kv.deep_view() =~= dv.update(tv, (dv[tv].0, vdv)));
                    assert forall|q: Seq<u8>|
                        #[trigger] map_find(self.kv.deep_view(), q) == (if q == kdv {
                            Some(vdv)
                        } else {
                            map_find(dv, q)
                        }) by {
                        lemma_find_update(dv, tv, vdv, q, 0);
                    }
                    assert forall|a: int, b: int|
                        0 <= a < b < self.kv.deep_view().len() implies #[trigger] self
                        .kv.deep_view()[a].0 != #[trigger] self.kv.deep_view()[b].0 by {
                        assert(dv[a].0 != dv[b].0);
                    }
                }
            },
            None => {
                self.kv.push((k, v));
                proof {
                    assert(self.kv.deep_view() =~= dv.push((kdv, vdv)));
                    assert(map_find(dv, kdv) is None) by {
                        lemma_find_exists(dv, kdv, 0);
                    }
                    assert forall|q: Seq<u8>|
                        #[trigger] map_find(self.kv.deep_view(), q) == (if q == kdv {
                            Some(vdv)
                        } else {
                            map_find(dv, q)
                        }) by {
                        lemma_find_push(dv, kdv, vdv, q, 0);
                    }
                    assert forall|a: int, b: int|
                        0 <= a < b < self.kv.deep_view().len() implies #[trigger] self
                        .kv.deep_view()[a].0 != #[trigger] self.kv.deep_view()[b].0 by {
                        if b < dv.len() {
                            assert(dv[a].0 != dv[b].0);
                        } else {
                            assert(self.kv.deep_view()[b].0 == kdv);
                            assert(dv[a].0 != kdv) by {
                                if dv[a].0 == kdv {
                                    lemma_find_exists(dv, kdv, 0);
                                }
                            }
                        }
                    }
                }
            },
        }
    }

    /// Appends `v` to the queue named `k`.
    pub fn enqueue(&mut self, k: Vec<u8>, v: Vec<u8>)
        ensures
            final(self).queue.deep_view() == old(self).queue.deep_view().push(
                (k.deep_view(), v.deep_view()),
            ),
            final(self).kv == old(self).kv,
    {
        let ghost qdv = self.queue.deep_view();
        let ghost kdv = k.deep_view();
        let ghost vdv = v.deep_view();
        self.queue.push((k, v));
        proof {
            assert(self.queue.deep_view() =~= qdv.push((kdv, vdv)));
        }
    }

    /// How many entries have been enqueued overall.
    pub fn queue_len(&self) -> (r: usize)
        ensures
            r == self.queue.deep_view().len(),
    {
        self.queue.len()
    }

    /// The queue entry at position `i`, oldest first.
    pub fn queue_entry(&self, i: usize) -> (r: &(Vec<u8>, Vec<u8>))
        requires
            i < self.queue.deep_view().len(),
        ensures
            r.0.deep_view() == self.queue.deep_view()[i as int].0,
            r.1.deep_view() == self.queue.deep_view()[i as int].1,
    {
        &self.queue[i]
    }
}

} // verus!
