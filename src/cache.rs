//! The process-local memory of content key to order id.
use crate::ledger::bytes_eq;
use vstd::prelude::*;

verus! {

/// Content keys mapped to order ids, each key at most once.
pub struct OrderIdCache {
    entries: Vec<(Vec<u8>, u64)>,
    map: Ghost<Map<Seq<u8>, u64>>,
}

impl View for OrderIdCache {
    type V = Map<Seq<u8>, u64>;

    closed spec fn view(&self) -> Map<Seq<u8>, u64> {
        self.map@
    }
}

impl OrderIdCache {
    /// The entries hold each key once, and exactly the keys and ids of the map.
    pub closed spec fn wf(&self) -> bool {
        &&& forall|i: int, j: int|
            0 <= i < self.entries@.len() && 0 <= j < self.entries@.len() && i != j
                ==> (#[trigger] self.entries@[i]).0@ != (#[trigger] self.entries@[j]).0@
        &&& forall|i: int|
            0 <= i < self.entries@.len() ==> self.map@.contains_key(
                (#[trigger] self.entries@[i]).0@,
            ) && self.map@[self.entries@[i].0@] == self.entries@[i].1
        &&& forall|k: Seq<u8>| #[trigger]
            self.map@.contains_key(k) ==> exists|i: int|
                0 <= i < self.entries@.len() && (#[trigger] self.entries@[i]).0@ == k
    }

    /// An empty cache.
    pub fn new() -> (r: Self)
        ensures
            r.wf(),
            r@ == Map::<Seq<u8>, u64>::empty(),
    {
        OrderIdCache { entries: Vec::new(), map: Ghost(Map::empty()) }
    }

    /// The position of `key` among the entries, if it is there.
    fn position(&self, key: &Vec<u8>) -> (r: Option<usize>)
        requires
            self.wf(),
        ensures
            match r {
                Some(i) => i < self.entries@.len() && self.entries@[i as int].0@ == key@,
                None => !self@.contains_key(key@),
            },
    {
        let mut i: usize = 0;
        while i < self.entries.len()
            invariant
                self.wf(),
                i <= self.entries@.len(),
                forall|j: int| 0 <= j < i ==> (#[trigger] self.entries@[j]).0@ != key@,
            decreases self.entries.len() - i,
        {
            if bytes_eq(&self.entries[i].0, key) {
                return Some(i);
            }
            i = i + 1;
        }
        None
    }

    /// The id cached for `key`.
    pub fn get(&self, key: &Vec<u8>) -> (r: Option<u64>)
        requires
            self.wf(),
        ensures
            r == (if self@.contains_key(key@) {
                Some(self@[key@])
            } else {
                None
            }),
    {
        match self.position(key) {
            Some(i) => Some(self.entries[i].1),
            None => None,
        }
    }

    /// Caches `id` for `key`, replacing what was cached for it.
    pub fn insert(&mut self, key: Vec<u8>, id: u64)
        requires
            old(self).wf(),
        ensures
            final(self).wf(),
            final(self)@ == old(self)@.insert(key@, id),
    {
        let ghost k = key@;
        match self.position(&key) {
            Some(i) => {
                self.entries.set(i, (key, id));
            },
            None => {
                self.entries.push((key, id));
            },
        }
        self.map = Ghost(self.map@.insert(k, id));
        assert forall|q: Seq<u8>| #[trigger] self.map@.contains_key(q) implies exists|i: int|
            0 <= i < self.entries@.len() && (#[trigger] self.entries@[i]).0@ == q by {
            if q != k {
                let i = choose|i: int|
                    0 <= i < old(self).entries@.len() && (#[trigger] old(self).entries@[i]).0@ == q;
                assert(self.entries@[i].0@ == q);
            } else {
                let n = self.entries@.len() - 1;
                if old(self).map@.contains_key(k) {
                    let i = choose|i: int|
                        0 <= i < old(self).entries@.len() && (#[trigger] old(self).entries@[i]).0@ == k;
                    assert(self.entries@[i].0@ == q);
                } else {
                    assert(self.entries@[n].0@ == q);
                }
            }
        }
    }

    /// Forgets what was cached for `key`.
    pub fn remove(&mut self, key: &Vec<u8>)
        requires
            old(self).wf(),
        ensures
            final(self).wf(),
            final(self)@ == old(self)@.remove(key@),
    {
        match self.position(key) {
            Some(i) => {
                let ghost pre = self.entries@;
                self.entries.remove(i);
                self.map = Ghost(self.map@.remove(key@));
                assert forall|q: Seq<u8>| #[trigger] self.map@.contains_key(q) implies exists|j: int|
                    0 <= j < self.entries@.len() && (#[trigger] self.entries@[j]).0@ == q by {
                    let j = choose|j: int| 0 <= j < pre.len() && (#[trigger] pre[j]).0@ == q;
                    if j < i {
                        assert(self.entries@[j].0@ == q);
                    } else {
                        assert(j != i);
                        assert(self.entries@[j - 1].0@ == q);
                    }
                }
            },
            None => {
                assert(self.map@.remove(key@) =~= self.map@);
            },
        }
    }
}

} // verus!
