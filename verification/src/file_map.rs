use vstd::prelude::*;

use crate::bytes::{bytes_eq, copy_bytes, copy_order_ids};
use crate::types::OrderId;

verus! {

/// A provider's map from file identifiers (Merkle roots) to the orders that store them.
/// Each file identifier occurs at most once.
#[derive(Debug)]
pub struct FileMap {
    keys: Vec<Vec<u8>>,
    values: Vec<Vec<OrderId>>,
}

impl FileMap {
    #[verifier::type_invariant]
    spec fn inv(self) -> bool {
        &&& self.keys@.len() == self.values@.len()
        &&& forall|i: int, j: int|
            0 <= i < self.keys@.len() && 0 <= j < self.keys@.len() && i != j
                ==> #[trigger] self.keys@[i]@ != #[trigger] self.keys@[j]@
    }

    /// Whether file identifier `k` has an entry at position `i`.
    spec fn holds_at(self, k: Seq<u8>, i: int) -> bool {
        0 <= i < self.keys@.len() && self.keys@[i]@ == k
    }

    /// The position of file identifier `k`.
    spec fn index_of(self, k: Seq<u8>) -> int {
        choose|i: int| self.holds_at(k, i)
    }

    pub closed spec fn view(&self) -> Map<Seq<u8>, Seq<OrderId>> {
        Map::new(
            |k: Seq<u8>| exists|i: int| self.holds_at(k, i),
            |k: Seq<u8>| self.values@[self.index_of(k)]@,
        )
    }

    proof fn lemma_at(self, i: int)
        requires
            self.inv(),
            0 <= i < self.keys@.len(),
        ensures
            self.view().contains_key(self.keys@[i]@),
            self.view()[self.keys@[i]@] == self.values@[i]@,
            self.index_of(self.keys@[i]@) == i,
    {
        let k = self.keys@[i]@;
        assert(self.holds_at(k, i));
        let j = self.index_of(k);
        assert(self.holds_at(k, j));
        if j != i {
            assert(self.keys@[i]@ != self.keys@[j]@);
        }
    }

    /// An empty map.
    pub fn new() -> (m: Self)
        ensures
            m.view() == Map::<Seq<u8>, Seq<OrderId>>::empty(),
    {
        let m = FileMap { keys: Vec::new(), values: Vec::new() };
        assert(m.view() =~= Map::<Seq<u8>, Seq<OrderId>>::empty());
        m
    }

    /// The number of files in the map.
    pub fn len(&self) -> (n: usize)
        ensures
            n == self.view().len(),
            self.view().dom().finite(),
    {
        proof {
            use_type_invariant(self);
            self.lemma_dom_is_keys();
        }
        self.keys.len()
    }

    proof fn lemma_dom_is_keys(self)
        requires
            self.inv(),
        ensures
            self.view().dom() == self.keys@.map_values(|k: Vec<u8>| k@).to_set(),
            self.view().dom().finite(),
            self.view().dom().len() == self.keys@.len(),
    {
        let ks = self.keys@.map_values(|k: Vec<u8>| k@);
        assert forall|k: Seq<u8>| self.view().dom().contains(k) <==> ks.to_set().contains(k) by {
            if self.view().dom().contains(k) {
                let i = choose|i: int| self.holds_at(k, i);
                assert(ks[i] == k);
            }
            if ks.to_set().contains(k) {
                let i = choose|i: int| 0 <= i < ks.len() && ks[i] == k;
                assert(self.holds_at(k, i));
            }
        }
        assert(self.view().dom() =~= ks.to_set());
        assert(ks.no_duplicates()) by {
            assert forall|i: int, j: int| 0 <= i < ks.len() && 0 <= j < ks.len() && i != j implies ks[i] != ks[j] by {
                assert(self.keys@[i]@ != self.keys@[j]@);
            }
        }
        ks.unique_seq_to_set();
    }

    /// Looks up the position of a file identifier.
    fn find(&self, key: &[u8]) -> (r: Option<usize>)
        ensures
            match r {
                Some(i) => self.holds_at(key@, i as int),
                None => !self.view().contains_key(key@),
            },
    {
        proof {
            use_type_invariant(self);
        }
        let n = self.keys.len();
        let mut i: usize = 0;
        while i < n
            invariant
                n == self.keys@.len(),
                i <= n,
                forall|j: int| 0 <= j < i ==> self.keys@[j]@ != key@,
            decreases n - i,
        {
            if bytes_eq(self.keys[i].as_slice(), key) {
                return Some(i);
            }
            i = i + 1;
        }
        None
    }

    /// The orders recorded for a file identifier, if any.
    pub fn get(&self, key: &[u8]) -> (r: Option<&Vec<OrderId>>)
        ensures
            match r {
                Some(v) => self.view().contains_key(key@) && v@ == self.view()[key@],
                None => !self.view().contains_key(key@),
            },
    {
        proof {
            use_type_invariant(self);
        }
        match self.find(key) {
            Some(i) => {
                proof {
                    self.lemma_at(i as int);
                }
                Some(&self.values[i])
            },
            None => None,
        }
    }

    /// Records `value` as the orders of file identifier `key`, replacing what was there.
    pub fn insert(&mut self, key: Vec<u8>, value: Vec<OrderId>)
        ensures
            final(self).view() == old(self).view().insert(key@, value@),
    {
        proof {
            use_type_invariant(&*self);
        }
        let ghost old_self = *self;
        let found = self.find(key.as_slice());
        let mut taken = FileMap { keys: Vec::new(), values: Vec::new() };
        std::mem::swap(&mut taken, self);
        let FileMap { keys: mut keys, values: mut values } = taken;
        match found {
            Some(i) => {
                values.set(i, value);
                proof {
                    assert forall|a: int, b: int|
                        0 <= a < keys@.len() && 0 <= b < keys@.len() && a != b
                            implies #[trigger] keys@[a]@ != #[trigger] keys@[b]@
                    by {
                        assert(old_self.keys@[a]@ != old_self.keys@[b]@);
                    }
                }
                *self = FileMap { keys, values };
                proof {
                    assert(self.keys@ == old_self.keys@);
                    assert forall|k: Seq<u8>| #![auto]
                        self.view().contains_key(k) == old_self.view().insert(key@, value@).contains_key(k)
                    by {
                        if old_self.view().contains_key(k) {
                            let j = choose|j: int| old_self.holds_at(k, j);
                            assert(self.holds_at(k, j));
                        }
                        if self.view().contains_key(k) {
                            let j = choose|j: int| self.holds_at(k, j);
                            assert(old_self.holds_at(k, j));
                        }
                        if k == key@ {
                            assert(self.holds_at(k, i as int));
                        }
                    }
                    assert forall|k: Seq<u8>| #[trigger] self.view().contains_key(k)
                        implies self.view()[k] == old_self.view().insert(key@, value@)[k]
                    by {
                        let j = choose|j: int| self.holds_at(k, j);
                        self.lemma_at(j);
                        old_self.lemma_at(j);
                        if j == i {
                            assert(k == key@);
                        } else {
                            assert(self.keys@[j]@ != self.keys@[i as int]@);
                        }
                    }
                    assert(self.view() =~= old_self.view().insert(key@, value@));
                }
            },
            None => {
                let ghost n = keys@.len();
                let ghost kv = key@;
                keys.push(key);
                values.push(value);
                proof {
                    assert(keys@[n as int]@ == kv);
                    assert forall|a: int, b: int|
                        0 <= a < keys@.len() && 0 <= b < keys@.len() && a != b
                            implies #[trigger] keys@[a]@ != #[trigger] keys@[b]@
                    by {
                        if a < n && b < n {
                            assert(old_self.keys@[a]@ != old_self.keys@[b]@);
                        } else if a == n {
                            assert(old_self.holds_at(keys@[b]@, b));
                        } else {
                            assert(old_self.holds_at(keys@[a]@, a));
                        }
                    }
                }
                *self = FileMap { keys, values };
                proof {
                    assert forall|k: Seq<u8>| #![auto]
                        self.view().contains_key(k) == old_self.view().insert(kv, value@).contains_key(k)
                    by {
                        if old_self.view().contains_key(k) {
                            let j = choose|j: int| old_self.holds_at(k, j);
                            assert(self.holds_at(k, j));
                        }
                        if self.view().contains_key(k) {
                            let j = choose|j: int| self.holds_at(k, j);
                            if j < n {
                                assert(old_self.holds_at(k, j));
                            }
                        }
                        if k == kv {
                            assert(self.holds_at(k, n as int));
                        }
                    }
                    assert forall|k: Seq<u8>| #[trigger] self.view().contains_key(k)
                        implies self.view()[k] == old_self.view().insert(kv, value@)[k]
                    by {
                        let j = choose|j: int| self.holds_at(k, j);
                        self.lemma_at(j);
                        if j < n {
                            old_self.lemma_at(j);
                            assert(old_self.holds_at(k, j));
                        } else {
                            assert(k == kv);
                        }
                    }
                    assert(self.view() =~= old_self.view().insert(kv, value@));
                }
            },
        }
    }

    /// A copy of the map.
    pub fn copy(&self) -> (r: FileMap)
        ensures
            r.view() == self.view(),
    {
        proof {
            use_type_invariant(self);
        }
        let mut keys: Vec<Vec<u8>> = Vec::new();
        let mut values: Vec<Vec<OrderId>> = Vec::new();
        let n = self.keys.len();
        let mut i: usize = 0;
        while i < n
            invariant
                n == self.keys@.len(),
                n == self.values@.len(),
                i <= n,
                keys@.len() == i,
                values@.len() == i,
                forall|j: int| 0 <= j < i ==> (#[trigger] keys@[j])@ == self.keys@[j]@,
                forall|j: int| 0 <= j < i ==> (#[trigger] values@[j])@ == self.values@[j]@,
            decreases n - i,
        {
            keys.push(copy_bytes(&self.keys[i]));
            values.push(copy_order_ids(&self.values[i]));
            i = i + 1;
        }
        proof {
            assert forall|a: int, b: int|
                0 <= a < keys@.len() && 0 <= b < keys@.len() && a != b
                    implies #[trigger] keys@[a]@ != #[trigger] keys@[b]@
            by {
                assert(self.keys@[a]@ != self.keys@[b]@);
            }
        }
        let r = FileMap { keys, values };
        proof {
            assert forall|k: Seq<u8>| #![auto] r.view().contains_key(k) == self.view().contains_key(k) by {
                if r.view().contains_key(k) {
                    let j = choose|j: int| r.holds_at(k, j);
                    assert(self.holds_at(k, j));
                }
                if self.view().contains_key(k) {
                    let j = choose|j: int| self.holds_at(k, j);
                    assert(r.holds_at(k, j));
                }
            }
            assert forall|k: Seq<u8>| #[trigger] r.view().contains_key(k) implies r.view()[k] == self.view()[k] by {
                let j = choose|j: int| r.holds_at(k, j);
                r.lemma_at(j);
                self.lemma_at(j);
            }
            assert(r.view() =~= self.view());
        }
        r
    }

    /// The file identifiers in the map, each once.
    pub fn file_identifiers(&self) -> (r: Vec<Vec<u8>>)
        ensures
            r@.len() == self.view().len(),
            forall|i: int| 0 <= i < r@.len() ==> self.view().contains_key(#[trigger] r@[i]@),
            forall|k: Seq<u8>| #[trigger] self.view().contains_key(k) ==> exists|i: int| 0 <= i < r@.len() && r@[i]@ == k,
    {
        proof {
            use_type_invariant(self);
            self.lemma_dom_is_keys();
        }
        let mut r: Vec<Vec<u8>> = Vec::new();
        let n = self.keys.len();
        let mut i: usize = 0;
        while i < n
            invariant
                n == self.keys@.len(),
                i <= n,
                r@.len() == i,
                forall|j: int| 0 <= j < i ==> (#[trigger] r@[j])@ == self.keys@[j]@,
            decreases n - i,
        {
            r.push(copy_bytes(&self.keys[i]));
            i = i + 1;
        }
        proof {
            assert forall|j: int| 0 <= j < r@.len() implies self.view().contains_key(#[trigger] r@[j]@) by {
                self.lemma_at(j);
            }
            assert forall|k: Seq<u8>| #[trigger] self.view().contains_key(k)
                implies exists|j: int| 0 <= j < r@.len() && r@[j]@ == k
            by {
                let j = choose|j: int| self.holds_at(k, j);
                assert(r@[j]@ == k);
            }
        }
        r
    }
}

} // verus!
