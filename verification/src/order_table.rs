use vstd::prelude::*;

use crate::bytes::order_id_eq;
use crate::types::{OrderId, StorageOrder, StorageOrderView};

verus! {

/// The storage orders, found by their identifiers. Each identifier occurs at most once.
#[derive(Debug)]
pub struct OrderTable {
    keys: Vec<OrderId>,
    values: Vec<StorageOrder>,
}

impl OrderTable {
    #[verifier::type_invariant]
    spec fn inv(self) -> bool {
        &&& self.keys@.len() == self.values@.len()
        &&& forall|i: int, j: int|
            0 <= i < self.keys@.len() && 0 <= j < self.keys@.len() && i != j
                ==> #[trigger] self.keys@[i] != #[trigger] self.keys@[j]
    }

    /// Whether order `k` has an entry at position `i`.
    spec fn holds_at(self, k: OrderId, i: int) -> bool {
        0 <= i < self.keys@.len() && self.keys@[i] == k
    }

    /// The position of order `k`.
    spec fn index_of(self, k: OrderId) -> int {
        choose|i: int| self.holds_at(k, i)
    }

    pub closed spec fn view(&self) -> Map<OrderId, StorageOrderView> {
        Map::new(
            |k: OrderId| exists|i: int| self.holds_at(k, i),
            |k: OrderId| self.values@[self.index_of(k)]@,
        )
    }

    proof fn lemma_at(self, i: int)
        requires
            self.inv(),
            0 <= i < self.keys@.len(),
        ensures
            self.view().contains_key(self.keys@[i]),
            self.view()[self.keys@[i]] == self.values@[i]@,
            self.index_of(self.keys@[i]) == i,
    {
        let k = self.keys@[i];
        assert(self.holds_at(k, i));
        let j = self.index_of(k);
        assert(self.holds_at(k, j));
        if j != i {
            assert(self.keys@[i] != self.keys@[j]);
        }
    }

    /// An empty table.
    pub fn new() -> (t: Self)
        ensures
            t.view() == Map::<OrderId, StorageOrderView>::empty(),
    {
        let t = OrderTable { keys: Vec::new(), values: Vec::new() };
        assert(t.view() =~= Map::<OrderId, StorageOrderView>::empty());
        t
    }

    proof fn lemma_dom_is_keys(self)
        requires
            self.inv(),
        ensures
            self.view().dom() == self.keys@.to_set(),
            self.view().dom().finite(),
            self.view().dom().len() == self.keys@.len(),
    {
        let ks = self.keys@;
        assert forall|k: OrderId| self.view().dom().contains(k) <==> ks.to_set().contains(k) by {
            if self.view().dom().contains(k) {
                let i = choose|i: int| self.holds_at(k, i);
                assert(ks[i] == k);
            }
            if ks.to_set().contains(k) {
                let i = choose|i: int| 0 <= i < ks.len() && ks[i] == k;
                assert(self.holds_at(k, i));
            }
        }
        assert(self.view().dom() =~= ks.to_set());
        assert(ks.no_duplicates()) by {
            assert forall|i: int, j: int| 0 <= i < ks.len() && 0 <= j < ks.len() && i != j implies ks[i] != ks[j] by {
                assert(self.keys@[i] != self.keys@[j]);
            }
        }
        ks.unique_seq_to_set();
    }

    /// The number of orders in the table.
    pub fn len(&self) -> (n: usize)
        ensures
            n == self.view().len(),
            self.view().dom().finite(),
    {
        proof {
            use_type_invariant(self);
            self.lemma_dom_is_keys();
        }
        self.keys.len()
    }

    /// Looks up the position of an order.
    fn find(&self, key: &OrderId) -> (r: Option<usize>)
        ensures
            match r {
                Some(i) => self.holds_at(*key, i as int),
                None => !self.view().contains_key(*key),
            },
    {
        proof {
            use_type_invariant(self);
        }
        let n = self.keys.len();
        let mut i: usize = 0;
        while i < n
            invariant
                n == self.keys@.len(),
                i <= n,
                forall|j: int| 0 <= j < i ==> self.keys@[j] != *key,
            decreases n - i,
        {
            if order_id_eq(&self.keys[i], key) {
                return Some(i);
            }
            i = i + 1;
        }
        None
    }

    /// Whether the table holds an order with this identifier.
    pub fn contains_key(&self, key: &OrderId) -> (r: bool)
        ensures
            r == self.view().contains_key(*key),
    {
        proof {
            use_type_invariant(self);
        }
        match self.find(key) {
            Some(i) => {
                proof {
                    self.lemma_at(i as int);
                }
                true
            },
            None => false,
        }
    }

    /// The order with this identifier, if any.
    pub fn get(&self, key: &OrderId) -> (r: Option<&StorageOrder>)
        ensures
            match r {
                Some(v) => self.view().contains_key(*key) && v@ == self.view()[*key],
                None => !self.view().contains_key(*key),
            },
    {
        proof {
            use_type_invariant(self);
        }
        match self.find(key) {
            Some(i) => {
                proof {
                    self.lemma_at(i as int);
                }
                Some(&self.values[i])
            },
            None => None,
        }
    }

    /// Records `value` under `key`, replacing what was there.
    pub fn insert(&mut self, key: OrderId, value: StorageOrder)
        ensures
            final(self).view() == old(self).view().insert(key, value@),
    {
        proof {
            use_type_invariant(&*self);
        }
        let ghost old_self = *self;
        let ghost vv = value@;
        let found = self.find(&key);
        let mut taken = OrderTable { keys: Vec::new(), values: Vec::new() };
        std::mem::swap(&mut taken, self);
        let OrderTable { keys: mut keys, values: mut values } = taken;
        match found {
            Some(i) => {
                values.set(i, value);
                proof {
                    assert forall|a: int, b: int|
                        0 <= a < keys@.len() && 0 <= b < keys@.len() && a != b
                            implies #[trigger] keys@[a] != #[trigger] keys@[b]
                    by {
                        assert(old_self.keys@[a] != old_self.keys@[b]);
                    }
                }
                *self = OrderTable { keys, values };
                proof {
                    assert(self.keys@ == old_self.keys@);
                    assert forall|k: OrderId| #![auto]
                        self.view().contains_key(k) == old_self.view().insert(key, vv).contains_key(k)
                    by {
                        if old_self.view().contains_key(k) {
                            let j = choose|j: int| old_self.holds_at(k, j);
                            assert(self.holds_at(k, j));
                        }
                        if self.view().contains_key(k) {
                            let j = choose|j: int| self.holds_at(k, j);
                            assert(old_self.holds_at(k, j));
                        }
                        if k == key {
                            assert(self.holds_at(k, i as int));
                        }
                    }
                    assert forall|k: OrderId| #[trigger] self.view().contains_key(k)
                        implies self.view()[k] == old_self.view().insert(key, vv)[k]
                    by {
                        let j = choose|j: int| self.holds_at(k, j);
                        self.lemma_at(j);
                        old_self.lemma_at(j);
                        if j == i {
                            assert(k == key);
                        } else {
                            assert(self.keys@[j] != self.keys@[i as int]);
                        }
                    }
                    assert(self.view() =~= old_self.view().insert(key, vv));
                }
            },
            None => {
                let ghost n = keys@.len();
                keys.push(key);
                values.push(value);
                proof {
                    assert(keys@[n as int] == key);
                    assert forall|a: int, b: int|
                        0 <= a < keys@.len() && 0 <= b < keys@.len() && a != b
                            implies #[trigger] keys@[a] != #[trigger] keys@[b]
                    by {
                        if a < n && b < n {
                            assert(old_self.keys@[a] != old_self.keys@[b]);
                        } else if a == n {
                            assert(old_self.holds_at(keys@[b], b));
                        } else {
                            assert(old_self.holds_at(keys@[a], a));
                        }
                    }
                }
                *self = OrderTable { keys, values };
                proof {
                    assert forall|k: OrderId| #![auto]
                        self.view().contains_key(k) == old_self.view().insert(key, vv).contains_key(k)
                    by {
                        if old_self.view().contains_key(k) {
                            let j = choose|j: int| old_self.holds_at(k, j);
                            assert(self.holds_at(k, j));
                        }
                        if self.view().contains_key(k) {
                            let j = choose|j: int| self.holds_at(k, j);
                            if j < n {
                                assert(old_self.holds_at(k, j));
                            }
                        }
                        if k == key {
                            assert(self.holds_at(k, n as int));
                        }
                    }
                    assert forall|k: OrderId| #[trigger] self.view().contains_key(k)
                        implies self.view()[k] == old_self.view().insert(key, vv)[k]
                    by {
                        let j = choose|j: int| self.holds_at(k, j);
                        self.lemma_at(j);
                        if j < n {
                            old_self.lemma_at(j);
                            assert(old_self.holds_at(k, j));
                        } else {
                            assert(k == key);
                        }
                    }
                    assert(self.view() =~= old_self.view().insert(key, vv));
                }
            },
        }
    }
}

} // verus!
