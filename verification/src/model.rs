use vstd::prelude::*;

use crate::provision::ProvisionView;
use crate::types::{
    pledge_lock, AccountId, Balance, BalanceLock, BlockNumber, Error, Event, EventView, OrderId,
    OrderStatus, PledgeLedger, StorageOrderView,
};

verus! {

/// The market's state: what its storage holds, and the amount that the currency
/// keeps locked under the market's lock identifier for each account.
pub struct MarketView {
    /// An order must last longer than this many blocks.
    pub report_slot: u32,
    /// A mapping from storage provider to its provision
    pub providers: Map<AccountId, ProvisionView>,
    /// A mapping from clients to their order ids
    pub clients: Map<AccountId, Seq<OrderId>>,
    /// Order details by order id
    pub storage_orders: Map<OrderId, StorageOrderView>,
    /// Pledge details by provider id
    pub pledge_ledgers: Map<AccountId, PledgeLedger>,
    /// The market's currency lock (under `MARKET_ID`) on each account
    pub locks: Map<AccountId, BalanceLock>,
}

/// The list stored under `k`, or the empty list.
pub open spec fn list_or_empty<K>(m: Map<K, Seq<OrderId>>, k: K) -> Seq<OrderId> {
    if m.contains_key(k) {
        m[k]
    } else {
        Seq::empty()
    }
}

/// The abstract value of a call's result.
pub open spec fn outcome_view(r: Result<Event, Error>) -> Result<EventView, Error> {
    match r {
        Ok(e) => Ok(e@),
        Err(e) => Err(e),
    }
}

impl MarketView {
    /// The state of a new market.
    pub open spec fn empty(report_slot: u32) -> MarketView {
        MarketView {
            report_slot,
            providers: Map::empty(),
            clients: Map::empty(),
            storage_orders: Map::empty(),
            pledge_ledgers: Map::empty(),
            locks: Map::empty(),
        }
    }

    /// No provider has used more of its pledge than it holds.
    pub open spec fn ledgers_within_pledge(self) -> bool {
        forall|p: AccountId| #[trigger] self.pledge_ledgers.contains_key(p) ==> self.pledge_ledgers[p].wf()
    }

    /// The market holds a lock on exactly the pledged accounts, of the pledge's total,
    /// for every withdraw reason.
    pub open spec fn locks_mirror_ledgers(self) -> bool {
        &&& self.locks.dom() == self.pledge_ledgers.dom()
        &&& forall|p: AccountId| #[trigger] self.pledge_ledgers.contains_key(p)
            ==> self.locks[p] == pledge_lock(self.pledge_ledgers[p].total)
    }

    /// Each order listed for a client is a stored order, and is listed once.
    pub open spec fn client_orders_stored(self) -> bool {
        forall|c: AccountId| #[trigger] self.clients.contains_key(c) ==> {
            &&& self.clients[c].no_duplicates()
            &&& forall|i: int| 0 <= i < self.clients[c].len()
                ==> self.storage_orders.contains_key(#[trigger] self.clients[c][i])
        }
    }

    /// Each order listed in a provider's file map is a stored order, and is listed once per file.
    pub open spec fn file_orders_stored(self) -> bool {
        forall|p: AccountId, f: Seq<u8>|
            #![trigger self.providers[p].file_map[f]]
            self.providers.contains_key(p) && self.providers[p].file_map.contains_key(f) ==> {
                &&& self.providers[p].file_map[f].no_duplicates()
                &&& forall|i: int| 0 <= i < self.providers[p].file_map[f].len()
                    ==> self.storage_orders.contains_key(#[trigger] self.providers[p].file_map[f][i])
            }
    }

    /// The consistency that every call of the market keeps.
    pub open spec fn wf(self) -> bool {
        &&& self.ledgers_within_pledge()
        &&& self.locks_mirror_ledgers()
        &&& self.client_orders_stored()
        &&& self.file_orders_stored()
    }

    /// Sets the lock and stores the ledger of `provider`.
    pub open spec fn upsert_ledger(self, provider: AccountId, ledger: PledgeLedger) -> MarketView {
        MarketView {
            pledge_ledgers: self.pledge_ledgers.insert(provider, ledger),
            locks: self.locks.insert(provider, pledge_lock(ledger.total)),
            ..self
        }
    }

    /// Removes the ledger and the lock of `provider`.
    pub open spec fn remove_ledger(self, provider: AccountId) -> MarketView {
        MarketView {
            pledge_ledgers: self.pledge_ledgers.remove(provider),
            locks: self.locks.remove(provider),
            ..self
        }
    }

    /// Records `who` as a provider at `address_info`, keeping its files if it was one.
    pub open spec fn register_provider(self, who: AccountId, address_info: Seq<u8>) -> MarketView {
        let file_map = if self.providers.contains_key(who) {
            self.providers[who].file_map
        } else {
            Map::empty()
        };
        MarketView {
            providers: self.providers.insert(who, ProvisionView { address_info, file_map }),
            ..self
        }
    }

    /// Stores order `order_id`, lists it for its client and in the provider's file map.
    pub open spec fn insert_order(
        self,
        client: AccountId,
        provider: AccountId,
        order_id: OrderId,
        so: StorageOrderView,
    ) -> MarketView {
        let providers = if self.providers.contains_key(provider) {
            let p = self.providers[provider];
            let ids = list_or_empty(p.file_map, so.file_identifier).push(order_id);
            self.providers.insert(
                provider,
                ProvisionView {
                    address_info: p.address_info,
                    file_map: p.file_map.insert(so.file_identifier, ids),
                },
            )
        } else {
            self.providers
        };
        MarketView {
            storage_orders: self.storage_orders.insert(order_id, so),
            clients: self.clients.insert(client, list_or_empty(self.clients, client).push(order_id)),
            providers,
            ..self
        }
    }

    /// Adds `amount` to the used part of `provider`'s pledge.
    pub open spec fn use_pledge(self, provider: AccountId, amount: Balance) -> MarketView {
        let l = self.pledge_ledgers[provider];
        MarketView {
            pledge_ledgers: self.pledge_ledgers.insert(
                provider,
                PledgeLedger { total: l.total, used: (l.used + amount) as u128 },
            ),
            ..self
        }
    }
}

/// Storing a fresh order keeps the market consistent.
pub proof fn lemma_insert_order_wf(
    s: MarketView,
    client: AccountId,
    provider: AccountId,
    order_id: OrderId,
    so: StorageOrderView,
)
    requires
        s.wf(),
        !s.storage_orders.contains_key(order_id),
    ensures
        s.insert_order(client, provider, order_id, so).wf(),
{
    let t = s.insert_order(client, provider, order_id, so);
    assert(t.locks_mirror_ledgers());
    assert forall|c: AccountId| #[trigger] t.clients.contains_key(c) implies {
        &&& t.clients[c].no_duplicates()
        &&& forall|i: int| 0 <= i < t.clients[c].len() ==> t.storage_orders.contains_key(#[trigger] t.clients[c][i])
    } by {
        if c == client {
            let old_list = list_or_empty(s.clients, client);
            assert(t.clients[c] == old_list.push(order_id));
            assert forall|i: int| 0 <= i < old_list.len() implies old_list[i] != order_id by {
                assert(s.storage_orders.contains_key(s.clients[c][i]));
            }
            assert forall|i: int| 0 <= i < t.clients[c].len() implies t.storage_orders.contains_key(
                #[trigger] t.clients[c][i],
            ) by {
                if i < old_list.len() {
                    assert(s.storage_orders.contains_key(s.clients[c][i]));
                }
            }
        } else {
            assert forall|i: int| 0 <= i < t.clients[c].len() implies t.storage_orders.contains_key(
                #[trigger] t.clients[c][i],
            ) by {
                assert(s.storage_orders.contains_key(s.clients[c][i]));
            }
        }
    }
    assert forall|p: AccountId, f: Seq<u8>|
        #![trigger t.providers[p].file_map[f]]
        t.providers.contains_key(p) && t.providers[p].file_map.contains_key(f) implies {
            &&& t.providers[p].file_map[f].no_duplicates()
            &&& forall|i: int| 0 <= i < t.providers[p].file_map[f].len()
                ==> t.storage_orders.contains_key(#[trigger] t.providers[p].file_map[f][i])
        } by {
        if p == provider && f == so.file_identifier {
            let fm = s.providers[p].file_map;
            let old_list = list_or_empty(fm, f);
            assert(t.providers[p].file_map[f] == old_list.push(order_id));
            assert forall|i: int| 0 <= i < old_list.len() implies old_list[i] != order_id by {
                assert(s.storage_orders.contains_key(s.providers[p].file_map[f][i]));
            }
            assert forall|i: int| 0 <= i < t.providers[p].file_map[f].len() implies t.storage_orders.contains_key(
                #[trigger] t.providers[p].file_map[f][i],
            ) by {
                if i < old_list.len() {
                    assert(s.storage_orders.contains_key(s.providers[p].file_map[f][i]));
                }
            }
        } else {
            assert(t.providers[p].file_map[f] == s.providers[p].file_map[f]);
            assert forall|i: int| 0 <= i < t.providers[p].file_map[f].len() implies t.storage_orders.contains_key(
                #[trigger] t.providers[p].file_map[f][i],
            ) by {
                assert(s.storage_orders.contains_key(s.providers[p].file_map[f][i]));
            }
        }
    }
}

/// Using part of the unused pledge keeps the market consistent.
pub proof fn lemma_use_pledge_wf(s: MarketView, provider: AccountId, amount: Balance)
    requires
        s.wf(),
        s.pledge_ledgers.contains_key(provider),
        amount <= s.pledge_ledgers[provider].unused(),
    ensures
        s.use_pledge(provider, amount).wf(),
{
    let t = s.use_pledge(provider, amount);
    assert(t.locks.dom() =~= t.pledge_ledgers.dom());
}

/// The outcome of `pledge`: a first pledge of `value` by `who`.
pub open spec fn pledge_spec(
    s: MarketView,
    who: AccountId,
    value: Balance,
    minimum_balance: Balance,
    transferable: Balance,
) -> (MarketView, Result<EventView, Error>) {
    if value < minimum_balance {
        (s, Err(Error::InsufficientValue))
    } else if value > transferable {
        (s, Err(Error::InsufficientCurrency))
    } else if s.pledge_ledgers.contains_key(who) {
        (s, Err(Error::DoublePledged))
    } else {
        (s.upsert_ledger(who, PledgeLedger { total: value, used: 0 }), Ok(EventView::PledgeSuccess(who)))
    }
}

/// The outcome of `pledge_extra`: `who` adds `value` to its pledge.
pub open spec fn pledge_extra_spec(
    s: MarketView,
    who: AccountId,
    value: Balance,
    minimum_balance: Balance,
    transferable: Balance,
) -> (MarketView, Result<EventView, Error>) {
    if value < minimum_balance {
        (s, Err(Error::InsufficientValue))
    } else if !s.pledge_ledgers.contains_key(who) {
        (s, Err(Error::NotPledged))
    } else if value > transferable {
        (s, Err(Error::InsufficientCurrency))
    } else {
        let l = s.pledge_ledgers[who];
        (
            s.upsert_ledger(who, PledgeLedger { total: (l.total + value) as u128, used: l.used }),
            Ok(EventView::PledgeSuccess(who)),
        )
    }
}

/// `pledge_extra` would overflow the pledge's total.
pub open spec fn pledge_extra_overflows(
    s: MarketView,
    who: AccountId,
    value: Balance,
    minimum_balance: Balance,
    transferable: Balance,
) -> bool {
    &&& minimum_balance <= value <= transferable
    &&& s.pledge_ledgers.contains_key(who)
    &&& s.pledge_ledgers[who].total + value > u128::MAX
}

/// The outcome of `cut_pledge`: `who` takes `value` out of the unused part of its pledge;
/// a pledge cut to nothing is removed together with its lock.
pub open spec fn cut_pledge_spec(
    s: MarketView,
    who: AccountId,
    value: Balance,
    minimum_balance: Balance,
) -> (MarketView, Result<EventView, Error>) {
    if value < minimum_balance {
        (s, Err(Error::InsufficientValue))
    } else if !s.pledge_ledgers.contains_key(who) {
        (s, Err(Error::NotPledged))
    } else if value > s.pledge_ledgers[who].unused() {
        (s, Err(Error::InsufficientPledge))
    } else {
        let l = s.pledge_ledgers[who];
        let total = (l.total - value) as u128;
        if total == 0 {
            (s.remove_ledger(who), Ok(EventView::PledgeSuccess(who)))
        } else {
            (s.upsert_ledger(who, PledgeLedger { total, used: l.used }), Ok(EventView::PledgeSuccess(who)))
        }
    }
}

/// The outcome of `register`, where `has_works` is the order inspector's verdict on `who`.
pub open spec fn register_spec(
    s: MarketView,
    who: AccountId,
    address_info: Seq<u8>,
    has_works: bool,
) -> (MarketView, Result<EventView, Error>) {
    if !has_works {
        (s, Err(Error::NoWorkload))
    } else if !s.pledge_ledgers.contains_key(who) {
        (s, Err(Error::NotPledged))
    } else {
        (s.register_provider(who, address_info), Ok(EventView::RegisterSuccess(who)))
    }
}

/// The checks of `place_storage_order` made before the order inspector is asked, in order:
/// the error of the first that fails.
pub open spec fn order_terms_error(
    s: MarketView,
    who: AccountId,
    provider: AccountId,
    duration: u32,
) -> Option<Error> {
    if who == provider {
        Some(Error::PlaceSelfOrder)
    } else if duration <= s.report_slot {
        Some(Error::DurationTooShort)
    } else if !s.providers.contains_key(provider) {
        Some(Error::NotProvider)
    } else {
        None
    }
}

/// The funding checks of `place_storage_order`: the client can pay, the provider has
/// enough unused pledge.
pub open spec fn order_funds_error(
    s: MarketView,
    provider: AccountId,
    amount: Balance,
    can_reserve: bool,
) -> Option<Error> {
    if !can_reserve {
        Some(Error::InsufficientCurrency)
    } else if !s.pledge_ledgers.contains_key(provider) {
        Some(Error::InsufficientPledge)
    } else if amount > s.pledge_ledgers[provider].unused() {
        Some(Error::InsufficientPledge)
    } else {
        None
    }
}

/// The order that `place_storage_order` builds: pending, created now, expiring after `duration` blocks.
pub open spec fn new_order_spec(
    who: AccountId,
    provider: AccountId,
    amount: Balance,
    file_identifier: Seq<u8>,
    file_size: u64,
    duration: u32,
    block_number: BlockNumber,
) -> StorageOrderView {
    StorageOrderView {
        file_identifier,
        file_size,
        created_on: block_number,
        completed_on: block_number,
        expired_on: (block_number + duration) as u32,
        provider,
        client: who,
        amount,
        status: OrderStatus::Pending,
    }
}

/// The outcome of `place_storage_order`, where `has_works` is the order inspector's verdict
/// on the provider and `reserved` whether the payment handler reserved the client's funds.
pub open spec fn place_order_spec(
    s: MarketView,
    who: AccountId,
    provider: AccountId,
    amount: Balance,
    file_identifier: Seq<u8>,
    file_size: u64,
    duration: u32,
    block_number: BlockNumber,
    can_reserve: bool,
    order_id: OrderId,
    has_works: bool,
    reserved: bool,
) -> (MarketView, Result<EventView, Error>) {
    if let Some(e) = order_terms_error(s, who, provider, duration) {
        (s, Err(e))
    } else if !has_works {
        (s, Err(Error::NoWorkload))
    } else if let Some(e) = order_funds_error(s, provider, amount, can_reserve) {
        (s, Err(e))
    } else if s.storage_orders.contains_key(order_id) || !reserved {
        (s, Err(Error::GenerateOrderIdFailed))
    } else {
        let so = new_order_spec(who, provider, amount, file_identifier, file_size, duration, block_number);
        (
            s.insert_order(who, provider, order_id, so).use_pledge(provider, amount),
            Ok(EventView::StorageOrderSuccess(who, so)),
        )
    }
}

/// The order's expiry would overflow the block number type, on inputs that pass every
/// check of `place_storage_order` before the order is built, where `has_works` is the
/// order inspector's verdict.
pub open spec fn place_order_overflows(
    s: MarketView,
    who: AccountId,
    provider: AccountId,
    amount: Balance,
    duration: u32,
    block_number: BlockNumber,
    can_reserve: bool,
    has_works: bool,
) -> bool {
    &&& order_terms_error(s, who, provider, duration) is None
    &&& has_works
    &&& order_funds_error(s, provider, amount, can_reserve) is None
    &&& block_number + duration > u32::MAX
}

/// The outcome of `maybe_set_sorder`: an order that is stored is replaced by `so`;
/// an unknown order is left unknown.
pub open spec fn set_sorder_spec(s: MarketView, order_id: OrderId, so: StorageOrderView) -> MarketView {
    if s.storage_orders.contains_key(order_id) {
        MarketView { storage_orders: s.storage_orders.insert(order_id, so), ..s }
    } else {
        s
    }
}

/// The payment handler is owed a call by `maybe_set_sorder`: the stored order changes and
/// is confirmed for the first time (pending to success).
pub open spec fn payment_due(s: MarketView, order_id: OrderId, so: StorageOrderView) -> bool {
    &&& s.storage_orders.contains_key(order_id)
    &&& s.storage_orders[order_id] != so
    &&& s.storage_orders[order_id].status == OrderStatus::Pending
    &&& so.status == OrderStatus::Success
}

} // verus!
