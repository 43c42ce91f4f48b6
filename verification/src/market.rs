use vstd::prelude::*;

use std::collections::HashMap;
use std::marker::PhantomData;

use crate::bytes::{copy_bytes, copy_order_ids};
use crate::model::{
    cut_pledge_spec, outcome_view, pledge_extra_overflows, pledge_extra_spec, pledge_spec,
    lemma_insert_order_wf, lemma_use_pledge_wf, new_order_spec, order_funds_error, order_terms_error,
    payment_due, place_order_overflows, place_order_spec, register_spec,
    set_sorder_spec, MarketView,
};
use crate::order_table::OrderTable;
use crate::file_map::FileMap;
use crate::provision::Provision;
use crate::traits::{MarketInterface, OrderInspector, Payment, Trait};
use crate::types::{
    AccountId, Balance, BalanceLock, BlockNumber, Error, Event, OrderId, OrderStatus, PledgeLedger,
    StorageOrder, WithdrawReasons,
};

verus! {

broadcast use vstd::std_specs::hash::group_hash_axioms;

/// The storage market: providers pledge currency and register, clients place storage
/// orders with them.
pub struct Module<T: Trait> {
    report_slot: u32,
    providers: HashMap<AccountId, Provision>,
    clients: HashMap<AccountId, Vec<OrderId>>,
    storage_orders: OrderTable,
    pledge_ledgers: HashMap<AccountId, PledgeLedger>,
    locks: HashMap<AccountId, BalanceLock>,
    runtime: PhantomData<T>,
}

impl<T: Trait> View for Module<T> {
    type V = MarketView;

    closed spec fn view(&self) -> MarketView {
        MarketView {
            report_slot: self.report_slot,
            providers: self.providers@.map_values(|p: Provision| p@),
            clients: self.clients@.map_values(|v: Vec<OrderId>| v@),
            storage_orders: self.storage_orders.view(),
            pledge_ledgers: self.pledge_ledgers@,
            locks: self.locks@,
        }
    }
}

impl<T: Trait> Module<T> {
    /// The market's state is consistent.
    pub open spec fn wf(&self) -> bool {
        self@.wf()
    }

    /// A market with no providers, clients, orders or pledges.
    pub fn new(report_slot: u32) -> (m: Self)
        ensures
            m.wf(),
            m@ == MarketView::empty(report_slot),
    {
        let m = Module {
            report_slot,
            providers: HashMap::new(),
            clients: HashMap::new(),
            storage_orders: OrderTable::new(),
            pledge_ledgers: HashMap::new(),
            locks: HashMap::new(),
            runtime: PhantomData,
        };
        assert(m@.providers =~= Map::empty());
        assert(m@.clients =~= Map::empty());
        m
    }

    /// Orders must last longer than this many blocks.
    pub fn report_slot(&self) -> (r: u32)
        ensures
            r == self@.report_slot,
    {
        self.report_slot
    }

    /// The provision of a provider, if it registered.
    pub fn providers(&self, account_id: &AccountId) -> (r: Option<Provision>)
        ensures
            match r {
                Some(p) => self@.providers.contains_key(*account_id) && p@ == self@.providers[*account_id],
                None => !self@.providers.contains_key(*account_id),
            },
    {
        match self.providers.get(account_id) {
            Some(p) => Some(p.copy()),
            None => None,
        }
    }

    /// The orders placed by a client, if it placed any.
    pub fn clients(&self, account_id: &AccountId) -> (r: Option<Vec<OrderId>>)
        ensures
            match r {
                Some(v) => self@.clients.contains_key(*account_id) && v@ == self@.clients[*account_id],
                None => !self@.clients.contains_key(*account_id),
            },
    {
        match self.clients.get(account_id) {
            Some(v) => Some(copy_order_ids(v)),
            None => None,
        }
    }

    /// The order with this identifier, if any.
    pub fn storage_orders(&self, order_id: &OrderId) -> (r: Option<StorageOrder>)
        ensures
            match r {
                Some(o) => self@.storage_orders.contains_key(*order_id) && o@ == self@.storage_orders[*order_id],
                None => !self@.storage_orders.contains_key(*order_id),
            },
    {
        match self.storage_orders.get(order_id) {
            Some(o) => Some(o.copy()),
            None => None,
        }
    }

    /// The pledge of a provider; an empty ledger where it has none.
    pub fn pledge_ledgers(&self, account_id: &AccountId) -> (r: PledgeLedger)
        ensures
            self@.pledge_ledgers.contains_key(*account_id) ==> r == self@.pledge_ledgers[*account_id],
            !self@.pledge_ledgers.contains_key(*account_id) ==> (r == PledgeLedger { total: 0, used: 0 }),
    {
        match self.pledge_ledgers.get(account_id) {
            Some(l) => *l,
            None => PledgeLedger::default(),
        }
    }

    /// The market's lock on an account, if it holds one there.
    pub fn market_lock(&self, account_id: &AccountId) -> (r: Option<BalanceLock>)
        ensures
            match r {
                Some(b) => self@.locks.contains_key(*account_id) && b == self@.locks[*account_id],
                None => !self@.locks.contains_key(*account_id),
            },
    {
        match self.locks.get(account_id) {
            Some(b) => Some(*b),
            None => None,
        }
    }

    /// Sets the market's lock on `provider` to the ledger's total and stores the ledger.
    fn upsert_pledge_ledger(&mut self, provider: &AccountId, pledge_ledger: &PledgeLedger)
        ensures
            final(self)@ == old(self)@.upsert_ledger(*provider, *pledge_ledger),
    {
        // 1. Set lock
        self.locks.insert(*provider, BalanceLock { amount: pledge_ledger.total, reasons: WithdrawReasons::all() });
        // 2. Update PledgeLedger
        self.pledge_ledgers.insert(*provider, *pledge_ledger);
    }

    /// Pledge `value` to become able to accept market orders; an account pledges once.
    pub fn pledge(
        &mut self,
        who: AccountId,
        value: Balance,
        minimum_balance: Balance,
        transferable: Balance,
    ) -> (r: Result<Event, Error>)
        requires
            old(self).wf(),
        ensures
            final(self).wf(),
            (final(self)@, outcome_view(r)) == pledge_spec(old(self)@, who, value, minimum_balance, transferable),
    {
        // 1. Reject a pledge which is considered to be _dust_.
        if value < minimum_balance {
            return Err(Error::InsufficientValue);
        }
        // 2. Ensure provider has enough currency.
        if value > transferable {
            return Err(Error::InsufficientCurrency);
        }
        // 3. Check if provider has not pledged before
        if self.pledge_ledgers.contains_key(&who) {
            return Err(Error::DoublePledged);
        }
        // 4. Prepare new pledge ledger
        let pledge_ledger = PledgeLedger { total: value, used: 0 };
        // 5. Upsert pledge ledger
        self.upsert_pledge_ledger(&who, &pledge_ledger);
        // 6. Emit success
        Ok(Event::PledgeSuccess(who))
    }

    /// Pledge extra amount of currency to accept market order.
    pub fn pledge_extra(
        &mut self,
        who: AccountId,
        value: Balance,
        minimum_balance: Balance,
        transferable: Balance,
    ) -> (r: Result<Event, Error>)
        requires
            old(self).wf(),
            !pledge_extra_overflows(old(self)@, who, value, minimum_balance, transferable),
        ensures
            final(self).wf(),
            (final(self)@, outcome_view(r)) == pledge_extra_spec(
                old(self)@,
                who,
                value,
                minimum_balance,
                transferable,
            ),
    {
        // 1. Reject a pledge which is considered to be _dust_.
        if value < minimum_balance {
            return Err(Error::InsufficientValue);
        }
        // 2. Check if provider has pledged before
        if !self.pledge_ledgers.contains_key(&who) {
            return Err(Error::NotPledged);
        }
        // 3. Ensure provider has enough currency.
        if value > transferable {
            return Err(Error::InsufficientCurrency);
        }
        let mut pledge_ledger = self.pledge_ledgers(&who);
        // 4. Increase total value
        pledge_ledger.total = pledge_ledger.total + value;
        // 5. Upsert pledge ledger
        self.upsert_pledge_ledger(&who, &pledge_ledger);
        // 6. Emit success
        Ok(Event::PledgeSuccess(who))
    }

    /// Decrease pledge amount of currency for market order.
    pub fn cut_pledge(&mut self, who: AccountId, value: Balance, minimum_balance: Balance) -> (r: Result<
        Event,
        Error,
    >)
        requires
            old(self).wf(),
        ensures
            final(self).wf(),
            (final(self)@, outcome_view(r)) == cut_pledge_spec(old(self)@, who, value, minimum_balance),
    {
        // 1. Reject a pledge which is considered to be _dust_.
        if value < minimum_balance {
            return Err(Error::InsufficientValue);
        }
        // 2. Check if provider has pledged before
        if !self.pledge_ledgers.contains_key(&who) {
            return Err(Error::NotPledged);
        }
        // 3. Ensure value is smaller than unused.
        let mut pledge_ledger = self.pledge_ledgers(&who);
        if value > pledge_ledger.total - pledge_ledger.used {
            return Err(Error::InsufficientPledge);
        }
        // 4. Decrease total value
        pledge_ledger.total = pledge_ledger.total - value;
        // 5. Upsert pledge ledger
        if pledge_ledger.total == 0 {
            self.pledge_ledgers.remove(&who);
            // remove the lock.
            self.locks.remove(&who);
        } else {
            self.upsert_pledge_ledger(&who, &pledge_ledger);
        }
        // 6. Emit success
        Ok(Event::PledgeSuccess(who))
    }

    /// Register to be a provider at `address_info`, where `has_works` is the order
    /// inspector's verdict on whether `who` has works.
    pub fn register_with(&mut self, who: AccountId, address_info: Vec<u8>, has_works: bool) -> (r: Result<
        Event,
        Error,
    >)
        requires
            old(self).wf(),
        ensures
            final(self).wf(),
            (final(self)@, outcome_view(r)) == register_spec(old(self)@, who, address_info@, has_works),
    {
        // 1. Make sure you have works
        if !has_works {
            return Err(Error::NoWorkload);
        }
        // 2. Check if provider has pledged before
        if !self.pledge_ledgers.contains_key(&who) {
            return Err(Error::NotPledged);
        }
        // 3. Upsert provision
        let ghost addr = address_info@;
        let provision = match self.providers.remove(&who) {
            // Change provider's address info
            Some(p) => Provision { address_info, file_map: p.file_map },
            // New provider
            None => Provision { address_info, file_map: FileMap::new() },
        };
        self.providers.insert(who, provision);
        proof {
            let expected = old(self)@.register_provider(who, addr);
            assert(self@.providers =~= expected.providers);
        }
        // 4. Emit success
        Ok(Event::RegisterSuccess(who))
    }

    /// Register to be a provider, you should provide your storage layer's address info.
    /// The runtime's order inspector decides whether `who` has works.
    pub fn register(&mut self, who: AccountId, address_info: Vec<u8>) -> (r: Result<Event, Error>)
        requires
            old(self).wf(),
        ensures
            final(self).wf(),
            exists|has_works: bool|
                #[trigger] register_spec(old(self)@, who, address_info@, has_works) == (
                    final(self)@,
                    outcome_view(r),
                ) && call_ensures(T::OrderInspector::check_works, (&who, 0u64), has_works),
    {
        let has_works = T::OrderInspector::check_works(&who, 0u64);
        let r = self.register_with(who, address_info, has_works);
        assert(register_spec(old(self)@, who, address_info@, has_works) == (self@, outcome_view(r)));
        r
    }

    /// Stores order `so` under `order_id` for `client` with `provider`, where `reserved` is
    /// whether the payment handler reserved the client's funds. A taken identifier, or funds
    /// that were not reserved, leave the market as it was.
    pub fn maybe_insert_sorder_with(
        &mut self,
        client: &AccountId,
        provider: &AccountId,
        so: &StorageOrder,
        order_id: OrderId,
        reserved: bool,
    ) -> (r: bool)
        requires
            old(self).wf(),
        ensures
            final(self).wf(),
            r == (!old(self)@.storage_orders.contains_key(order_id) && reserved),
            r ==> final(self)@ == old(self)@.insert_order(*client, *provider, order_id, so@),
            !r ==> final(self)@ == old(self)@,
    {
        // This should be false, cause we don't allow duplicated `order_id`
        if self.storage_orders.contains_key(&order_id) {
            return false;
        }
        // 0. If reserve client's balance failed return error
        if !reserved {
            return false;
        }
        let ghost s0 = self@;
        // 1. Add new storage order
        self.storage_orders.insert(order_id, so.copy());
        // 2. Add `order_id` to client orders
        let mut client_orders = match self.clients.remove(client) {
            Some(v) => v,
            None => Vec::new(),
        };
        client_orders.push(order_id);
        self.clients.insert(*client, client_orders);
        // 3. Add `file_identifier` -> `order_id`s to provider's file_map
        match self.providers.remove(provider) {
            Some(provision) => {
                let Provision { address_info, file_map: mut file_map } = provision;
                let mut order_ids: Vec<OrderId> = match file_map.get(so.file_identifier.as_slice()) {
                    Some(o_ids) => copy_order_ids(o_ids),
                    None => Vec::new(),
                };
                order_ids.push(order_id);
                file_map.insert(copy_bytes(&so.file_identifier), order_ids);
                self.providers.insert(*provider, Provision { address_info, file_map });
            },
            None => {},
        }
        proof {
            let expected = s0.insert_order(*client, *provider, order_id, so@);
            assert(self@.clients =~= expected.clients);
            assert(self@.providers =~= expected.providers);
            assert(self@.storage_orders =~= expected.storage_orders);
            lemma_insert_order_wf(s0, *client, *provider, order_id, so@);
        }
        true
    }

    /// Stores a new order, once the payment handler has reserved the client's funds.
    fn maybe_insert_sorder(
        &mut self,
        client: &AccountId,
        provider: &AccountId,
        so: &StorageOrder,
        order_id: OrderId,
    ) -> (r: bool)
        requires
            old(self).wf(),
        ensures
            final(self).wf(),
            old(self)@.storage_orders.contains_key(order_id) ==> !r,
            !old(self)@.storage_orders.contains_key(order_id) ==> call_ensures(
                T::Payment::reserve_sorder,
                (&order_id, client, so.amount),
                r,
            ),
            r ==> final(self)@ == old(self)@.insert_order(*client, *provider, order_id, so@),
            !r ==> final(self)@ == old(self)@,
    {
        if self.storage_orders.contains_key(&order_id) {
            return false;
        }
        let reserved = T::Payment::reserve_sorder(&order_id, client, so.amount);
        self.maybe_insert_sorder_with(client, provider, so, order_id, reserved)
    }

    /// Steps 1 to 3 of placing an order: not to oneself, long enough, with a registered provider.
    fn check_order_terms(&self, who: AccountId, provider: AccountId, duration: u32) -> (r: Option<Error>)
        ensures
            r == order_terms_error(self@, who, provider, duration),
    {
        // 1. Cannot place storage order to himself.
        if who == provider {
            return Some(Error::PlaceSelfOrder);
        }
        // 2. Expired should be greater than created
        if duration <= self.report_slot {
            return Some(Error::DurationTooShort);
        }
        // 3. Check if provider is registered
        if !self.providers.contains_key(&provider) {
            return Some(Error::NotProvider);
        }
        None
    }

    /// Steps 5 to 7 of placing an order: the client can pay, the provider has enough unused pledge.
    fn check_order_funds(&self, provider: AccountId, amount: Balance, can_reserve: bool) -> (r: Option<Error>)
        requires
            self.wf(),
        ensures
            r == order_funds_error(self@, provider, amount, can_reserve),
    {
        // 5. Check client has enough currency to pay
        if !can_reserve {
            return Some(Error::InsufficientCurrency);
        }
        // 6. Check if provider pledged
        if !self.pledge_ledgers.contains_key(&provider) {
            return Some(Error::InsufficientPledge);
        }
        // 7. Check provider has unused pledge
        let pledge_ledger = self.pledge_ledgers(&provider);
        if amount > pledge_ledger.total - pledge_ledger.used {
            return Some(Error::InsufficientPledge);
        }
        None
    }

    /// Step 8 of placing an order: the pending order, created at `block_number`.
    fn build_order(
        who: AccountId,
        provider: AccountId,
        amount: Balance,
        file_identifier: Vec<u8>,
        file_size: u64,
        duration: u32,
        block_number: BlockNumber,
    ) -> (so: StorageOrder)
        requires
            block_number + duration <= u32::MAX,
        ensures
            so@ == new_order_spec(who, provider, amount, file_identifier@, file_size, duration, block_number),
    {
        let created_on = block_number;
        StorageOrder {
            file_identifier,
            file_size,
            created_on,
            completed_on: created_on,
            // this will be changed, when `status` become `Success`
            expired_on: created_on + duration,
            provider,
            client: who,
            amount,
            status: OrderStatus::Pending,
        }
    }

    /// Step 9a of placing an order: the provider's pledge backs the accepted order.
    fn use_pledge(&mut self, provider: AccountId, amount: Balance)
        requires
            old(self)@.pledge_ledgers.contains_key(provider),
            old(self)@.pledge_ledgers[provider].used + amount <= u128::MAX,
        ensures
            final(self)@ == old(self)@.use_pledge(provider, amount),
    {
        let mut ledger = self.pledge_ledgers(&provider);
        ledger.used = ledger.used + amount;
        self.pledge_ledgers.insert(provider, ledger);
    }

    /// Place a storage order, where `has_works` is the order inspector's verdict on the
    /// provider and `reserved` whether the payment handler reserved the client's funds.
    /// See `place_storage_order` for the other arguments.
    pub fn place_storage_order_with(
        &mut self,
        who: AccountId,
        provider: AccountId,
        amount: Balance,
        file_identifier: Vec<u8>,
        file_size: u64,
        duration: u32,
        block_number: BlockNumber,
        can_reserve: bool,
        order_id: OrderId,
        has_works: bool,
        reserved: bool,
    ) -> (r: Result<Event, Error>)
        requires
            old(self).wf(),
            !place_order_overflows(old(self)@, who, provider, amount, duration, block_number, can_reserve, has_works),
        ensures
            final(self).wf(),
            (final(self)@, outcome_view(r)) == place_order_spec(
                old(self)@,
                who,
                provider,
                amount,
                file_identifier@,
                file_size,
                duration,
                block_number,
                can_reserve,
                order_id,
                has_works,
                reserved,
            ),
    {
        // 1 - 3.
        if let Some(e) = self.check_order_terms(who, provider, duration) {
            return Err(e);
        }
        // 4. Check provider has capacity to store file
        if !has_works {
            return Err(Error::NoWorkload);
        }
        // 5 - 7.
        if let Some(e) = self.check_order_funds(provider, amount, can_reserve) {
            return Err(e);
        }
        // 8. Construct storage order
        let storage_order = Self::build_order(who, provider, amount, file_identifier, file_size, duration, block_number);
        // 9. Pay the order and (maybe) add storage order
        if self.maybe_insert_sorder_with(&who, &provider, &storage_order, order_id, reserved) {
            // a. update ledger
            let ghost s1 = self@;
            self.use_pledge(provider, amount);
            proof {
                lemma_use_pledge_wf(s1, provider, amount);
            }
            // b. emit storage order success event
            Ok(Event::StorageOrderSuccess(who, storage_order))
        } else {
            // c. emit error
            Err(Error::GenerateOrderIdFailed)
        }
    }

    /// Place a storage order of `amount` with `provider` for the file `file_identifier`,
    /// at block `block_number`; `can_reserve` is whether the client can reserve `amount`,
    /// and `order_id` the identifier drawn for the order.
    /// The runtime's order inspector decides whether the provider has works, and its
    /// payment handler reserves the client's funds.
    pub fn place_storage_order(
        &mut self,
        who: AccountId,
        provider: AccountId,
        amount: Balance,
        file_identifier: Vec<u8>,
        file_size: u64,
        duration: u32,
        block_number: BlockNumber,
        can_reserve: bool,
        order_id: OrderId,
    ) -> (r: Result<Event, Error>)
        requires
            old(self).wf(),
            !place_order_overflows(old(self)@, who, provider, amount, duration, block_number, can_reserve, true),
        ensures
            final(self).wf(),
            exists|has_works: bool, reserved: bool|
                #[trigger] place_order_spec(
                    old(self)@,
                    who,
                    provider,
                    amount,
                    file_identifier@,
                    file_size,
                    duration,
                    block_number,
                    can_reserve,
                    order_id,
                    has_works,
                    reserved,
                ) == (final(self)@, outcome_view(r))
                && (order_terms_error(old(self)@, who, provider, duration) is None ==> call_ensures(
                    T::OrderInspector::check_works,
                    (&provider, file_size),
                    has_works,
                ))
                && (order_terms_error(old(self)@, who, provider, duration) is None && has_works
                    && order_funds_error(old(self)@, provider, amount, can_reserve) is None
                    && !old(self)@.storage_orders.contains_key(order_id) ==> call_ensures(
                    T::Payment::reserve_sorder,
                    (&order_id, &who, amount),
                    reserved,
                )),
    {
        let ghost s0 = self@;
        let ghost fid = file_identifier@;
        // 1 - 3.
        if let Some(e) = self.check_order_terms(who, provider, duration) {
            assert(place_order_spec(s0, who, provider, amount, fid, file_size, duration, block_number, can_reserve, order_id, true, true)
                == (self@, outcome_view(Err(e))));
            return Err(e);
        }
        // 4. Check provider has capacity to store file
        let has_works = T::OrderInspector::check_works(&provider, file_size);
        if !has_works {
            assert(place_order_spec(s0, who, provider, amount, fid, file_size, duration, block_number, can_reserve, order_id, false, true)
                == (self@, outcome_view(Err(Error::NoWorkload))));
            return Err(Error::NoWorkload);
        }
        // 5 - 7.
        if let Some(e) = self.check_order_funds(provider, amount, can_reserve) {
            assert(place_order_spec(s0, who, provider, amount, fid, file_size, duration, block_number, can_reserve, order_id, true, true)
                == (self@, outcome_view(Err(e))));
            return Err(e);
        }
        // 8. Construct storage order
        let storage_order = Self::build_order(who, provider, amount, file_identifier, file_size, duration, block_number);
        // 9. Pay the order and (maybe) add storage order
        if self.maybe_insert_sorder(&who, &provider, &storage_order, order_id) {
            // a. update ledger
            let ghost s1 = self@;
            self.use_pledge(provider, amount);
            proof {
                lemma_use_pledge_wf(s1, provider, amount);
            }
            // b. emit storage order success event
            let r = Ok(Event::StorageOrderSuccess(who, storage_order));
            assert(place_order_spec(s0, who, provider, amount, fid, file_size, duration, block_number, can_reserve, order_id, true, true)
                == (self@, outcome_view(r)));
            r
        } else {
            // c. emit error
            assert(place_order_spec(s0, who, provider, amount, fid, file_size, duration, block_number, can_reserve, order_id, true, false)
                == (self@, outcome_view(Err(Error::GenerateOrderIdFailed))));
            Err(Error::GenerateOrderIdFailed)
        }
    }

    /// Whether replacing order `order_id` by `so` owes the payment handler a call: the stored
    /// order changes and is confirmed for the first time (pending to success).
    pub fn sorder_payment_due(&self, order_id: &OrderId, so: &StorageOrder) -> (pay: bool)
        ensures
            pay == payment_due(self@, *order_id, so@),
    {
        match self.storage_orders.get(order_id) {
            Some(old_sorder) => !old_sorder.same_as(so) && old_sorder.status == OrderStatus::Pending
                && so.status == OrderStatus::Success,
            None => false,
        }
    }

    /// Replaces a stored order by `so`; an unknown order is left unknown. An order that is
    /// confirmed for the first time (pending to success) is handed to the payment handler.
    pub fn maybe_set_sorder(&mut self, order_id: &OrderId, so: &StorageOrder)
        ensures
            final(self)@ == set_sorder_spec(old(self)@, *order_id, so@),
            old(self).wf() ==> final(self).wf(),
            payment_due(old(self)@, *order_id, so@) ==> call_ensures(T::Payment::pay_sorder, (order_id,), ()),
    {
        let differs = match self.storage_orders.get(order_id) {
            Some(old_sorder) => !old_sorder.same_as(so),
            None => false,
        };
        if differs {
            // 1. Order has been confirmed in the first time { Pending -> Success }
            if self.sorder_payment_due(order_id, so) {
                T::Payment::pay_sorder(order_id);
            }
            // 2. Update storage order
            self.storage_orders.insert(*order_id, so.copy());
        } else {
            assert(self@.storage_orders.contains_key(*order_id) ==> self@.storage_orders
                =~= self@.storage_orders.insert(*order_id, so@));
        }
    }
}

impl<T: Trait> MarketInterface for Module<T> {
    open spec fn well_formed(&self) -> bool {
        self.wf()
    }

    fn providers(&self, account_id: &AccountId) -> (r: Option<Provision>)
        ensures
            match r {
                Some(p) => self@.providers.contains_key(*account_id) && p@ == self@.providers[*account_id],
                None => !self@.providers.contains_key(*account_id),
            },
    {
        Module::<T>::providers(self, account_id)
    }

    fn clients(&self, account_id: &AccountId) -> (r: Option<Vec<OrderId>>)
        ensures
            match r {
                Some(v) => self@.clients.contains_key(*account_id) && v@ == self@.clients[*account_id],
                None => !self@.clients.contains_key(*account_id),
            },
    {
        Module::<T>::clients(self, account_id)
    }

    fn maybe_get_sorder(&self, order_id: &OrderId) -> (r: Option<StorageOrder>)
        ensures
            match r {
                Some(o) => self@.storage_orders.contains_key(*order_id) && o@ == self@.storage_orders[*order_id],
                None => !self@.storage_orders.contains_key(*order_id),
            },
    {
        self.storage_orders(order_id)
    }

    fn maybe_set_sorder(&mut self, order_id: &OrderId, so: &StorageOrder)
        ensures
            final(self)@ == set_sorder_spec(old(self)@, *order_id, so@),
            payment_due(old(self)@, *order_id, so@) ==> call_ensures(T::Payment::pay_sorder, (order_id,), ()),
    {
        Module::<T>::maybe_set_sorder(self, order_id, so);
    }
}

} // verus!
