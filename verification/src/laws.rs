use vstd::prelude::*;

use crate::model::{
    cut_pledge_spec, order_terms_error, payment_due, place_order_spec, pledge_extra_spec,
    pledge_spec, register_spec, set_sorder_spec, MarketView,
};
use crate::types::{
    all_reasons, AccountId, Balance, BalanceLock, BlockNumber, Error, EventView, OrderId, OrderStatus,
    PledgeLedger, StorageOrderView,
};

verus! {

/// A first pledge of `value`, followed by cutting the same `value`, leaves the market as it was:
/// the ledger and the lock are gone again.
pub proof fn law_pledge_then_cut_restores(
    s: MarketView,
    who: AccountId,
    value: Balance,
    minimum_balance: Balance,
    transferable: Balance,
)
    requires
        s.wf(),
        pledge_spec(s, who, value, minimum_balance, transferable).1 is Ok,
    ensures
        cut_pledge_spec(pledge_spec(s, who, value, minimum_balance, transferable).0, who, value, minimum_balance)
            == (s, Ok::<EventView, Error>(EventView::PledgeSuccess(who))),
{
    let s1 = pledge_spec(s, who, value, minimum_balance, transferable).0;
    let s2 = cut_pledge_spec(s1, who, value, minimum_balance).0;
    assert(s2.pledge_ledgers =~= s.pledge_ledgers);
    assert(s2.locks =~= s.locks);
}

/// Pledging an extra `value` and then cutting the same `value` gives back the ledger and the
/// lock that the provider had, as long as its pledge was not empty.
pub proof fn law_extra_then_cut_restores(
    s: MarketView,
    who: AccountId,
    value: Balance,
    minimum_balance: Balance,
    transferable: Balance,
)
    requires
        s.wf(),
        pledge_extra_spec(s, who, value, minimum_balance, transferable).1 is Ok,
        s.pledge_ledgers[who].total + value <= u128::MAX,
        s.pledge_ledgers[who].total > 0,
    ensures
        cut_pledge_spec(
            pledge_extra_spec(s, who, value, minimum_balance, transferable).0,
            who,
            value,
            minimum_balance,
        ) == (s, Ok::<EventView, Error>(EventView::PledgeSuccess(who))),
{
    let s1 = pledge_extra_spec(s, who, value, minimum_balance, transferable).0;
    let s2 = cut_pledge_spec(s1, who, value, minimum_balance).0;
    assert(s2.pledge_ledgers =~= s.pledge_ledgers);
    assert(s2.locks =~= s.locks);
}

/// A refused call changes nothing: whatever a call answers with an error, the market's
/// state after it is the state before it.
pub proof fn law_refused_calls_change_nothing(
    s: MarketView,
    who: AccountId,
    provider: AccountId,
    value: Balance,
    minimum_balance: Balance,
    transferable: Balance,
    address_info: Seq<u8>,
    has_works: bool,
    file_identifier: Seq<u8>,
    file_size: u64,
    duration: u32,
    block_number: BlockNumber,
    can_reserve: bool,
    order_id: OrderId,
    reserved: bool,
)
    ensures
        pledge_spec(s, who, value, minimum_balance, transferable).1 is Err
            ==> pledge_spec(s, who, value, minimum_balance, transferable).0 == s,
        pledge_extra_spec(s, who, value, minimum_balance, transferable).1 is Err
            ==> pledge_extra_spec(s, who, value, minimum_balance, transferable).0 == s,
        cut_pledge_spec(s, who, value, minimum_balance).1 is Err
            ==> cut_pledge_spec(s, who, value, minimum_balance).0 == s,
        register_spec(s, who, address_info, has_works).1 is Err
            ==> register_spec(s, who, address_info, has_works).0 == s,
        place_order_spec(
            s,
            who,
            provider,
            value,
            file_identifier,
            file_size,
            duration,
            block_number,
            can_reserve,
            order_id,
            has_works,
            reserved,
        ).1 is Err ==> place_order_spec(
            s,
            who,
            provider,
            value,
            file_identifier,
            file_size,
            duration,
            block_number,
            can_reserve,
            order_id,
            has_works,
            reserved,
        ).0 == s,
{
}

/// No call removes a stored order: every order identifier stored before a call is stored after it.
pub proof fn law_orders_never_removed(
    s: MarketView,
    who: AccountId,
    provider: AccountId,
    value: Balance,
    minimum_balance: Balance,
    transferable: Balance,
    address_info: Seq<u8>,
    has_works: bool,
    file_identifier: Seq<u8>,
    file_size: u64,
    duration: u32,
    block_number: BlockNumber,
    can_reserve: bool,
    order_id: OrderId,
    reserved: bool,
    so: StorageOrderView,
)
    ensures
        s.storage_orders.dom().subset_of(pledge_spec(s, who, value, minimum_balance, transferable).0.storage_orders.dom()),
        s.storage_orders.dom().subset_of(
            pledge_extra_spec(s, who, value, minimum_balance, transferable).0.storage_orders.dom(),
        ),
        s.storage_orders.dom().subset_of(cut_pledge_spec(s, who, value, minimum_balance).0.storage_orders.dom()),
        s.storage_orders.dom().subset_of(register_spec(s, who, address_info, has_works).0.storage_orders.dom()),
        s.storage_orders.dom().subset_of(
            place_order_spec(
                s,
                who,
                provider,
                value,
                file_identifier,
                file_size,
                duration,
                block_number,
                can_reserve,
                order_id,
                has_works,
                reserved,
            ).0.storage_orders.dom(),
        ),
        s.storage_orders.dom() == set_sorder_spec(s, order_id, so).storage_orders.dom(),
{
    let t = set_sorder_spec(s, order_id, so);
    assert(s.storage_orders.dom() =~= t.storage_orders.dom());
}

/// An order identifier is never given twice: placing an order under an identifier that is
/// already stored is refused, whatever the outside services answer.
pub proof fn law_order_id_never_reused(
    s: MarketView,
    who: AccountId,
    provider: AccountId,
    amount: Balance,
    file_identifier: Seq<u8>,
    file_size: u64,
    duration: u32,
    block_number: BlockNumber,
    can_reserve: bool,
    order_id: OrderId,
    has_works: bool,
    reserved: bool,
)
    requires
        s.storage_orders.contains_key(order_id),
    ensures
        place_order_spec(
            s,
            who,
            provider,
            amount,
            file_identifier,
            file_size,
            duration,
            block_number,
            can_reserve,
            order_id,
            has_works,
            reserved,
        ).1 is Err,
{
}

/// An accepted order moves exactly its amount of the provider's pledge from unused to used,
/// leaves the pledge's total and the lock as they were, and is stored as pending.
pub proof fn law_accepted_order_uses_pledge(
    s: MarketView,
    who: AccountId,
    provider: AccountId,
    amount: Balance,
    file_identifier: Seq<u8>,
    file_size: u64,
    duration: u32,
    block_number: BlockNumber,
    can_reserve: bool,
    order_id: OrderId,
    has_works: bool,
    reserved: bool,
)
    requires
        s.wf(),
        place_order_spec(
            s,
            who,
            provider,
            amount,
            file_identifier,
            file_size,
            duration,
            block_number,
            can_reserve,
            order_id,
            has_works,
            reserved,
        ).1 is Ok,
    ensures
        ({
            let t = place_order_spec(
                s,
                who,
                provider,
                amount,
                file_identifier,
                file_size,
                duration,
                block_number,
                can_reserve,
                order_id,
                has_works,
                reserved,
            ).0;
            &&& t.pledge_ledgers[provider].total == s.pledge_ledgers[provider].total
            &&& t.pledge_ledgers[provider].used == s.pledge_ledgers[provider].used + amount
            &&& t.pledge_ledgers[provider].unused() == s.pledge_ledgers[provider].unused() - amount
            &&& t.locks == s.locks
            &&& t.storage_orders.contains_key(order_id)
            &&& t.storage_orders[order_id].status == OrderStatus::Pending
            &&& t.storage_orders[order_id].amount == amount
            &&& t.clients[who].last() == order_id
            &&& t.providers[provider].file_map[file_identifier].last() == order_id
        }),
{
}

/// What `maybe_set_sorder` writes to a stored order is what is read back afterwards,
/// and every other order is left as it was.
pub proof fn law_set_sorder_read_back(s: MarketView, order_id: OrderId, so: StorageOrderView, other: OrderId)
    requires
        s.storage_orders.contains_key(order_id),
        other != order_id,
    ensures
        set_sorder_spec(s, order_id, so).storage_orders[order_id] == so,
        set_sorder_spec(s, order_id, so).storage_orders.contains_key(other) == s.storage_orders.contains_key(other),
        set_sorder_spec(s, order_id, so).storage_orders[other] == s.storage_orders[other],
{
}

/// The checks of an order that do not depend on an outside service decide alike whatever
/// the outside services answer: an order refused by one of them is refused with the same error
/// for every answer of the order inspector and the payment handler.
pub proof fn law_local_checks_decide_alone(
    s: MarketView,
    who: AccountId,
    provider: AccountId,
    amount: Balance,
    file_identifier: Seq<u8>,
    file_size: u64,
    duration: u32,
    block_number: BlockNumber,
    can_reserve: bool,
    order_id: OrderId,
    w1: bool,
    r1: bool,
    w2: bool,
    r2: bool,
)
    requires
        order_terms_error(s, who, provider, duration) is Some,
    ensures
        place_order_spec(
            s,
            who,
            provider,
            amount,
            file_identifier,
            file_size,
            duration,
            block_number,
            can_reserve,
            order_id,
            w1,
            r1,
        ) == place_order_spec(
            s,
            who,
            provider,
            amount,
            file_identifier,
            file_size,
            duration,
            block_number,
            can_reserve,
            order_id,
            w2,
            r2,
        ),
{
}

/// A provider that registers again keeps the files it stores; only its address changes.
pub proof fn law_register_keeps_files(s: MarketView, who: AccountId, address_info: Seq<u8>)
    requires
        s.providers.contains_key(who),
        s.pledge_ledgers.contains_key(who),
    ensures
        register_spec(s, who, address_info, true).0.providers[who].file_map == s.providers[who].file_map,
        register_spec(s, who, address_info, true).0.providers[who].address_info == address_info,
{
}

/// Of two ledgers stored for the same provider, the last one wins, together with its lock.
pub proof fn law_upsert_last_wins(s: MarketView, provider: AccountId, first: PledgeLedger, second: PledgeLedger)
    ensures
        s.upsert_ledger(provider, first).upsert_ledger(provider, second) == s.upsert_ledger(provider, second),
{
    assert(s.upsert_ledger(provider, first).upsert_ledger(provider, second).pledge_ledgers
        =~= s.upsert_ledger(provider, second).pledge_ledgers);
    assert(s.upsert_ledger(provider, first).upsert_ledger(provider, second).locks
        =~= s.upsert_ledger(provider, second).locks);
}

/// An order is paid for once: after `maybe_set_sorder` has stored `so`, storing the same `so`
/// again owes the payment handler nothing and changes nothing.
pub proof fn law_no_double_payment(s: MarketView, order_id: OrderId, so: StorageOrderView)
    ensures
        !payment_due(set_sorder_spec(s, order_id, so), order_id, so),
        set_sorder_spec(set_sorder_spec(s, order_id, so), order_id, so) == set_sorder_spec(s, order_id, so),
{
    let t = set_sorder_spec(s, order_id, so);
    if s.storage_orders.contains_key(order_id) {
        assert(t.storage_orders.insert(order_id, so) =~= t.storage_orders);
    }
}

/// A first pledge succeeds exactly when the value is at least the minimum balance, at most
/// the transferable balance, and the account holds no pledge, whatever else the market
/// knows of it (a registration, orders). It then holds a ledger of that value, nothing used,
/// and a lock of that value for every reason; nothing else changes. Each refusal names the
/// first check that fails.
pub proof fn law_pledge_outcome(
    s: MarketView,
    who: AccountId,
    value: Balance,
    minimum_balance: Balance,
    transferable: Balance,
)
    ensures
        ({
            let (t, r) = pledge_spec(s, who, value, minimum_balance, transferable);
            &&& (r is Ok) == (minimum_balance <= value && value <= transferable
                && !s.pledge_ledgers.contains_key(who))
            &&& value < minimum_balance ==> r == Err::<EventView, Error>(Error::InsufficientValue)
            &&& minimum_balance <= value && value > transferable ==> r == Err::<EventView, Error>(
                Error::InsufficientCurrency,
            )
            &&& r == Err::<EventView, Error>(Error::DoublePledged) <==> (minimum_balance <= value
                && value <= transferable && s.pledge_ledgers.contains_key(who))
            &&& r is Ok ==> {
                &&& r == Ok::<EventView, Error>(EventView::PledgeSuccess(who))
                &&& t.pledge_ledgers == s.pledge_ledgers.insert(who, PledgeLedger { total: value, used: 0 })
                &&& t.locks == s.locks.insert(who, BalanceLock { amount: value, reasons: all_reasons() })
                &&& t.providers == s.providers
                &&& t.clients == s.clients
                &&& t.storage_orders == s.storage_orders
            }
        }),
{
}

/// Pledging extra succeeds exactly when the value is at least the minimum balance, at most
/// the transferable balance (all of it may be pledged), and the account holds a pledge. The
/// pledge's total then grows by the value, its used part stays, and the lock follows the
/// new total; nothing else changes.
pub proof fn law_pledge_extra_outcome(
    s: MarketView,
    who: AccountId,
    value: Balance,
    minimum_balance: Balance,
    transferable: Balance,
)
    requires
        s.pledge_ledgers.contains_key(who) ==> s.pledge_ledgers[who].total + value <= u128::MAX,
    ensures
        ({
            let (t, r) = pledge_extra_spec(s, who, value, minimum_balance, transferable);
            &&& (r is Ok) == (minimum_balance <= value && value <= transferable
                && s.pledge_ledgers.contains_key(who))
            &&& value < minimum_balance ==> r == Err::<EventView, Error>(Error::InsufficientValue)
            &&& minimum_balance <= value && !s.pledge_ledgers.contains_key(who) ==> r == Err::<
                EventView,
                Error,
            >(Error::NotPledged)
            &&& r == Err::<EventView, Error>(Error::InsufficientCurrency) <==> (minimum_balance <= value
                && s.pledge_ledgers.contains_key(who) && value > transferable)
            &&& r is Ok ==> {
                let old_ledger = s.pledge_ledgers[who];
                &&& r == Ok::<EventView, Error>(EventView::PledgeSuccess(who))
                &&& t.pledge_ledgers[who].total == old_ledger.total + value
                &&& t.pledge_ledgers[who].used == old_ledger.used
                &&& t.pledge_ledgers.dom() == s.pledge_ledgers.dom()
                &&& forall|p: AccountId| p != who ==> #[trigger] t.pledge_ledgers[p] == s.pledge_ledgers[p]
                &&& t.locks == s.locks.insert(
                    who,
                    BalanceLock { amount: (old_ledger.total + value) as u128, reasons: all_reasons() },
                )
                &&& t.providers == s.providers
                &&& t.clients == s.clients
                &&& t.storage_orders == s.storage_orders
            }
        }),
{
    let (t, r) = pledge_extra_spec(s, who, value, minimum_balance, transferable);
    if r is Ok {
        assert(t.pledge_ledgers.dom() =~= s.pledge_ledgers.dom());
    }
}

/// Cutting a pledge succeeds exactly when the value is at least the minimum balance, the
/// account holds a pledge, and the value is at most its unused part (all of it may be cut).
/// The total then shrinks by the value and the used part stays; a pledge cut to nothing is
/// removed with its lock, any other keeps a lock of its new total.
pub proof fn law_cut_pledge_outcome(s: MarketView, who: AccountId, value: Balance, minimum_balance: Balance)
    requires
        s.wf(),
    ensures
        ({
            let (t, r) = cut_pledge_spec(s, who, value, minimum_balance);
            &&& (r is Ok) == (minimum_balance <= value && s.pledge_ledgers.contains_key(who) && value
                <= s.pledge_ledgers[who].total - s.pledge_ledgers[who].used)
            &&& value < minimum_balance ==> r == Err::<EventView, Error>(Error::InsufficientValue)
            &&& minimum_balance <= value && !s.pledge_ledgers.contains_key(who) ==> r == Err::<
                EventView,
                Error,
            >(Error::NotPledged)
            &&& r == Err::<EventView, Error>(Error::InsufficientPledge) <==> (minimum_balance <= value
                && s.pledge_ledgers.contains_key(who) && value > s.pledge_ledgers[who].total
                - s.pledge_ledgers[who].used)
            &&& r is Ok ==> {
                let old_ledger = s.pledge_ledgers[who];
                &&& r == Ok::<EventView, Error>(EventView::PledgeSuccess(who))
                &&& old_ledger.total == value ==> !t.pledge_ledgers.contains_key(who)
                    && !t.locks.contains_key(who)
                &&& old_ledger.total != value ==> t.pledge_ledgers[who] == (PledgeLedger {
                    total: (old_ledger.total - value) as u128,
                    used: old_ledger.used,
                }) && t.locks[who] == (BalanceLock {
                    amount: (old_ledger.total - value) as u128,
                    reasons: all_reasons(),
                })
                &&& forall|p: AccountId| p != who ==> (#[trigger] t.pledge_ledgers.contains_key(p)
                    == s.pledge_ledgers.contains_key(p) && t.pledge_ledgers[p] == s.pledge_ledgers[p])
                &&& t.providers == s.providers
                &&& t.clients == s.clients
                &&& t.storage_orders == s.storage_orders
            }
        }),
{
}

/// An account without works is never registered: `register` then answers `NoWorkload` and
/// leaves the market as it was, whether or not the account is a provider already. With
/// works, registering succeeds exactly when the account holds a pledge; the account is then a
/// provider at the given address, keeping the files it had, and nothing else changes.
pub proof fn law_register_outcome(s: MarketView, who: AccountId, address_info: Seq<u8>, has_works: bool)
    ensures
        ({
            let (t, r) = register_spec(s, who, address_info, has_works);
            &&& !has_works ==> r == Err::<EventView, Error>(Error::NoWorkload) && t == s
            &&& (r is Ok) == (has_works && s.pledge_ledgers.contains_key(who))
            &&& has_works && !s.pledge_ledgers.contains_key(who) ==> r == Err::<EventView, Error>(
                Error::NotPledged,
            ) && t == s
            &&& r is Ok ==> {
                &&& r == Ok::<EventView, Error>(EventView::RegisterSuccess(who))
                &&& t.providers.contains_key(who)
                &&& t.providers[who].address_info == address_info
                &&& s.providers.contains_key(who) ==> t.providers[who].file_map == s.providers[who].file_map
                &&& !s.providers.contains_key(who) ==> t.providers[who].file_map.is_empty()
                &&& forall|p: AccountId| p != who ==> (#[trigger] t.providers.contains_key(p)
                    == s.providers.contains_key(p) && t.providers[p] == s.providers[p])
                &&& t.pledge_ledgers == s.pledge_ledgers
                &&& t.locks == s.locks
                &&& t.clients == s.clients
                &&& t.storage_orders == s.storage_orders
            }
        }),
{
    let (t, r) = register_spec(s, who, address_info, has_works);
    if r is Ok && !s.providers.contains_key(who) {
        assert(t.providers[who].file_map.dom() =~= Set::empty());
    }
}

/// The checks of an order, in terms of the inputs: each refusal comes from the first check
/// that fails, and an order that passes them all is accepted, whatever its amount up to the
/// provider's unused pledge (all of it may be used). An accepted order is stored as pending
/// with the given terms, created at `block_number` and expiring `duration` blocks later, and
/// the provider's used pledge grows by its amount.
pub proof fn law_place_order_outcome(
    s: MarketView,
    who: AccountId,
    provider: AccountId,
    amount: Balance,
    file_identifier: Seq<u8>,
    file_size: u64,
    duration: u32,
    block_number: BlockNumber,
    can_reserve: bool,
    order_id: OrderId,
    has_works: bool,
    reserved: bool,
)
    requires
        s.wf(),
        block_number + duration <= u32::MAX,
    ensures
        ({
            let (t, r) = place_order_spec(
                s,
                who,
                provider,
                amount,
                file_identifier,
                file_size,
                duration,
                block_number,
                can_reserve,
                order_id,
                has_works,
                reserved,
            );
            let terms_ok = who != provider && duration > s.report_slot && s.providers.contains_key(provider);
            let funds_ok = can_reserve && s.pledge_ledgers.contains_key(provider) && amount
                <= s.pledge_ledgers[provider].total - s.pledge_ledgers[provider].used;
            &&& who == provider ==> r == Err::<EventView, Error>(Error::PlaceSelfOrder)
            &&& who != provider && duration <= s.report_slot ==> r == Err::<EventView, Error>(
                Error::DurationTooShort,
            )
            &&& who != provider && duration > s.report_slot && !s.providers.contains_key(provider) ==> r
                == Err::<EventView, Error>(Error::NotProvider)
            &&& terms_ok && !has_works ==> r == Err::<EventView, Error>(Error::NoWorkload)
            &&& terms_ok && has_works && !can_reserve ==> r == Err::<EventView, Error>(
                Error::InsufficientCurrency,
            )
            &&& r == Err::<EventView, Error>(Error::InsufficientPledge) <==> (terms_ok && has_works
                && can_reserve && !funds_ok)
            &&& r == Err::<EventView, Error>(Error::GenerateOrderIdFailed) <==> (terms_ok && has_works
                && funds_ok && (s.storage_orders.contains_key(order_id) || !reserved))
            &&& (r is Ok) == (terms_ok && has_works && funds_ok && !s.storage_orders.contains_key(order_id)
                && reserved)
            &&& r is Err ==> t == s
            &&& r is Ok ==> {
                let so = StorageOrderView {
                    file_identifier,
                    file_size,
                    created_on: block_number,
                    completed_on: block_number,
                    expired_on: (block_number + duration) as u32,
                    provider,
                    client: who,
                    amount,
                    status: OrderStatus::Pending,
                };
                &&& r == Ok::<EventView, Error>(EventView::StorageOrderSuccess(who, so))
                &&& t.storage_orders == s.storage_orders.insert(order_id, so)
                &&& t.pledge_ledgers[provider] == (PledgeLedger {
                    total: s.pledge_ledgers[provider].total,
                    used: (s.pledge_ledgers[provider].used + amount) as u128,
                })
                &&& t.pledge_ledgers.dom() == s.pledge_ledgers.dom()
                &&& forall|p: AccountId| p != provider ==> #[trigger] t.pledge_ledgers[p] == s.pledge_ledgers[p]
                &&& t.locks == s.locks
                &&& t.clients[who] == (if s.clients.contains_key(who) {
                    s.clients[who]
                } else {
                    Seq::empty()
                }).push(order_id)
            }
        }),
{
    let (t, r) = place_order_spec(
        s,
        who,
        provider,
        amount,
        file_identifier,
        file_size,
        duration,
        block_number,
        can_reserve,
        order_id,
        has_works,
        reserved,
    );
    if r is Ok {
        assert(t.pledge_ledgers.dom() =~= s.pledge_ledgers.dom());
    }
}

/// The payment handler is owed a call on replacing an order exactly when the order is stored
/// as pending and the replacement is a success: an order that fails, stays pending, is
/// unknown, or was already confirmed, is owed nothing.
pub proof fn law_payment_due_exactly_on_first_confirmation(s: MarketView, order_id: OrderId, so: StorageOrderView)
    ensures
        payment_due(s, order_id, so) == (s.storage_orders.contains_key(order_id)
            && s.storage_orders[order_id].status == OrderStatus::Pending && so.status
            == OrderStatus::Success),
        so.status == OrderStatus::Failed ==> !payment_due(s, order_id, so),
{
}

/// Replacing an order touches only that order: a stored order becomes the given one, an
/// unknown identifier leaves the market as it was, and providers, clients, pledges and locks
/// never change.
pub proof fn law_set_sorder_outcome(s: MarketView, order_id: OrderId, so: StorageOrderView)
    ensures
        ({
            let t = set_sorder_spec(s, order_id, so);
            &&& s.storage_orders.contains_key(order_id) ==> t.storage_orders == s.storage_orders.insert(
                order_id,
                so,
            )
            &&& !s.storage_orders.contains_key(order_id) ==> t == s
            &&& t.providers == s.providers
            &&& t.clients == s.clients
            &&& t.pledge_ledgers == s.pledge_ledgers
            &&& t.locks == s.locks
            &&& t.report_slot == s.report_slot
        }),
{
}

} // verus!
