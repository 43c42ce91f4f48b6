use market::bytes::{bytes_eq, order_id_eq};
use market::file_map::FileMap;
use market::market::Module;
use market::order_table::OrderTable;
use market::seed::sorder_seed;
use market::traits::{MarketInterface, OrderInspector, Payment, Trait};
use market::types::{
    BalanceLock, Error, Event, OrderId, OrderStatus, PledgeLedger, StorageOrder, WithdrawReasons, MARKET_ID,
};
use std::sync::atomic::{AtomicUsize, Ordering};

/// An inspector that finds works on every account but 99.
struct Inspector;

impl OrderInspector for Inspector {
    fn check_works(provider: &u64, _file_size: u64) -> bool {
        *provider != 99
    }
}

/// A payment handler that reserves every amount but 666.
struct Pay;

impl Payment for Pay {
    fn reserve_sorder(_sorder_id: &OrderId, _client: &u64, amount: u128) -> bool {
        amount != 666
    }

    fn pay_sorder(sorder_id: &OrderId) {
        if *sorder_id == PAID_ID {
            PAYMENTS.fetch_add(1, Ordering::SeqCst);
        }
    }
}

/// The order whose payments are counted, and their count.
const PAID_ID: OrderId = [0xEE; 32];
static PAYMENTS: AtomicUsize = AtomicUsize::new(0);

struct TestRuntime;

impl Trait for TestRuntime {
    type Payment = Pay;
    type OrderInspector = Inspector;
}

const SLOT: u32 = 300;
const MIN: u128 = 10;
const CLIENT: u64 = 1;
const PROVIDER: u64 = 2;

fn lock(amount: u128) -> BalanceLock {
    BalanceLock { amount, reasons: WithdrawReasons::all() }
}

fn id(n: u8) -> OrderId {
    [n; 32]
}

fn new_market() -> Module<TestRuntime> {
    Module::<TestRuntime>::new(SLOT)
}

/// A market with `PROVIDER` pledged (200) and registered at "addr".
fn market_with_provider() -> Module<TestRuntime> {
    let mut m = new_market();
    assert_eq!(m.pledge(PROVIDER, 200, MIN, 1000), Ok(Event::PledgeSuccess(PROVIDER)));
    assert_eq!(m.register(PROVIDER, b"addr".to_vec()), Ok(Event::RegisterSuccess(PROVIDER)));
    m
}

fn place(m: &mut Module<TestRuntime>, amount: u128, file: &[u8], duration: u32, order: OrderId) -> Result<Event, Error> {
    m.place_storage_order(CLIENT, PROVIDER, amount, file.to_vec(), 1024, duration, 50, true, order)
}

#[test]
fn order_status_defaults_to_pending() {
    assert_eq!(OrderStatus::default(), OrderStatus::Pending);
    assert_eq!(PledgeLedger::default(), PledgeLedger { total: 0, used: 0 });
    let o = StorageOrder::default();
    assert_eq!(o.status, OrderStatus::Pending);
    assert_eq!(o.amount, 0);
    assert!(o.file_identifier.is_empty());
}

#[test]
fn market_lock_identifier() {
    assert_eq!(&MARKET_ID, b"market  ");
}

#[test]
fn new_market_is_empty() {
    let m = new_market();
    assert_eq!(m.report_slot(), SLOT);
    assert!(m.providers(&PROVIDER).is_none());
    assert!(m.clients(&CLIENT).is_none());
    assert!(m.storage_orders(&id(1)).is_none());
    assert_eq!(m.pledge_ledgers(&PROVIDER), PledgeLedger { total: 0, used: 0 });
    assert_eq!(m.market_lock(&PROVIDER), None);
}

#[test]
fn pledge_sets_ledger_and_lock() {
    let mut m = new_market();
    assert_eq!(m.pledge(PROVIDER, 100, MIN, 150), Ok(Event::PledgeSuccess(PROVIDER)));
    assert_eq!(m.pledge_ledgers(&PROVIDER), PledgeLedger { total: 100, used: 0 });
    assert_eq!(m.market_lock(&PROVIDER), Some(lock(100)));
}

#[test]
fn pledge_errors() {
    let mut m = new_market();
    assert_eq!(m.pledge(PROVIDER, 9, MIN, 150), Err(Error::InsufficientValue));
    assert_eq!(m.pledge(PROVIDER, 151, MIN, 150), Err(Error::InsufficientCurrency));
    assert_eq!(m.market_lock(&PROVIDER), None);
    assert_eq!(m.pledge(PROVIDER, 100, MIN, 150), Ok(Event::PledgeSuccess(PROVIDER)));
    assert_eq!(m.pledge(PROVIDER, 20, MIN, 150), Err(Error::DoublePledged));
    assert_eq!(m.pledge_ledgers(&PROVIDER), PledgeLedger { total: 100, used: 0 });
}

#[test]
fn pledge_extra_adds_to_total() {
    let mut m = new_market();
    assert_eq!(m.pledge_extra(PROVIDER, 50, MIN, 100), Err(Error::NotPledged));
    m.pledge(PROVIDER, 100, MIN, 150).unwrap();
    assert_eq!(m.pledge_extra(PROVIDER, 5, MIN, 100), Err(Error::InsufficientValue));
    assert_eq!(m.pledge_extra(PROVIDER, 101, MIN, 100), Err(Error::InsufficientCurrency));
    assert_eq!(m.pledge_extra(PROVIDER, 50, MIN, 100), Ok(Event::PledgeSuccess(PROVIDER)));
    assert_eq!(m.pledge_ledgers(&PROVIDER), PledgeLedger { total: 150, used: 0 });
    assert_eq!(m.market_lock(&PROVIDER), Some(lock(150)));
}

#[test]
fn cut_pledge_partly_and_wholly() {
    let mut m = new_market();
    assert_eq!(m.cut_pledge(PROVIDER, 50, MIN), Err(Error::NotPledged));
    m.pledge(PROVIDER, 100, MIN, 150).unwrap();
    assert_eq!(m.cut_pledge(PROVIDER, 5, MIN), Err(Error::InsufficientValue));
    assert_eq!(m.cut_pledge(PROVIDER, 101, MIN), Err(Error::InsufficientPledge));
    assert_eq!(m.cut_pledge(PROVIDER, 40, MIN), Ok(Event::PledgeSuccess(PROVIDER)));
    assert_eq!(m.pledge_ledgers(&PROVIDER), PledgeLedger { total: 60, used: 0 });
    assert_eq!(m.market_lock(&PROVIDER), Some(lock(60)));
    assert_eq!(m.cut_pledge(PROVIDER, 60, MIN), Ok(Event::PledgeSuccess(PROVIDER)));
    assert_eq!(m.market_lock(&PROVIDER), None);
    assert_eq!(m.pledge_extra(PROVIDER, 50, MIN, 100), Err(Error::NotPledged));
}

#[test]
fn cut_pledge_cannot_touch_used_part() {
    let mut m = market_with_provider();
    assert!(place(&mut m, 150, b"file", 400, id(1)).is_ok());
    // 200 pledged, 150 used: only 50 can be cut.
    assert_eq!(m.cut_pledge(PROVIDER, 51, MIN), Err(Error::InsufficientPledge));
    assert_eq!(m.cut_pledge(PROVIDER, 50, MIN), Ok(Event::PledgeSuccess(PROVIDER)));
    assert_eq!(m.pledge_ledgers(&PROVIDER), PledgeLedger { total: 150, used: 150 });
    assert_eq!(m.market_lock(&PROVIDER), Some(lock(150)));
}

#[test]
fn law_pledge_then_cut_restores_scenario() {
    let mut m = new_market();
    m.pledge(PROVIDER, 70, MIN, 100).unwrap();
    assert_eq!(m.cut_pledge(PROVIDER, 70, MIN), Ok(Event::PledgeSuccess(PROVIDER)));
    assert_eq!(m.pledge_ledgers(&PROVIDER), PledgeLedger { total: 0, used: 0 });
    assert_eq!(m.market_lock(&PROVIDER), None);
    // The provider can pledge afresh.
    assert_eq!(m.pledge(PROVIDER, 70, MIN, 100), Ok(Event::PledgeSuccess(PROVIDER)));
}

#[test]
fn law_extra_then_cut_restores_scenario() {
    let mut m = market_with_provider();
    place(&mut m, 30, b"f", 400, id(3)).unwrap();
    m.pledge_extra(PROVIDER, 25, MIN, 100).unwrap();
    m.cut_pledge(PROVIDER, 25, MIN).unwrap();
    assert_eq!(m.pledge_ledgers(&PROVIDER), PledgeLedger { total: 200, used: 30 });
    assert_eq!(m.market_lock(&PROVIDER), Some(lock(200)));
}

#[test]
fn register_errors_and_success() {
    let mut m = new_market();
    assert_eq!(m.register(99, b"x".to_vec()), Err(Error::NoWorkload));
    assert_eq!(m.register(PROVIDER, b"x".to_vec()), Err(Error::NotPledged));
    assert!(m.providers(&PROVIDER).is_none());
    m.pledge(PROVIDER, 100, MIN, 150).unwrap();
    assert_eq!(m.register(PROVIDER, b"x".to_vec()), Ok(Event::RegisterSuccess(PROVIDER)));
    let p = m.providers(&PROVIDER).unwrap();
    assert_eq!(p.address_info, b"x".to_vec());
    assert_eq!(p.file_map.len(), 0);
}

#[test]
fn register_with_takes_the_inspectors_verdict() {
    let mut m = new_market();
    m.pledge(PROVIDER, 100, MIN, 150).unwrap();
    assert_eq!(m.register_with(PROVIDER, b"x".to_vec(), false), Err(Error::NoWorkload));
    assert!(m.providers(&PROVIDER).is_none());
    assert_eq!(m.register_with(PROVIDER, b"x".to_vec(), true), Ok(Event::RegisterSuccess(PROVIDER)));
    assert!(m.providers(&PROVIDER).is_some());
}

#[test]
fn law_register_again_keeps_files() {
    let mut m = market_with_provider();
    place(&mut m, 10, b"file", 400, id(1)).unwrap();
    assert_eq!(m.register(PROVIDER, b"new-addr".to_vec()), Ok(Event::RegisterSuccess(PROVIDER)));
    let p = m.providers(&PROVIDER).unwrap();
    assert_eq!(p.address_info, b"new-addr".to_vec());
    assert_eq!(p.file_map.get(b"file"), Some(&vec![id(1)]));
}

#[test]
fn place_storage_order_success() {
    let mut m = market_with_provider();
    let r = place(&mut m, 60, b"root", 400, id(7));
    let expected = StorageOrder {
        file_identifier: b"root".to_vec(),
        file_size: 1024,
        created_on: 50,
        completed_on: 50,
        expired_on: 450,
        provider: PROVIDER,
        client: CLIENT,
        amount: 60,
        status: OrderStatus::Pending,
    };
    assert_eq!(r, Ok(Event::StorageOrderSuccess(CLIENT, expected.clone())));
    assert_eq!(m.storage_orders(&id(7)), Some(expected.clone()));
    assert_eq!(m.maybe_get_sorder(&id(7)), Some(expected));
    assert_eq!(m.clients(&CLIENT), Some(vec![id(7)]));
    let p = m.providers(&PROVIDER).unwrap();
    assert_eq!(p.file_map.get(b"root"), Some(&vec![id(7)]));
    assert_eq!(m.pledge_ledgers(&PROVIDER), PledgeLedger { total: 200, used: 60 });
    assert_eq!(m.market_lock(&PROVIDER), Some(lock(200)));
}

#[test]
fn place_orders_accumulate_per_client_and_file() {
    let mut m = market_with_provider();
    place(&mut m, 10, b"a", 400, id(1)).unwrap();
    place(&mut m, 10, b"b", 400, id(2)).unwrap();
    place(&mut m, 10, b"a", 400, id(3)).unwrap();
    assert_eq!(m.clients(&CLIENT), Some(vec![id(1), id(2), id(3)]));
    let p = m.providers(&PROVIDER).unwrap();
    assert_eq!(p.file_map.get(b"a"), Some(&vec![id(1), id(3)]));
    assert_eq!(p.file_map.get(b"b"), Some(&vec![id(2)]));
    assert_eq!(p.file_map.len(), 2);
    assert_eq!(m.pledge_ledgers(&PROVIDER).used, 30);
}

#[test]
fn place_storage_order_errors_in_order() {
    let mut m = market_with_provider();
    assert_eq!(
        m.place_storage_order(PROVIDER, PROVIDER, 10, b"f".to_vec(), 1, 400, 50, true, id(1)),
        Err(Error::PlaceSelfOrder)
    );
    assert_eq!(place(&mut m, 10, b"f", SLOT, id(1)), Err(Error::DurationTooShort));
    assert_eq!(
        m.place_storage_order(CLIENT, 5, 10, b"f".to_vec(), 1, 400, 50, true, id(1)),
        Err(Error::NotProvider)
    );
    assert_eq!(
        m.place_storage_order(CLIENT, PROVIDER, 10, b"f".to_vec(), 1, 400, 50, false, id(1)),
        Err(Error::InsufficientCurrency)
    );
    assert_eq!(place(&mut m, 201, b"f", 400, id(1)), Err(Error::InsufficientPledge));
    assert_eq!(place(&mut m, 666, b"f", 400, id(1)), Err(Error::InsufficientPledge));
    assert!(m.storage_orders(&id(1)).is_none());
    assert!(m.clients(&CLIENT).is_none());
    assert_eq!(m.pledge_ledgers(&PROVIDER), PledgeLedger { total: 200, used: 0 });
    assert_eq!(m.providers(&PROVIDER).unwrap().file_map.len(), 0);
}

#[test]
fn place_storage_order_needs_works() {
    let mut m = new_market();
    m.pledge(99, 200, MIN, 1000).unwrap();
    m.register_with(99, b"addr".to_vec(), true).unwrap();
    assert_eq!(
        m.place_storage_order(CLIENT, 99, 10, b"f".to_vec(), 1, 400, 50, true, id(1)),
        Err(Error::NoWorkload)
    );
}

#[test]
fn place_storage_order_needs_pledge() {
    let mut m = market_with_provider();
    m.cut_pledge(PROVIDER, 200, MIN).unwrap();
    assert_eq!(place(&mut m, 10, b"f", 400, id(1)), Err(Error::InsufficientPledge));
}

#[test]
fn law_order_id_never_reused_scenario() {
    let mut m = market_with_provider();
    place(&mut m, 10, b"f", 400, id(1)).unwrap();
    assert_eq!(place(&mut m, 20, b"g", 500, id(1)), Err(Error::GenerateOrderIdFailed));
    assert_eq!(m.storage_orders(&id(1)).unwrap().amount, 10);
    assert_eq!(m.clients(&CLIENT), Some(vec![id(1)]));
    assert_eq!(m.pledge_ledgers(&PROVIDER).used, 10);
}

#[test]
fn refused_reservation_refuses_order() {
    let mut m = new_market();
    m.pledge(PROVIDER, 1000, MIN, 1000).unwrap();
    m.register(PROVIDER, b"a".to_vec()).unwrap();
    assert_eq!(place(&mut m, 666, b"f", 400, id(1)), Err(Error::GenerateOrderIdFailed));
    assert!(m.storage_orders(&id(1)).is_none());
    assert!(m.clients(&CLIENT).is_none());
    assert_eq!(m.pledge_ledgers(&PROVIDER).used, 0);
}

#[test]
fn maybe_insert_sorder_with_outcomes() {
    let mut m = market_with_provider();
    let so = StorageOrder { amount: 5, ..StorageOrder::default() };
    assert!(!m.maybe_insert_sorder_with(&CLIENT, &PROVIDER, &so, id(4), false));
    assert!(m.storage_orders(&id(4)).is_none());
    assert!(m.maybe_insert_sorder_with(&CLIENT, &PROVIDER, &so, id(4), true));
    assert_eq!(m.storage_orders(&id(4)), Some(so.clone()));
    assert!(!m.maybe_insert_sorder_with(&CLIENT, &PROVIDER, &so, id(4), true));
    assert_eq!(m.clients(&CLIENT), Some(vec![id(4)]));
    assert_eq!(m.providers(&PROVIDER).unwrap().file_map.get(b""), Some(&vec![id(4)]));
}

#[test]
fn law_set_sorder_read_back_scenario() {
    let mut m = market_with_provider();
    place(&mut m, 10, b"f", 400, id(1)).unwrap();
    place(&mut m, 10, b"g", 400, id(2)).unwrap();
    let mut so = m.storage_orders(&id(1)).unwrap();
    so.status = OrderStatus::Success;
    so.expired_on = 999;
    m.maybe_set_sorder(&id(1), &so);
    assert_eq!(m.storage_orders(&id(1)), Some(so));
    assert_eq!(m.storage_orders(&id(2)).unwrap().status, OrderStatus::Pending);
}

#[test]
fn maybe_set_sorder_ignores_unknown_orders() {
    let mut m = market_with_provider();
    let so = StorageOrder::default();
    MarketInterface::maybe_set_sorder(&mut m, &id(9), &so);
    assert!(m.storage_orders(&id(9)).is_none());
}

#[test]
fn market_interface_of_unit_has_nothing() {
    let mut unit = ();
    assert!(MarketInterface::providers(&unit, &PROVIDER).is_none());
    assert!(MarketInterface::clients(&unit, &CLIENT).is_none());
    assert!(unit.maybe_get_sorder(&id(1)).is_none());
    unit.maybe_set_sorder(&id(1), &StorageOrder::default());
}

#[test]
fn market_interface_of_module() {
    let mut m = market_with_provider();
    place(&mut m, 10, b"f", 400, id(1)).unwrap();
    assert_eq!(MarketInterface::clients(&m, &CLIENT), Some(vec![id(1)]));
    let p = MarketInterface::providers(&m, &PROVIDER).unwrap();
    assert_eq!(p.address_info, b"addr".to_vec());
}

#[test]
fn sorder_seed_is_hash_then_encoded_accounts() {
    let hash = [7u8; 32];
    let seed = sorder_seed(&hash, 0x0102030405060708, 9);
    let mut expected = vec![7u8; 32];
    expected.extend_from_slice(&[8, 7, 6, 5, 4, 3, 2, 1]);
    expected.extend_from_slice(&[9, 0, 0, 0, 0, 0, 0, 0]);
    assert_eq!(seed, expected);
}

#[test]
fn file_map_insert_get_replace() {
    let mut fm = FileMap::new();
    assert_eq!(fm.len(), 0);
    assert!(fm.get(b"a").is_none());
    fm.insert(b"a".to_vec(), vec![id(1)]);
    fm.insert(b"b".to_vec(), vec![id(2)]);
    fm.insert(b"a".to_vec(), vec![id(1), id(3)]);
    assert_eq!(fm.len(), 2);
    assert_eq!(fm.get(b"a"), Some(&vec![id(1), id(3)]));
    assert_eq!(fm.get(b"b"), Some(&vec![id(2)]));
    let ids = fm.file_identifiers();
    assert_eq!(ids, vec![b"a".to_vec(), b"b".to_vec()]);
    let copy = fm.copy();
    assert_eq!(copy.get(b"a"), Some(&vec![id(1), id(3)]));
}

#[test]
fn order_table_insert_get_replace() {
    let mut t = OrderTable::new();
    assert_eq!(t.len(), 0);
    let a = StorageOrder { amount: 1, ..StorageOrder::default() };
    let b = StorageOrder { amount: 2, ..StorageOrder::default() };
    t.insert(id(1), a.clone());
    t.insert(id(2), b.clone());
    assert!(t.contains_key(&id(1)));
    assert!(!t.contains_key(&id(3)));
    t.insert(id(1), b.clone());
    assert_eq!(t.len(), 2);
    assert_eq!(t.get(&id(1)), Some(&b));
    assert_eq!(t.get(&id(2)), Some(&b));
}

#[test]
fn byte_comparisons() {
    assert!(bytes_eq(b"abc", b"abc"));
    assert!(!bytes_eq(b"abc", b"abd"));
    assert!(!bytes_eq(b"abc", b"ab"));
    assert!(order_id_eq(&id(4), &id(4)));
    let mut other = id(4);
    other[31] = 5;
    assert!(!order_id_eq(&id(4), &other));
}

#[test]
fn same_as_compares_every_field() {
    let a = StorageOrder { file_identifier: b"x".to_vec(), ..StorageOrder::default() };
    let mut b = a.copy();
    assert!(a.same_as(&b));
    b.status = OrderStatus::Failed;
    assert!(!a.same_as(&b));
}

#[test]
fn place_storage_order_with_takes_the_outside_verdicts() {
    let mut m = market_with_provider();
    assert_eq!(
        m.place_storage_order_with(CLIENT, PROVIDER, 10, b"f".to_vec(), 1, 400, 50, true, id(1), false, true),
        Err(Error::NoWorkload)
    );
    assert_eq!(
        m.place_storage_order_with(CLIENT, PROVIDER, 10, b"f".to_vec(), 1, 400, 50, true, id(1), true, false),
        Err(Error::GenerateOrderIdFailed)
    );
    assert!(m.storage_orders(&id(1)).is_none());
    let r = m.place_storage_order_with(CLIENT, PROVIDER, 10, b"f".to_vec(), 1, 400, 50, true, id(1), true, true);
    assert!(matches!(r, Ok(Event::StorageOrderSuccess(CLIENT, _))));
    assert_eq!(m.storage_orders(&id(1)).unwrap().expired_on, 450);
    assert_eq!(m.pledge_ledgers(&PROVIDER), PledgeLedger { total: 200, used: 10 });
    // A local check refuses whatever the outside services would answer.
    assert_eq!(
        m.place_storage_order_with(CLIENT, PROVIDER, 10, b"f".to_vec(), 1, 10, 50, true, id(2), true, true),
        Err(Error::DurationTooShort)
    );
}

#[test]
fn law_orders_never_removed_scenario() {
    let mut m = market_with_provider();
    place(&mut m, 10, b"f", 400, id(1)).unwrap();
    place(&mut m, 10, b"g", 400, id(2)).unwrap();
    m.cut_pledge(PROVIDER, 180, MIN).unwrap();
    m.pledge_extra(PROVIDER, 50, MIN, 100).unwrap();
    m.register(PROVIDER, b"other".to_vec()).unwrap();
    let _ = place(&mut m, 10, b"f", 400, id(1));
    m.maybe_set_sorder(&id(2), &StorageOrder::default());
    assert!(m.storage_orders(&id(1)).is_some());
    assert!(m.storage_orders(&id(2)).is_some());
    assert_eq!(m.clients(&CLIENT), Some(vec![id(1), id(2)]));
}

#[test]
fn pledge_lock_is_for_every_reason() {
    let mut m = new_market();
    m.pledge(PROVIDER, 100, MIN, 150).unwrap();
    let l = m.market_lock(&PROVIDER).unwrap();
    assert_eq!(l.amount, 100);
    assert!(l.reasons.transaction_payment && l.reasons.transfer && l.reasons.reserve && l.reasons.fee && l.reasons.tip);
}

#[test]
fn first_confirmation_pays_once() {
    let mut m = market_with_provider();
    place(&mut m, 10, b"f", 400, PAID_ID).unwrap();
    let pending = m.storage_orders(&PAID_ID).unwrap();
    let mut failed = pending.clone();
    failed.status = OrderStatus::Failed;
    let mut success = pending.clone();
    success.status = OrderStatus::Success;
    // Pending -> Pending (other field): no payment.
    let mut later = pending.clone();
    later.expired_on = 999;
    assert!(!m.sorder_payment_due(&PAID_ID, &later));
    m.maybe_set_sorder(&PAID_ID, &later);
    assert_eq!(PAYMENTS.load(Ordering::SeqCst), 0);
    // Pending -> Success: paid.
    assert!(m.sorder_payment_due(&PAID_ID, &success));
    m.maybe_set_sorder(&PAID_ID, &success);
    assert_eq!(PAYMENTS.load(Ordering::SeqCst), 1);
    assert_eq!(m.storage_orders(&PAID_ID), Some(success.clone()));
    // The same update again: no second payment.
    assert!(!m.sorder_payment_due(&PAID_ID, &success));
    m.maybe_set_sorder(&PAID_ID, &success);
    assert_eq!(PAYMENTS.load(Ordering::SeqCst), 1);
    // Success -> Failed -> Success: only Pending -> Success pays.
    m.maybe_set_sorder(&PAID_ID, &failed);
    m.maybe_set_sorder(&PAID_ID, &success);
    assert_eq!(PAYMENTS.load(Ordering::SeqCst), 1);
    // An unknown order owes nothing.
    assert!(!m.sorder_payment_due(&id(42), &success));
}
