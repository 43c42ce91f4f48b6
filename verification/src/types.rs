use vstd::prelude::*;

use crate::bytes::{bytes_eq, copy_bytes};

verus! {

/// An account on the chain (the signer of a call, a provider, a client).
pub type AccountId = u64;

/// An amount of currency.
pub type Balance = u128;

/// A block height.
pub type BlockNumber = u32;

/// The identifier of a storage order: a 32-byte hash.
pub type OrderId = [u8; 32];

/// The identifier under which the market locks a provider's pledge.
pub const MARKET_ID: [u8; 8] = [109u8, 97u8, 114u8, 107u8, 101u8, 116u8, 32u8, 32u8];

/// The operations for which a locked balance cannot be withdrawn.
#[derive(Debug, Clone, Copy, PartialEq, Eq, Structural)]
pub struct WithdrawReasons {
    pub transaction_payment: bool,
    pub transfer: bool,
    pub reserve: bool,
    pub fee: bool,
    pub tip: bool,
}

/// Every reason: a balance locked for all of them can be spent on nothing.
pub open spec fn all_reasons() -> WithdrawReasons {
    WithdrawReasons { transaction_payment: true, transfer: true, reserve: true, fee: true, tip: true }
}

impl WithdrawReasons {
    /// Every reason.
    pub fn all() -> (r: Self)
        ensures
            r == all_reasons(),
    {
        WithdrawReasons { transaction_payment: true, transfer: true, reserve: true, fee: true, tip: true }
    }
}

/// A lock that the market holds, under `MARKET_ID`, on an account's balance.
#[derive(Debug, Clone, Copy, PartialEq, Eq, Structural)]
pub struct BalanceLock {
    /// The amount that stays locked.
    pub amount: Balance,
    /// The operations the locked amount cannot pay for.
    pub reasons: WithdrawReasons,
}

/// The lock the market sets for a pledge of `total`: all of it, for every reason.
pub open spec fn pledge_lock(total: Balance) -> BalanceLock {
    BalanceLock { amount: total, reasons: all_reasons() }
}

/// Where a storage order stands.
#[derive(Debug, Clone, Copy, PartialEq, Eq, Structural)]
pub enum OrderStatus {
    Success,
    Failed,
    Pending,
}

impl Default for OrderStatus {
    /// A new order is pending.
    fn default() -> (s: Self)
        ensures
            s == OrderStatus::Pending,
    {
        OrderStatus::Pending
    }
}

/// What a provider has pledged: `total` in all, of which `used` backs storage orders.
#[derive(Debug, Clone, Copy, PartialEq, Eq, Structural)]
pub struct PledgeLedger {
    /// Total balance of the pledge.
    pub total: Balance,
    /// Part of the pledge that backs accepted orders.
    pub used: Balance,
}

impl Default for PledgeLedger {
    fn default() -> (l: Self)
        ensures
            l.total == 0,
            l.used == 0,
    {
        PledgeLedger { total: 0, used: 0 }
    }
}

impl PledgeLedger {
    /// The part of the pledge that still can back new orders.
    pub open spec fn unused(self) -> int {
        self.total - self.used
    }

    /// A ledger never uses more than it holds.
    pub open spec fn wf(self) -> bool {
        self.used <= self.total
    }
}

/// Errors of the market's calls.
#[derive(Debug, Clone, Copy, PartialEq, Eq, Structural)]
pub enum Error {
    /// Failed on generating order id
    GenerateOrderIdFailed,
    /// No workload
    NoWorkload,
    /// Not provider
    NotProvider,
    /// File duration is too short
    DurationTooShort,
    /// Don't have enough currency
    InsufficientCurrency,
    /// Don't have enough pledge
    InsufficientPledge,
    /// Can not bond with value less than minimum balance.
    InsufficientValue,
    /// Not Pledged before
    NotPledged,
    /// Pledged before
    DoublePledged,
    /// Place order to himself
    PlaceSelfOrder,
}

/// The abstract value of a storage order.
pub struct StorageOrderView {
    pub file_identifier: Seq<u8>,
    pub file_size: u64,
    pub created_on: BlockNumber,
    pub completed_on: BlockNumber,
    pub expired_on: BlockNumber,
    pub provider: AccountId,
    pub client: AccountId,
    pub amount: Balance,
    pub status: OrderStatus,
}

/// A client's order to a provider to store a file.
#[derive(Debug, Clone, PartialEq, Eq)]
pub struct StorageOrder {
    pub file_identifier: Vec<u8>,
    pub file_size: u64,
    pub created_on: BlockNumber,
    pub completed_on: BlockNumber,
    pub expired_on: BlockNumber,
    pub provider: AccountId,
    pub client: AccountId,
    pub amount: Balance,
    pub status: OrderStatus,
}

impl View for StorageOrder {
    type V = StorageOrderView;

    open spec fn view(&self) -> StorageOrderView {
        StorageOrderView {
            file_identifier: self.file_identifier@,
            file_size: self.file_size,
            created_on: self.created_on,
            completed_on: self.completed_on,
            expired_on: self.expired_on,
            provider: self.provider,
            client: self.client,
            amount: self.amount,
            status: self.status,
        }
    }
}

impl Default for StorageOrder {
    fn default() -> (o: Self)
        ensures
            o@ == (StorageOrderView {
                file_identifier: Seq::empty(),
                file_size: 0,
                created_on: 0,
                completed_on: 0,
                expired_on: 0,
                provider: 0,
                client: 0,
                amount: 0,
                status: OrderStatus::Pending,
            }),
    {
        StorageOrder {
            file_identifier: Vec::new(),
            file_size: 0,
            created_on: 0,
            completed_on: 0,
            expired_on: 0,
            provider: 0,
            client: 0,
            amount: 0,
            status: OrderStatus::default(),
        }
    }
}

impl StorageOrder {
    /// A copy of the order.
    pub fn copy(&self) -> (r: StorageOrder)
        ensures
            r@ == self@,
    {
        StorageOrder {
            file_identifier: copy_bytes(&self.file_identifier),
            file_size: self.file_size,
            created_on: self.created_on,
            completed_on: self.completed_on,
            expired_on: self.expired_on,
            provider: self.provider,
            client: self.client,
            amount: self.amount,
            status: self.status,
        }
    }

    /// Whether two orders are the same in every field.
    pub fn same_as(&self, other: &StorageOrder) -> (r: bool)
        ensures
            r == (self@ == other@),
    {
        bytes_eq(self.file_identifier.as_slice(), other.file_identifier.as_slice())
            && self.file_size == other.file_size
            && self.created_on == other.created_on
            && self.completed_on == other.completed_on
            && self.expired_on == other.expired_on
            && self.provider == other.provider
            && self.client == other.client
            && self.amount == other.amount
            && self.status == other.status
    }
}

/// The abstract value of an event.
pub enum EventView {
    StorageOrderSuccess(AccountId, StorageOrderView),
    RegisterSuccess(AccountId),
    PledgeSuccess(AccountId),
}

/// What a successful call of the market reports.
#[derive(Debug, Clone, PartialEq, Eq)]
pub enum Event {
    StorageOrderSuccess(AccountId, StorageOrder),
    RegisterSuccess(AccountId),
    PledgeSuccess(AccountId),
}

impl View for Event {
    type V = EventView;

    open spec fn view(&self) -> EventView {
        match self {
            Event::StorageOrderSuccess(who, so) => EventView::StorageOrderSuccess(*who, so@),
            Event::RegisterSuccess(who) => EventView::RegisterSuccess(*who),
            Event::PledgeSuccess(who) => EventView::PledgeSuccess(*who),
        }
    }
}

} // verus!
