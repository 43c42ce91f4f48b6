use vstd::prelude::*;

use crate::provision::Provision;
use crate::types::{AccountId, Balance, OrderId, StorageOrder};

verus! {

/// An event handler for paying market order
pub trait Payment {
    /// Reserve client's transferable balances
    fn reserve_sorder(sorder_id: &OrderId, client: &AccountId, amount: Balance) -> bool;

    /// Start delayed payment for a reserved storage order
    fn pay_sorder(sorder_id: &OrderId);
}

/// A trait for checking order's legality
/// This is an outer inspector to judge if s/r order can be accepted
pub trait OrderInspector {
    /// Check if the provider can take storage order
    fn check_works(provider: &AccountId, file_size: u64) -> bool;
}

/// The module's configuration: the services that the market calls out to.
pub trait Trait {
    /// Connector with balance module
    type Payment: crate::traits::Payment;

    /// Connector with tee module
    type OrderInspector: crate::traits::OrderInspector;
}

/// Means for interacting with a specialized version of the market.
pub trait MarketInterface {
    /// Whether the market's state is consistent.
    spec fn well_formed(&self) -> bool;

    /// Provision{files} will be used for tee module.
    fn providers(&self, account_id: &AccountId) -> Option<Provision>;

    /// Vec{order_id} will be used for payment module.
    fn clients(&self, account_id: &AccountId) -> Option<Vec<OrderId>>;

    /// Get storage order
    fn maybe_get_sorder(&self, order_id: &OrderId) -> Option<StorageOrder>;

    /// (Maybe) set storage order's status
    fn maybe_set_sorder(&mut self, order_id: &OrderId, so: &StorageOrder)
        ensures
            old(self).well_formed() ==> final(self).well_formed(),
    ;
}

impl MarketInterface for () {
    open spec fn well_formed(&self) -> bool {
        true
    }

    fn providers(&self, account_id: &AccountId) -> (r: Option<Provision>)
        ensures
            r is None,
    {
        None
    }

    fn clients(&self, account_id: &AccountId) -> (r: Option<Vec<OrderId>>)
        ensures
            r is None,
    {
        None
    }

    fn maybe_get_sorder(&self, order_id: &OrderId) -> (r: Option<StorageOrder>)
        ensures
            r is None,
    {
        None
    }

    fn maybe_set_sorder(&mut self, order_id: &OrderId, so: &StorageOrder) {
    }
}

} // verus!
