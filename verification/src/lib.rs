//! A storage market: providers pledge currency and register their storage, clients place
//! orders to store files with them, and every call is verified against a model of the
//! market's state (`model::MarketView`).

pub mod bytes;
pub mod file_map;
pub mod laws;
pub mod market;
pub mod model;
pub mod order_table;
pub mod provision;
pub mod seed;
pub mod traits;
pub mod types;

pub use market::Module;
pub use provision::Provision;
pub use traits::{MarketInterface, OrderInspector, Payment, Trait};
pub use types::{BalanceLock, Error, Event, OrderStatus, PledgeLedger, StorageOrder, WithdrawReasons};
