use vstd::prelude::*;

use crate::bytes::copy_bytes;
use crate::file_map::FileMap;
use crate::types::OrderId;

verus! {

/// The abstract value of a provision.
pub struct ProvisionView {
    pub address_info: Seq<u8>,
    pub file_map: Map<Seq<u8>, Seq<OrderId>>,
}

/// What the market knows of a registered provider.
#[derive(Debug)]
pub struct Provision {
    /// Provider's address
    pub address_info: Vec<u8>,
    /// Mapping from `file_id` to `order_id`s, this mapping only add when user place the order
    pub file_map: FileMap,
}

impl View for Provision {
    type V = ProvisionView;

    open spec fn view(&self) -> ProvisionView {
        ProvisionView { address_info: self.address_info@, file_map: self.file_map.view() }
    }
}

impl Default for Provision {
    fn default() -> (p: Self)
        ensures
            p@ == (ProvisionView { address_info: Seq::empty(), file_map: Map::empty() }),
    {
        Provision { address_info: Vec::new(), file_map: FileMap::new() }
    }
}

impl Provision {
    /// A copy of the provision.
    pub fn copy(&self) -> (r: Provision)
        ensures
            r@ == self@,
    {
        Provision { address_info: copy_bytes(&self.address_info), file_map: self.file_map.copy() }
    }
}

} // verus!
