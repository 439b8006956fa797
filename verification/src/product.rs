//! The record kept for each product, and the key under which it is kept.

use vstd::prelude::*;
use soroban_sdk::Address;

verus! {

/// The namespace of the storage keys of product records.
pub const PRODUCT_NAMESPACE: &'static str = "Product";

/// One registered product.
#[derive(Clone, Debug, PartialEq, Eq)]
pub struct Product {
    /// The identifier chosen at registration.
    pub product_id: soroban_sdk::String,
    /// The address that registered the product.
    pub manufacturer: Address,
    /// The address that owns the product now.
    pub current_owner: Address,
    /// The ledger time at registration.
    pub registered_at: u64,
}

/// The key of a persistent entry of the registry.
pub enum DataKey {
    /// The record of the product with the given identifier.
    Product(soroban_sdk::String),
}

impl Product {
    /// The record of a product at its registration: the manufacturer owns it.
    pub open spec fn registered(
        product_id: soroban_sdk::String,
        manufacturer: Address,
        registered_at: u64,
    ) -> Product {
        Product { product_id, manufacturer, current_owner: manufacturer, registered_at }
    }

    /// The record after ownership has passed to `new_owner`: nothing else changes.
    pub open spec fn owned_by(self, new_owner: Address) -> Product {
        Product { current_owner: new_owner, ..self }
    }
}

impl DataKey {
    /// The namespace of the key.
    pub open spec fn spec_namespace(self) -> Seq<char> {
        match self {
            DataKey::Product(_) => PRODUCT_NAMESPACE@,
        }
    }

    /// The identifier that the key was built from.
    pub open spec fn spec_id(self) -> soroban_sdk::String {
        match self {
            DataKey::Product(id) => id,
        }
    }

    /// The namespace of the key.
    pub fn namespace(&self) -> (namespace: &'static str)
        ensures
            namespace@ == self.spec_namespace(),
    {
        match self {
            DataKey::Product(_) => PRODUCT_NAMESPACE,
        }
    }

    /// The identifier that the key was built from.
    pub fn id(&self) -> (id: &soroban_sdk::String)
        ensures
            *id == self.spec_id(),
    {
        match self {
            DataKey::Product(id) => id,
        }
    }
}

} // verus!
