//! A registry of products on a Soroban ledger: who made each product, who owns
//! it now, and when it was registered.
//!
//! The registry keeps one record per product identifier in the persistent
//! storage of the contract that runs it. Three operations act on it:
//! registration, lookup and transfer of ownership. Each states in its contract
//! what it does to the stored records, to their time to live and to the event
//! log of the host.
//!
//! The host is reached through the functions of [`host`], whose contracts are
//! believed, not proved. A host call that the host cannot serve (for want of
//! resources, say) ends the whole invocation and keeps none of its effects;
//! the contracts state what holds when a call returns.
//!
//! The operations are made for the inside of a contract invocation, and the two
//! that write ask for the authorization of the acting address: both stand in
//! their `requires`, and the host enforces both when the operation runs. They
//! also ask that the storage hold product records only, which they keep so.

pub mod error;
pub mod host;
pub mod laws;
pub mod product;
pub mod registry;

pub use error::ContractError;
pub use product::DataKey;
pub use product::Product;
pub use registry::ProductAuthenticityContract;
