//! The three operations of the registry: registration, transfer of ownership
//! and lookup.
//!
//! Each operation says what it makes of the host over the names of
//! [`crate::host`]: which record it stores under which key, what becomes of the
//! time to live of that record, and which event it publishes. Where an
//! operation fails it says that the host holds and has published what it did
//! before.

use vstd::prelude::*;
use soroban_sdk::Address;
use soroban_sdk::Env;
use vstd::utf8::encode_utf8;
use crate::error::ContractError;
use crate::host::authorized;
use crate::host::entries;
use crate::host::extend_entry_ttl;
use crate::host::extended_ttl;
use crate::host::get_entry;
use crate::host::has_entry;
use crate::host::holds_records;
use crate::host::host_string;
use crate::host::in_contract;
use crate::host::is_symbol;
use crate::host::ledger_timestamp;
use crate::host::max_time_to_live;
use crate::host::publish;
use crate::host::published;
use crate::host::require_auth;
use crate::host::same_address;
use crate::host::set_entry;
use crate::host::string_bytes;
use crate::host::time_to_live;
use crate::host::EntryKey;
use crate::host::EventData;
use crate::host::EventRecord;
use crate::product::DataKey;
use crate::product::Product;
use crate::product::PRODUCT_NAMESPACE;

verus! {

/// The tag of the event that tells of a registration.
pub const REGISTER: &'static str = "REGISTR";

/// The tag of the event that tells of a transfer.
pub const TRANSFER: &'static str = "TRANSFR";

/// What a registration answers.
pub const REGISTERED_MESSAGE: &'static str = "Product registered successfully";

/// What a transfer answers.
pub const TRANSFERRED_MESSAGE: &'static str = "Ownership transferred successfully";

/// A record with no more than this many ledgers left to live has its life
/// extended when it is written.
pub const TTL_THRESHOLD: u32 = 50;

/// The number of ledgers to which the life of a record is then extended.
pub const TTL_EXTEND_TO: u32 = 100;

/// The registry contract. Its operations act on the host that they are given.
pub struct ProductAuthenticityContract;

/// The entry key that a storage key stands for.
pub open spec fn entry_key(key: DataKey) -> EntryKey {
    (key.spec_namespace(), key.spec_id())
}

/// The record registered under `product_id`, if the host holds one.
pub open spec fn record_of(env: Env, product_id: soroban_sdk::String) -> Option<Product> {
    let key = entry_key(DataKey::Product(product_id));
    if entries(env).contains_key(key) {
        entries(env)[key]
    } else {
        None
    }
}

/// Whether a product is registered under `product_id`: whether the host holds
/// an entry under its key.
pub open spec fn is_registered(env: Env, product_id: soroban_sdk::String) -> bool {
    entries(env).contains_key(entry_key(DataKey::Product(product_id)))
}

/// The host holds and has published after what it held and had published
/// before, and is still inside the invocation.
pub open spec fn unchanged(before: Env, after: Env) -> bool {
    &&& in_contract(after)
    &&& entries(after) == entries(before)
    &&& time_to_live(after) == time_to_live(before)
    &&& max_time_to_live(after) == max_time_to_live(before)
    &&& published(after) == published(before)
}

/// The event that tells of the registration of `product`.
pub open spec fn registration_event(product: Product) -> EventRecord {
    EventRecord {
        tag: REGISTER@,
        product_id: product.product_id,
        data: EventData::Registration {
            manufacturer: product.manufacturer,
            registered_at: product.registered_at,
        },
    }
}

/// The event that tells that the product passed from one owner to the next.
pub open spec fn transfer_event(
    product_id: soroban_sdk::String,
    old_owner: Address,
    new_owner: Address,
) -> EventRecord {
    EventRecord { tag: TRANSFER@, product_id, data: EventData::Transfer { old_owner, new_owner } }
}

/// The time to live of a record after it was written, when it had `ttl`
/// ledgers left before.
pub open spec fn refreshed_ttl(ttl: nat, max: nat) -> nat {
    extended_ttl(ttl, TTL_THRESHOLD as nat, TTL_EXTEND_TO as nat, max)
}

/// What a registration makes of the host: the record is held under the key of
/// its identifier, with a time to live that was refreshed; the event is the
/// last in the log; nothing else has changed.
pub open spec fn registration_applied(before: Env, after: Env, product: Product) -> bool {
    let key = entry_key(DataKey::Product(product.product_id));
    &&& in_contract(after)
    &&& entries(after) == entries(before).insert(key, Some(product))
    &&& time_to_live(after) == time_to_live(before).insert(key, time_to_live(after)[key])
    &&& exists|ttl: nat|
        time_to_live(after)[key] == #[trigger] refreshed_ttl(ttl, max_time_to_live(before))
    &&& max_time_to_live(after) == max_time_to_live(before)
    &&& published(after) == published(before).push(registration_event(product))
}

/// What a transfer makes of the host: the record held under the key of
/// `product_id` is `product` in the hands of `new_owner`, with its time to
/// live refreshed; the event is the last in the log; nothing else has changed.
pub open spec fn transfer_applied(
    before: Env,
    after: Env,
    product_id: soroban_sdk::String,
    product: Product,
    new_owner: Address,
) -> bool {
    let key = entry_key(DataKey::Product(product_id));
    &&& in_contract(after)
    &&& entries(after) == entries(before).insert(key, Some(product.owned_by(new_owner)))
    &&& time_to_live(after) == time_to_live(before).insert(
        key,
        refreshed_ttl(time_to_live(before)[key], max_time_to_live(before)),
    )
    &&& max_time_to_live(after) == max_time_to_live(before)
    &&& published(after) == published(before).push(
        transfer_event(product_id, product.current_owner, new_owner),
    )
}

impl ProductAuthenticityContract {
    /// Registers a product with the ledger time of the host as its time of
    /// registration: `register_product_at` with that time, which the contract
    /// leaves open.
    ///
    /// The host must hold the authorization of `manufacturer` for the
    /// invocation.
    pub fn register_product(
        env: &mut Env,
        manufacturer: Address,
        product_id: soroban_sdk::String,
    ) -> (result: Result<soroban_sdk::String, ContractError>)
        requires
            in_contract(*old(env)),
            holds_records(*old(env)),
            authorized(*old(env)).contains(manufacturer),
        ensures
            holds_records(*final(env)),
            result is Err <==> is_registered(*old(env), product_id),
            result matches Err(e) ==> e == ContractError::ProductAlreadyExists && unchanged(
                *old(env),
                *final(env),
            ),
            result matches Ok(message) ==> string_bytes(message) == encode_utf8(
                REGISTERED_MESSAGE@,
            ) && exists|now: u64|
                registration_applied(
                    *old(env),
                    *final(env),
                    #[trigger] Product::registered(product_id, manufacturer, now),
                ),
    {
        let now = ledger_timestamp(env);
        Self::register_product_at(env, manufacturer, product_id, now)
    }

    /// Registers a product under `product_id`, made by `manufacturer` at the
    /// time `registered_at`; the manufacturer is its first owner.
    ///
    /// The host must hold the authorization of `manufacturer` for the
    /// invocation: the host checks it first, and ends the invocation where it
    /// is missing. The storage must hold product records only, and does so
    /// afterwards.
    ///
    /// Fails with `ProductAlreadyExists` where the identifier is taken, and
    /// then leaves the records, their time to live and the events as they
    /// were. Else it stores the record, refreshes its time to live, publishes
    /// the registration and answers with `REGISTERED_MESSAGE`.
    pub fn register_product_at(
        env: &mut Env,
        manufacturer: Address,
        product_id: soroban_sdk::String,
        registered_at: u64,
    ) -> (result: Result<soroban_sdk::String, ContractError>)
        requires
            in_contract(*old(env)),
            holds_records(*old(env)),
            authorized(*old(env)).contains(manufacturer),
        ensures
            holds_records(*final(env)),
            result is Err <==> is_registered(*old(env), product_id),
            result matches Err(e) ==> e == ContractError::ProductAlreadyExists && unchanged(
                *old(env),
                *final(env),
            ),
            result matches Ok(message) ==> string_bytes(message) == encode_utf8(
                REGISTERED_MESSAGE@,
            ) && registration_applied(
                *old(env),
                *final(env),
                Product::registered(product_id, manufacturer, registered_at),
            ),
    {
        require_auth(env, &manufacturer);
        let key = DataKey::Product(product_id.clone());
        proof {
            lemma_namespace_is_symbol();
            lemma_tags_are_symbols();
        }
        if has_entry(env, key.namespace(), key.id()) {
            return Err(ContractError::ProductAlreadyExists);
        }
        let product = Product {
            product_id,
            manufacturer: manufacturer.clone(),
            current_owner: manufacturer,
            registered_at,
        };
        set_entry(env, key.namespace(), key.id(), &product);
        let ghost stored = time_to_live(*env)[entry_key(key)];
        extend_entry_ttl(env, key.namespace(), key.id(), TTL_THRESHOLD, TTL_EXTEND_TO);
        let data = EventData::Registration {
            manufacturer: product.manufacturer.clone(),
            registered_at,
        };
        publish(env, REGISTER, &product.product_id, &data);
        proof {
            let k = entry_key(key);
            assert(time_to_live(*env)[k] == refreshed_ttl(stored, max_time_to_live(*old(env))));
            assert(time_to_live(*env) =~= time_to_live(*old(env)).insert(
                k,
                time_to_live(*env)[k],
            ));
        }
        Ok(host_string(env, REGISTERED_MESSAGE))
    }

    /// Passes the product registered under `product_id` from `current_owner`
    /// to `new_owner`.
    ///
    /// The host must hold the authorization of `current_owner` for the
    /// invocation: the host checks it first, and ends the invocation where it
    /// is missing. That authorization is not enough: the record must name
    /// `current_owner` as the owner. The storage must hold product records
    /// only, and does so afterwards.
    ///
    /// Fails with `ProductNotFound` where the host holds no record under the
    /// identifier, and with `NotAuthorized` where the record names another
    /// owner than `current_owner`; the records, their time to live and the
    /// events are then as they were. Else it stores the record with its new
    /// owner, refreshes its time to live, publishes the transfer and answers
    /// with `TRANSFERRED_MESSAGE`. A transfer to the address that owns the
    /// product already is carried out like any other.
    pub fn transfer_ownership(
        env: &mut Env,
        current_owner: Address,
        product_id: soroban_sdk::String,
        new_owner: Address,
    ) -> (result: Result<soroban_sdk::String, ContractError>)
        requires
            in_contract(*old(env)),
            holds_records(*old(env)),
            authorized(*old(env)).contains(current_owner),
        ensures
            holds_records(*final(env)),
            match record_of(*old(env), product_id) {
                None => result == Err::<soroban_sdk::String, ContractError>(
                    ContractError::ProductNotFound,
                ) && unchanged(*old(env), *final(env)),
                Some(product) => if product.current_owner != current_owner {
                    result == Err::<soroban_sdk::String, ContractError>(
                        ContractError::NotAuthorized,
                    ) && unchanged(*old(env), *final(env))
                } else {
                    &&& result matches Ok(message) && string_bytes(message) == encode_utf8(
                        TRANSFERRED_MESSAGE@,
                    )
                    &&& transfer_applied(*old(env), *final(env), product_id, product, new_owner)
                },
            },
    {
        require_auth(env, &current_owner);
        let key = DataKey::Product(product_id.clone());
        proof {
            lemma_namespace_is_symbol();
            lemma_tags_are_symbols();
        }
        match get_entry(env, key.namespace(), key.id()) {
            None => Err(ContractError::ProductNotFound),
            Some(product) => {
                if !same_address(&current_owner, &product.current_owner) {
                    return Err(ContractError::NotAuthorized);
                }
                let Product { product_id: id, manufacturer, current_owner: old_owner, registered_at } =
                    product;
                let updated = Product {
                    product_id: id,
                    manufacturer,
                    current_owner: new_owner,
                    registered_at,
                };
                set_entry(env, key.namespace(), key.id(), &updated);
                extend_entry_ttl(env, key.namespace(), key.id(), TTL_THRESHOLD, TTL_EXTEND_TO);
                let data = EventData::Transfer {
                    old_owner,
                    new_owner: updated.current_owner.clone(),
                };
                publish(env, TRANSFER, &product_id, &data);
                proof {
                    let k = entry_key(key);
                    assert(time_to_live(*env) =~= time_to_live(*old(env)).insert(
                        k,
                        refreshed_ttl(time_to_live(*old(env))[k], max_time_to_live(*old(env))),
                    ));
                }
                Ok(host_string(env, TRANSFERRED_MESSAGE))
            },
        }
    }

    /// The record of the product registered under `product_id`.
    ///
    /// Fails with `ProductNotFound` where the host holds no record under the
    /// identifier. The host is only read, and no authorization is asked for.
    pub fn get_product_details(env: &Env, product_id: soroban_sdk::String) -> (result: Result<
        Product,
        ContractError,
    >)
        requires
            in_contract(*env),
            holds_records(*env),
        ensures
            result == match record_of(*env, product_id) {
                Some(product) => Ok::<Product, ContractError>(product),
                None => Err(ContractError::ProductNotFound),
            },
    {
        let key = DataKey::Product(product_id);
        proof {
            lemma_namespace_is_symbol();
        }
        match get_entry(env, key.namespace(), key.id()) {
            Some(product) => Ok(product),
            None => Err(ContractError::ProductNotFound),
        }
    }
}

/// The namespace of product records is a text that the host takes for a symbol.
pub proof fn lemma_namespace_is_symbol()
    ensures
        is_symbol(PRODUCT_NAMESPACE@),
{
    reveal_strlit("Product");
}

/// The tags of the two events are texts that the host takes for symbols, and
/// they differ.
pub proof fn lemma_tags_are_symbols()
    ensures
        is_symbol(REGISTER@),
        is_symbol(TRANSFER@),
        REGISTER@ != TRANSFER@,
{
    reveal_strlit("REGISTR");
    reveal_strlit("TRANSFR");
    assert(REGISTER@[0] == 'R');
    assert(TRANSFER@[0] == 'T');
}

} // verus!
