//! What holds of the operations of the registry taken together.
//!
//! The operations state what they make of the host with `registration_applied`
//! and `transfer_applied`, and what they find in it with `record_of` and
//! `is_registered`. The laws here relate the four.

use vstd::prelude::*;
use vstd::utf8::encode_utf8;
use vstd::utf8::is_ascii_chars;
use vstd::utf8::is_ascii_chars_encode_utf8;
use soroban_sdk::Address;
use soroban_sdk::Env;
use crate::host::entries;
use crate::host::holds_records;
use crate::host::max_time_to_live;
use crate::host::published;
use crate::host::time_to_live;
use crate::product::DataKey;
use crate::product::Product;
use crate::registry::entry_key;
use crate::registry::is_registered;
use crate::registry::record_of;
use crate::registry::refreshed_ttl;
use crate::registry::registration_applied;
use crate::registry::registration_event;
use crate::registry::transfer_applied;
use crate::registry::transfer_event;
use crate::registry::REGISTERED_MESSAGE;
use crate::registry::TRANSFERRED_MESSAGE;
use crate::registry::TTL_THRESHOLD;

verus! {

/// Two identifiers have the same key only if they are the same.
pub proof fn lemma_keys_are_distinct(a: soroban_sdk::String, b: soroban_sdk::String)
    ensures
        entry_key(DataKey::Product(a)) == entry_key(DataKey::Product(b)) <==> a == b,
{
}

/// Under an identifier that is not registered no record is found.
pub proof fn lemma_unregistered_has_no_record(env: Env, product_id: soroban_sdk::String)
    requires
        !is_registered(env, product_id),
    ensures
        record_of(env, product_id) is None,
{
}

/// Where every entry holds a record, a product is registered exactly if its
/// record is found.
pub proof fn lemma_registered_has_record(env: Env, product_id: soroban_sdk::String)
    requires
        holds_records(env),
    ensures
        is_registered(env, product_id) <==> record_of(env, product_id) is Some,
{
}

/// A registration and a transfer keep it so that every entry holds a record.
pub proof fn lemma_operations_keep_records(
    before: Env,
    after: Env,
    product_id: soroban_sdk::String,
    product: Product,
    new_owner: Address,
)
    requires
        holds_records(before),
        registration_applied(before, after, product) || transfer_applied(
            before,
            after,
            product_id,
            product,
            new_owner,
        ),
    ensures
        holds_records(after),
{
}

/// After a registration the record is found under its identifier: the
/// manufacturer owns the product, and the time of registration is the one that
/// was given.
pub proof fn lemma_registration_is_found(
    before: Env,
    after: Env,
    product_id: soroban_sdk::String,
    manufacturer: Address,
    registered_at: u64,
)
    requires
        registration_applied(
            before,
            after,
            Product::registered(product_id, manufacturer, registered_at),
        ),
    ensures
        is_registered(after, product_id),
        record_of(after, product_id) == Some(
            Product::registered(product_id, manufacturer, registered_at),
        ),
        record_of(after, product_id)->Some_0.current_owner == manufacturer,
        record_of(after, product_id)->Some_0.manufacturer == manufacturer,
        record_of(after, product_id)->Some_0.registered_at == registered_at,
{
}

/// A registration leaves every other product as it was.
pub proof fn lemma_registration_keeps_others(
    before: Env,
    after: Env,
    product: Product,
    other: soroban_sdk::String,
)
    requires
        registration_applied(before, after, product),
        other != product.product_id,
    ensures
        is_registered(after, other) == is_registered(before, other),
        record_of(after, other) == record_of(before, other),
        time_to_live(after)[entry_key(DataKey::Product(other))] == time_to_live(
            before,
        )[entry_key(DataKey::Product(other))],
{
}

/// After a transfer the product is owned by the new owner; its identifier, its
/// manufacturer and its time of registration are what they were.
pub proof fn lemma_transfer_changes_owner_only(
    before: Env,
    after: Env,
    product_id: soroban_sdk::String,
    product: Product,
    new_owner: Address,
)
    requires
        transfer_applied(before, after, product_id, product, new_owner),
    ensures
        is_registered(after, product_id),
        record_of(after, product_id) == Some(product.owned_by(new_owner)),
        record_of(after, product_id)->Some_0.current_owner == new_owner,
        record_of(after, product_id)->Some_0.product_id == product.product_id,
        record_of(after, product_id)->Some_0.manufacturer == product.manufacturer,
        record_of(after, product_id)->Some_0.registered_at == product.registered_at,
{
}

/// A transfer leaves every other product as it was.
pub proof fn lemma_transfer_keeps_others(
    before: Env,
    after: Env,
    product_id: soroban_sdk::String,
    product: Product,
    new_owner: Address,
    other: soroban_sdk::String,
)
    requires
        transfer_applied(before, after, product_id, product, new_owner),
        other != product_id,
    ensures
        is_registered(after, other) == is_registered(before, other),
        record_of(after, other) == record_of(before, other),
        time_to_live(after)[entry_key(DataKey::Product(other))] == time_to_live(
            before,
        )[entry_key(DataKey::Product(other))],
{
}

/// No operation takes a product out of the registry: what was registered
/// before a registration or a transfer is registered after it.
pub proof fn lemma_registered_stays_registered(
    before: Env,
    after: Env,
    product_id: soroban_sdk::String,
    product: Product,
    new_owner: Address,
    other: soroban_sdk::String,
)
    requires
        registration_applied(before, after, product) || transfer_applied(
            before,
            after,
            product_id,
            product,
            new_owner,
        ),
        is_registered(before, other),
    ensures
        is_registered(after, other),
{
}

/// A transfer to the address that owns the product already leaves the record
/// as it is, and still publishes an event.
pub proof fn lemma_transfer_to_owner_keeps_record(
    before: Env,
    after: Env,
    product_id: soroban_sdk::String,
    product: Product,
)
    requires
        record_of(before, product_id) == Some(product),
        transfer_applied(before, after, product_id, product, product.current_owner),
    ensures
        entries(after) == entries(before),
        record_of(after, product_id) == Some(product),
        published(after).len() == published(before).len() + 1,
{
    assert(product.owned_by(product.current_owner) == product);
    assert(entries(after) =~= entries(before));
}

/// A registration adds one event to the log, the last one, and keeps those
/// that were there.
pub proof fn lemma_registration_adds_one_event(before: Env, after: Env, product: Product)
    requires
        registration_applied(before, after, product),
    ensures
        published(after).len() == published(before).len() + 1,
        published(after).drop_last() == published(before),
        published(after).last() == registration_event(product),
{
    assert(published(after).drop_last() =~= published(before));
}

/// A transfer adds one event to the log, the last one, and keeps those that
/// were there. The event names the owner before the transfer and the owner
/// after it.
pub proof fn lemma_transfer_adds_one_event(
    before: Env,
    after: Env,
    product_id: soroban_sdk::String,
    product: Product,
    new_owner: Address,
)
    requires
        transfer_applied(before, after, product_id, product, new_owner),
    ensures
        published(after).len() == published(before).len() + 1,
        published(after).drop_last() == published(before),
        published(after).last() == transfer_event(product_id, product.current_owner, new_owner),
{
    assert(published(after).drop_last() =~= published(before));
}

/// After a registration the record has more than `TTL_THRESHOLD` ledgers left
/// to live, or as many as the network gives.
pub proof fn lemma_registration_refreshes(before: Env, after: Env, product: Product)
    requires
        registration_applied(before, after, product),
    ensures
        ({
            let ttl = time_to_live(after)[entry_key(DataKey::Product(product.product_id))];
            ttl > TTL_THRESHOLD || ttl >= max_time_to_live(after)
        }),
{
    let key = entry_key(DataKey::Product(product.product_id));
    let earlier = choose|ttl: nat|
        time_to_live(after)[key] == #[trigger] refreshed_ttl(ttl, max_time_to_live(before));
    lemma_refreshed_ttl_bounds(earlier, max_time_to_live(before));
}

/// After a transfer the record has more than `TTL_THRESHOLD` ledgers left to
/// live, or as many as the network gives; and no fewer than before.
pub proof fn lemma_transfer_refreshes(
    before: Env,
    after: Env,
    product_id: soroban_sdk::String,
    product: Product,
    new_owner: Address,
)
    requires
        transfer_applied(before, after, product_id, product, new_owner),
    ensures
        ({
            let key = entry_key(DataKey::Product(product_id));
            let ttl = time_to_live(after)[key];
            &&& ttl > TTL_THRESHOLD || ttl >= max_time_to_live(after)
            &&& ttl >= time_to_live(before)[key]
        }),
{
    let key = entry_key(DataKey::Product(product_id));
    lemma_refreshed_ttl_bounds(time_to_live(before)[key], max_time_to_live(before));
}

/// A record that was written has more than `TTL_THRESHOLD` ledgers left to
/// live, or as many as the network gives; and its life was not shortened.
pub proof fn lemma_refreshed_ttl_bounds(ttl: nat, max: nat)
    ensures
        refreshed_ttl(ttl, max) >= ttl,
        refreshed_ttl(ttl, max) > TTL_THRESHOLD || refreshed_ttl(ttl, max) >= max,
        ttl > TTL_THRESHOLD ==> refreshed_ttl(ttl, max) == ttl,
{
}

/// Refreshing the time to live twice is refreshing it once.
pub proof fn lemma_refreshed_ttl_idempotent(ttl: nat, max: nat)
    ensures
        refreshed_ttl(refreshed_ttl(ttl, max), max) == refreshed_ttl(ttl, max),
{
}

/// The two answers are plain ASCII texts: each holds one byte for each of its
/// characters, 31 and 34 of them, and the two differ.
pub proof fn lemma_answers_are_ascii()
    ensures
        encode_utf8(REGISTERED_MESSAGE@).len() == 31,
        encode_utf8(TRANSFERRED_MESSAGE@).len() == 34,
        forall|i: int|
            0 <= i < 31 ==> #[trigger] encode_utf8(REGISTERED_MESSAGE@)[i]
                == REGISTERED_MESSAGE@[i] as u8,
        forall|i: int|
            0 <= i < 34 ==> #[trigger] encode_utf8(TRANSFERRED_MESSAGE@)[i]
                == TRANSFERRED_MESSAGE@[i] as u8,
        encode_utf8(REGISTERED_MESSAGE@) != encode_utf8(TRANSFERRED_MESSAGE@),
{
    reveal_strlit("Product registered successfully");
    reveal_strlit("Ownership transferred successfully");
    assert(is_ascii_chars(REGISTERED_MESSAGE@));
    assert(is_ascii_chars(TRANSFERRED_MESSAGE@));
    is_ascii_chars_encode_utf8(REGISTERED_MESSAGE@);
    is_ascii_chars_encode_utf8(TRANSFERRED_MESSAGE@);
}

} // verus!
