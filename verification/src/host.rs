//! The ledger host, as the registry sees it.
//!
//! The host is held in an [`Env`]. What the registry reads of it is named here:
//! the persistent entries of the running contract, their time to live, and the
//! events published. The functions below make the host calls; their contracts
//! say, over those names, what the host does. The contracts are believed, not
//! proved.
//!
//! Two values of a host type ([`Address`], [`soroban_sdk::String`]) are equal in
//! a contract when the host compares them equal: when they denote the same
//! account or contract, or hold the same bytes.
//!
//! The host changes behind a shared `&Env`. Here a call that changes it takes
//! `&mut Env`, so that a contract can speak of the host before and after.

use vstd::prelude::*;
use vstd::utf8::encode_utf8;
use soroban_sdk::Address;
use soroban_sdk::Env;
use soroban_sdk::Symbol;
use crate::product::Product;

verus! {

#[verifier::external_type_specification]
#[verifier::external_body]
pub struct ExEnv(Env);

#[verifier::external_type_specification]
#[verifier::external_body]
pub struct ExAddress(Address);

#[verifier::external_type_specification]
#[verifier::external_body]
pub struct ExString(soroban_sdk::String);

/// The key of a persistent entry: the text of a namespace symbol, and an
/// identifier.
pub type EntryKey = (Seq<char>, soroban_sdk::String);

/// What an event tells, beside its topics.
#[derive(Debug)]
pub enum EventData {
    /// A product was registered.
    Registration { manufacturer: Address, registered_at: u64 },
    /// A product changed hands.
    Transfer { old_owner: Address, new_owner: Address },
}

/// One event in the log of the host: two topics, a tag and a product
/// identifier, and the data.
pub struct EventRecord {
    pub tag: Seq<char>,
    pub product_id: soroban_sdk::String,
    pub data: EventData,
}

/// Whether `env` is inside a running invocation of a contract, as
/// `Env::in_contract` tells. Only there does the host serve storage and events.
pub uninterp spec fn in_contract(env: Env) -> bool;

/// The persistent entries of the running contract whose key is a symbol and a
/// string. An entry holds `Some` product record, or `None` where its value is
/// no product record.
pub uninterp spec fn entries(env: Env) -> Map<EntryKey, Option<Product>>;

/// For each such entry, the number of ledgers that it has left to live, the
/// current ledger not counted.
pub uninterp spec fn time_to_live(env: Env) -> Map<EntryKey, nat>;

/// The longest time to live that the network gives an entry, as
/// `Storage::max_ttl` tells.
pub uninterp spec fn max_time_to_live(env: Env) -> nat;

/// The addresses of which the host holds an authorization for the running
/// invocation that it has not used yet: those for which `Address::require_auth`
/// returns.
pub uninterp spec fn authorized(env: Env) -> Set<Address>;

/// The events with a tag and a product identifier as topics that were
/// published to the host, oldest first.
pub uninterp spec fn published(env: Env) -> Seq<EventRecord>;

/// The bytes that a host string holds.
pub uninterp spec fn string_bytes(s: soroban_sdk::String) -> Seq<u8>;

/// Every entry holds a product record. This is so in the storage of a contract
/// that writes through the registry alone, and the registry keeps it so.
pub open spec fn holds_records(env: Env) -> bool {
    forall|key: EntryKey| #[trigger]
        entries(env).contains_key(key) ==> entries(env)[key] is Some
}

/// A character that a symbol may hold: a letter, a digit or an underscore.
pub open spec fn is_symbol_char(c: char) -> bool {
    ||| 'a' <= c <= 'z'
    ||| 'A' <= c <= 'Z'
    ||| '0' <= c <= '9'
    ||| c == '_'
}

/// A text that the host takes for a symbol: at most 32 such characters.
pub open spec fn is_symbol(text: Seq<char>) -> bool {
    &&& text.len() <= 32
    &&& forall|i: int| 0 <= i < text.len() ==> is_symbol_char(#[trigger] text[i])
}

/// The time to live of an entry after an extension was asked for: an entry
/// with more than `threshold` ledgers left keeps what it has; another is
/// raised to `extend_to`, or to `max` where that is less, and is never
/// lowered.
pub open spec fn extended_ttl(ttl: nat, threshold: nat, extend_to: nat, max: nat) -> nat {
    let target = if extend_to <= max {
        extend_to
    } else {
        max
    };
    if ttl <= threshold && ttl < target {
        target
    } else {
        ttl
    }
}

/// `Persistent::has` of `soroban_sdk`, on the key that `namespace` and `id`
/// make: whether the running contract holds a persistent entry under it.
#[verifier::external_body]
pub(crate) fn has_entry(env: &Env, namespace: &str, id: &soroban_sdk::String) -> (found: bool)
    requires
        in_contract(*env),
        is_symbol(namespace@),
    ensures
        found == entries(*env).contains_key((namespace@, *id)),
{
    env.storage().persistent().has(&(Symbol::new(env, namespace), id.clone()))
}

/// `Persistent::get` of `soroban_sdk`, on the key that `namespace` and `id`
/// make: the product record held under it, `None` where there is no entry.
/// The call panics on a value that does not convert to a record: such an entry
/// is left out.
#[verifier::external_body]
pub(crate) fn get_entry(env: &Env, namespace: &str, id: &soroban_sdk::String) -> (held: Option<
    Product,
>)
    requires
        in_contract(*env),
        is_symbol(namespace@),
        entries(*env).contains_key((namespace@, *id)) ==> entries(*env)[(namespace@, *id)] is Some,
    ensures
        held == if entries(*env).contains_key((namespace@, *id)) {
            entries(*env)[(namespace@, *id)]
        } else {
            None
        },
{
    let key = (Symbol::new(env, namespace), id.clone());
    let fields: Option<(soroban_sdk::String, Address, Address, u64)> =
        env.storage().persistent().get(&key);
    fields.map(
        |f| Product { product_id: f.0, manufacturer: f.1, current_owner: f.2, registered_at: f.3 },
    )
}

/// `Persistent::set` of `soroban_sdk`: puts the record under the key that
/// `namespace` and `id` make. An entry that was there keeps its time to live;
/// of that of a new one nothing is said. No other entry changes.
#[verifier::external_body]
pub(crate) fn set_entry(
    env: &mut Env,
    namespace: &str,
    id: &soroban_sdk::String,
    product: &Product,
)
    requires
        in_contract(*old(env)),
        is_symbol(namespace@),
    ensures
        in_contract(*final(env)),
        entries(*final(env)) == entries(*old(env)).insert((namespace@, *id), Some(*product)),
        time_to_live(*final(env)) == time_to_live(*old(env)).insert(
            (namespace@, *id),
            time_to_live(*final(env))[(namespace@, *id)],
        ),
        entries(*old(env)).contains_key((namespace@, *id)) ==> time_to_live(*final(env))[(
            namespace@,
            *id,
        )] == time_to_live(*old(env))[(namespace@, *id)],
        max_time_to_live(*final(env)) == max_time_to_live(*old(env)),
        published(*final(env)) == published(*old(env)),
        authorized(*final(env)) == authorized(*old(env)),
{
    let key = (Symbol::new(env, namespace), id.clone());
    let fields = (
        product.product_id.clone(),
        product.manufacturer.clone(),
        product.current_owner.clone(),
        product.registered_at,
    );
    env.storage().persistent().set(&key, &fields);
}

/// `Persistent::extend_ttl` of `soroban_sdk`, on the entry under the key that
/// `namespace` and `id` make: its time to live becomes what `extended_ttl`
/// says. The host refuses a missing entry and a threshold above `extend_to`.
#[verifier::external_body]
pub(crate) fn extend_entry_ttl(
    env: &mut Env,
    namespace: &str,
    id: &soroban_sdk::String,
    threshold: u32,
    extend_to: u32,
)
    requires
        in_contract(*old(env)),
        is_symbol(namespace@),
        entries(*old(env)).contains_key((namespace@, *id)),
        threshold <= extend_to,
    ensures
        in_contract(*final(env)),
        entries(*final(env)) == entries(*old(env)),
        time_to_live(*final(env)) == time_to_live(*old(env)).insert(
            (namespace@, *id),
            extended_ttl(
                time_to_live(*old(env))[(namespace@, *id)],
                threshold as nat,
                extend_to as nat,
                max_time_to_live(*old(env)),
            ),
        ),
        max_time_to_live(*final(env)) == max_time_to_live(*old(env)),
        published(*final(env)) == published(*old(env)),
        authorized(*final(env)) == authorized(*old(env)),
{
    let key = (Symbol::new(env, namespace), id.clone());
    env.storage().persistent().extend_ttl(&key, threshold, extend_to);
}

/// `Events::publish` of `soroban_sdk`: appends one event to the log, with the
/// symbol `tag` and `product_id` as topics. Storage is not touched.
#[verifier::external_body]
#[allow(deprecated)]
pub(crate) fn publish(
    env: &mut Env,
    tag: &str,
    product_id: &soroban_sdk::String,
    data: &EventData,
)
    requires
        in_contract(*old(env)),
        is_symbol(tag@),
    ensures
        in_contract(*final(env)),
        published(*final(env)) == published(*old(env)).push(
            (EventRecord { tag: tag@, product_id: *product_id, data: *data }),
        ),
        entries(*final(env)) == entries(*old(env)),
        time_to_live(*final(env)) == time_to_live(*old(env)),
        max_time_to_live(*final(env)) == max_time_to_live(*old(env)),
        authorized(*final(env)) == authorized(*old(env)),
{
    let topics = (Symbol::new(env, tag), product_id.clone());
    match data {
        EventData::Registration { manufacturer, registered_at } => {
            env.events().publish(topics, (manufacturer.clone(), *registered_at))
        },
        EventData::Transfer { old_owner, new_owner } => {
            env.events().publish(topics, (old_owner.clone(), new_owner.clone()))
        },
    }
}

/// `Address::require_auth` of `soroban_sdk`, for an address of this host: has
/// the host check that `who` authorized the invocation. The call panics where
/// the host holds no such authorization: that is left out. The host uses up
/// the authorization that it holds, so nothing is said of who is authorized
/// after the call. Storage and events are not touched.
#[verifier::external_body]
pub(crate) fn require_auth(env: &mut Env, who: &Address)
    requires
        in_contract(*old(env)),
        authorized(*old(env)).contains(*who),
    ensures
        in_contract(*final(env)),
        entries(*final(env)) == entries(*old(env)),
        time_to_live(*final(env)) == time_to_live(*old(env)),
        max_time_to_live(*final(env)) == max_time_to_live(*old(env)),
        published(*final(env)) == published(*old(env)),
{
    who.require_auth();
}

/// `Ledger::timestamp` of `soroban_sdk`: the time at which the ledger was
/// closed. Nothing is claimed of it.
#[verifier::external_body]
pub(crate) fn ledger_timestamp(env: &Env) -> (now: u64) {
    env.ledger().timestamp()
}

/// `String::from_str` of `soroban_sdk`: a host string that holds the UTF-8
/// bytes of `text`.
#[verifier::external_body]
pub(crate) fn host_string(env: &Env, text: &str) -> (s: soroban_sdk::String)
    ensures
        string_bytes(s) == encode_utf8(text@),
{
    soroban_sdk::String::from_str(env, text)
}

/// `==` on `Address` of `soroban_sdk`: whether the two denote the same account
/// or contract.
#[verifier::external_body]
pub(crate) fn same_address(a: &Address, b: &Address) -> (same: bool)
    ensures
        same == (*a == *b),
{
    a == b
}

/// `clone` on `Address` of `soroban_sdk`: another handle to the same address.
pub assume_specification[ <Address as Clone>::clone ](a: &Address) -> (copy: Address)
    ensures
        copy == *a,
;

/// `clone` on `String` of `soroban_sdk`: another handle to the same string.
pub assume_specification[ <soroban_sdk::String as Clone>::clone ](
    s: &soroban_sdk::String,
) -> (copy: soroban_sdk::String)
    ensures
        copy == *s,
;

} // verus!
