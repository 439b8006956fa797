use product_authenticity::registry::REGISTER;
use product_authenticity::registry::TRANSFER;
use product_authenticity::registry::TTL_EXTEND_TO;
use product_authenticity::registry::TTL_THRESHOLD;
use product_authenticity::ContractError;
use product_authenticity::Product;
use product_authenticity::ProductAuthenticityContract;
use soroban_sdk::testutils::storage::Persistent as _;
use soroban_sdk::testutils::Address as _;
use soroban_sdk::testutils::ContractFunctionSet;
use soroban_sdk::testutils::EnvTestConfig;
use soroban_sdk::testutils::Events as _;
use soroban_sdk::testutils::Ledger as _;
use soroban_sdk::xdr::{ScErrorCode, ScErrorType};
use soroban_sdk::{Address, Env, Error, IntoVal, String, Symbol, Val, Vec};

struct Ground;

impl ContractFunctionSet for Ground {
    fn call(&self, _func: &str, _env: Env, _args: &[Val]) -> Option<Val> {
        None
    }
}

fn host() -> (Env, Address) {
    let env = Env::new_with_config(EnvTestConfig { capture_snapshot_at_drop: false });
    let contract = env.register(Ground, ());
    env.mock_all_auths();
    (env, contract)
}

fn register(env: &Env, contract: &Address, maker: &Address, id: &str) -> Result<String, ContractError> {
    let mut inner = env.clone();
    let id = String::from_str(env, id);
    env.as_contract(contract, || {
        ProductAuthenticityContract::register_product(&mut inner, maker.clone(), id)
    })
}

fn details(env: &Env, contract: &Address, id: &str) -> Result<Product, ContractError> {
    let id = String::from_str(env, id);
    env.as_contract(contract, || ProductAuthenticityContract::get_product_details(env, id))
}

fn transfer(
    env: &Env,
    contract: &Address,
    from: &Address,
    id: &str,
    to: &Address,
) -> Result<String, ContractError> {
    let mut inner = env.clone();
    let id = String::from_str(env, id);
    env.as_contract(contract, || {
        ProductAuthenticityContract::transfer_ownership(&mut inner, from.clone(), id, to.clone())
    })
}

fn key(env: &Env, id: &str) -> (Symbol, String) {
    (Symbol::new(env, "Product"), String::from_str(env, id))
}

fn ttl(env: &Env, contract: &Address, id: &str) -> u32 {
    env.as_contract(contract, || env.storage().persistent().get_ttl(&key(env, id)))
}

fn topics(env: &Env, tag: &str, id: &str) -> Vec<Val> {
    (Symbol::new(env, tag), String::from_str(env, id)).into_val(env)
}

#[test]
fn the_constants_are_the_expected_ones() {
    assert_eq!(REGISTER, "REGISTR");
    assert_eq!(TRANSFER, "TRANSFR");
    assert_eq!(TTL_THRESHOLD, 50);
    assert_eq!(TTL_EXTEND_TO, 100);
}

#[test]
fn registration_publishes_one_event() {
    let (env, contract) = host();
    env.ledger().set_timestamp(4242);
    let maker = Address::generate(&env);
    assert!(register(&env, &contract, &maker, "SKU-1").is_ok());
    let data: Val = (maker.clone(), 4242u64).into_val(&env);
    let expected = Vec::from_array(&env, [(contract.clone(), topics(&env, "REGISTR", "SKU-1"), data)]);
    assert_eq!(env.events().all(), expected);
}

#[test]
fn registration_at_a_given_time_publishes_that_time() {
    let (env, contract) = host();
    env.ledger().set_timestamp(1);
    let maker = Address::generate(&env);
    let mut inner = env.clone();
    let id = String::from_str(&env, "SKU-1");
    let answer = env.as_contract(&contract, || {
        ProductAuthenticityContract::register_product_at(&mut inner, maker.clone(), id, 31_337)
    });
    assert!(answer.is_ok());
    let data: Val = (maker.clone(), 31_337u64).into_val(&env);
    let expected = Vec::from_array(&env, [(contract.clone(), topics(&env, "REGISTR", "SKU-1"), data)]);
    assert_eq!(env.events().all(), expected);
}

#[test]
fn transfer_publishes_one_event() {
    let (env, contract) = host();
    let maker = Address::generate(&env);
    let buyer = Address::generate(&env);
    assert!(register(&env, &contract, &maker, "SKU-1").is_ok());
    assert!(transfer(&env, &contract, &maker, "SKU-1", &buyer).is_ok());
    let data: Val = (maker.clone(), buyer.clone()).into_val(&env);
    let expected = Vec::from_array(&env, [(contract.clone(), topics(&env, "TRANSFR", "SKU-1"), data)]);
    assert_eq!(env.events().all(), expected);
}

#[test]
fn a_failed_call_publishes_nothing() {
    let (env, contract) = host();
    let maker = Address::generate(&env);
    let stranger = Address::generate(&env);
    assert!(register(&env, &contract, &maker, "SKU-1").is_ok());
    assert!(register(&env, &contract, &maker, "SKU-1").is_err());
    assert_eq!(env.events().all().events().len(), 0);
    assert!(transfer(&env, &contract, &stranger, "SKU-1", &maker).is_err());
    assert_eq!(env.events().all().events().len(), 0);
    assert!(transfer(&env, &contract, &maker, "SKU-2", &stranger).is_err());
    assert_eq!(env.events().all().events().len(), 0);
}

#[test]
fn a_transfer_to_the_owner_publishes_again() {
    let (env, contract) = host();
    let maker = Address::generate(&env);
    assert!(register(&env, &contract, &maker, "SKU-1").is_ok());
    assert!(transfer(&env, &contract, &maker, "SKU-1", &maker).is_ok());
    let data: Val = (maker.clone(), maker.clone()).into_val(&env);
    let expected = Vec::from_array(&env, [(contract.clone(), topics(&env, "TRANSFR", "SKU-1"), data)]);
    assert_eq!(env.events().all(), expected);
    assert!(transfer(&env, &contract, &maker, "SKU-1", &maker).is_ok());
    assert_eq!(env.events().all(), expected);
}

#[test]
fn the_record_is_kept_under_the_product_key() {
    let (env, contract) = host();
    env.ledger().set_timestamp(9);
    let maker = Address::generate(&env);
    let held = env.as_contract(&contract, || env.storage().persistent().has(&key(&env, "SKU-1")));
    assert!(!held);
    assert!(register(&env, &contract, &maker, "SKU-1").is_ok());
    let fields: Option<(String, Address, Address, u64)> =
        env.as_contract(&contract, || env.storage().persistent().get(&key(&env, "SKU-1")));
    assert_eq!(fields, Some((String::from_str(&env, "SKU-1"), maker.clone(), maker.clone(), 9)));
    let other = env.as_contract(&contract, || env.storage().persistent().has(&key(&env, "SKU-2")));
    assert!(!other);
}

#[test]
fn a_long_lived_record_keeps_its_time_to_live() {
    let (env, contract) = host();
    let maker = Address::generate(&env);
    let buyer = Address::generate(&env);
    assert!(register(&env, &contract, &maker, "SKU-1").is_ok());
    assert_eq!(ttl(&env, &contract, "SKU-1"), 4095);
    assert!(transfer(&env, &contract, &maker, "SKU-1", &buyer).is_ok());
    assert_eq!(ttl(&env, &contract, "SKU-1"), 4095);
}

#[test]
fn a_short_lived_record_is_extended_at_registration() {
    let (env, contract) = host();
    env.ledger().set_min_persistent_entry_ttl(10);
    let maker = Address::generate(&env);
    assert!(register(&env, &contract, &maker, "SKU-1").is_ok());
    assert_eq!(ttl(&env, &contract, "SKU-1"), 100);
}

#[test]
fn a_record_at_the_threshold_is_extended() {
    let (env, contract) = host();
    env.ledger().set_min_persistent_entry_ttl(51);
    let maker = Address::generate(&env);
    assert!(register(&env, &contract, &maker, "at").is_ok());
    assert_eq!(ttl(&env, &contract, "at"), 100);
    env.ledger().set_min_persistent_entry_ttl(52);
    assert!(register(&env, &contract, &maker, "above").is_ok());
    assert_eq!(ttl(&env, &contract, "above"), 51);
}

#[test]
fn the_extension_stops_at_what_the_network_gives() {
    let (env, contract) = host();
    env.ledger().set_min_persistent_entry_ttl(10);
    env.ledger().set_max_entry_ttl(80);
    let maker = Address::generate(&env);
    assert!(register(&env, &contract, &maker, "SKU-1").is_ok());
    assert_eq!(env.storage().max_ttl(), 80);
    assert_eq!(ttl(&env, &contract, "SKU-1"), 80);
}

#[test]
fn a_transfer_extends_a_record_that_has_aged() {
    let (env, contract) = host();
    let maker = Address::generate(&env);
    let buyer = Address::generate(&env);
    assert!(register(&env, &contract, &maker, "old").is_ok());
    assert!(register(&env, &contract, &maker, "still").is_ok());
    env.ledger().set_sequence_number(4050);
    assert_eq!(ttl(&env, &contract, "old"), 45);
    assert!(transfer(&env, &contract, &maker, "old", &buyer).is_ok());
    assert_eq!(ttl(&env, &contract, "old"), 100);
    assert_eq!(ttl(&env, &contract, "still"), 45);
    assert_eq!(details(&env, &contract, "old").unwrap().current_owner, buyer);
}

#[test]
fn without_authorization_nothing_is_registered() {
    let env = Env::new_with_config(EnvTestConfig { capture_snapshot_at_drop: false });
    let contract = env.register(Ground, ());
    let maker = Address::generate(&env);
    let mut inner = env.clone();
    let id = String::from_str(&env, "SKU-1");
    let outcome = env.try_as_contract::<_, Error>(&contract, || {
        ProductAuthenticityContract::register_product(&mut inner, maker.clone(), id)
    });
    assert_eq!(
        outcome,
        Err(Ok(Error::from_type_and_code(ScErrorType::Auth, ScErrorCode::InvalidAction)))
    );
    assert_eq!(details(&env, &contract, "SKU-1"), Err(ContractError::ProductNotFound));
    assert_eq!(env.events().all().events().len(), 0);
}

#[test]
fn without_authorization_nothing_is_transferred() {
    let (env, contract) = host();
    let maker = Address::generate(&env);
    let buyer = Address::generate(&env);
    assert!(register(&env, &contract, &maker, "SKU-1").is_ok());
    env.set_auths(&[]);
    let mut inner = env.clone();
    let id = String::from_str(&env, "SKU-1");
    let outcome = env.try_as_contract::<_, Error>(&contract, || {
        ProductAuthenticityContract::transfer_ownership(&mut inner, maker.clone(), id, buyer.clone())
    });
    assert_eq!(
        outcome,
        Err(Ok(Error::from_type_and_code(ScErrorType::Auth, ScErrorCode::InvalidAction)))
    );
    assert_eq!(details(&env, &contract, "SKU-1").unwrap().current_owner, maker);
}
