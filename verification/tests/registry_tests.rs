use crypto_wallet::{AbiEntry, ContractsManager, SmartContract, WalletError};

fn entry(entry_type: &str, name: &str) -> AbiEntry {
    AbiEntry { entry_type: entry_type.to_string(), name: name.to_string() }
}

fn counter_contract(name: &str) -> SmartContract {
    SmartContract::new(
        name.to_string(),
        "11f4d0a3c12e86b4b5f39b213f7e19d048276dae".to_string(),
        Some(vec![
            entry("function", "getCount"),
            entry("event", "Incremented"),
            entry("function", "increment"),
        ]),
    )
}

#[test]
fn load_rejects_duplicate_names() {
    let contracts = vec![counter_contract("Counter"), counter_contract("Counter")];
    assert_eq!(
        ContractsManager::load(contracts).unwrap_err(),
        WalletError::DuplicateName
    );
}

#[test]
fn load_accepts_distinct_names() {
    let contracts = vec![counter_contract("Counter"), counter_contract("Other")];
    let manager = ContractsManager::load(contracts).unwrap();
    assert_eq!(manager.get_contracts_list().len(), 2);
    assert_eq!(manager.get_contracts_list()[0].get_name(), "Counter");
    assert_eq!(manager.get_contracts_list()[1].get_name(), "Other");
}

#[test]
fn load_rejects_unparsed_interface() {
    let broken = SmartContract::new(
        "Broken".to_string(),
        "11f4d0a3c12e86b4b5f39b213f7e19d048276dae".to_string(),
        None,
    );
    let contracts = vec![counter_contract("Counter"), broken];
    assert_eq!(
        ContractsManager::load(contracts).unwrap_err(),
        WalletError::MalformedInterface
    );
}

#[test]
fn duplicate_name_wins_over_unparsed_interface() {
    let broken = SmartContract::new(
        "Counter".to_string(),
        "11f4d0a3c12e86b4b5f39b213f7e19d048276dae".to_string(),
        None,
    );
    let contracts = vec![broken, counter_contract("Counter")];
    assert_eq!(
        ContractsManager::load(contracts).unwrap_err(),
        WalletError::DuplicateName
    );
}

#[test]
fn load_accepts_empty_configuration() {
    let manager = ContractsManager::load(Vec::new()).unwrap();
    assert_eq!(manager.get_contracts_list().len(), 0);
}

#[test]
fn resolve_finds_exact_name() {
    let contracts = vec![counter_contract("Counter"), counter_contract("Other")];
    let manager = ContractsManager::load(contracts).unwrap();
    let found = manager.get_interface_by_contract_name("Other").unwrap();
    assert_eq!(found.get_name(), "Other");
}

#[test]
fn resolve_is_case_sensitive_and_not_found_is_none() {
    let manager = ContractsManager::load(vec![counter_contract("Counter")]).unwrap();
    assert!(manager.get_interface_by_contract_name("counter").is_none());
    assert!(manager.get_interface_by_contract_name("Missing").is_none());
}

#[test]
fn get_functions_filters_and_keeps_order() {
    let contract = counter_contract("Counter");
    assert_eq!(contract.get_functions(), vec!["getCount", "increment"]);
}

#[test]
fn get_functions_empty_without_interface() {
    let contract = SmartContract::new("Broken".to_string(), "00".repeat(20), None);
    assert!(contract.get_functions().is_empty());
}

#[test]
fn get_functions_empty_when_nothing_callable() {
    let contract = SmartContract::new(
        "Events".to_string(),
        "00".repeat(20),
        Some(vec![entry("event", "Incremented")]),
    );
    assert!(contract.get_functions().is_empty());
}
