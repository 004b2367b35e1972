use entry_registry::contract;
use entry_registry::error::ContractError;
use entry_registry::msg::{
    Attribute, BankMsg, Coin, EntryResponse, ExecuteMsg, HostInput, InstantiateMsg, MessageInfo,
    QueryMsg, QueryResponse, Response,
};
use entry_registry::state::{Priority, Status, Store};

fn coins(amount: u128, denom: &str) -> Vec<Coin> {
    vec![Coin { denom: denom.to_string(), amount }]
}

fn info(sender: &str, funds: Vec<Coin>) -> MessageInfo {
    MessageInfo { sender: sender.to_string(), funds }
}

fn host() -> HostInput {
    HostInput { new_owner_valid: true, balances: vec![] }
}

fn setup() -> Store {
    let msg = InstantiateMsg { owner: Some("creator".to_string()) };
    contract::instantiate(info("creator", coins(2, "stake")), msg, true).0
}

fn get_entry(store: &Store, id: u64) -> Result<EntryResponse, ContractError> {
    match contract::query(store, QueryMsg::QueryEntry { id }) {
        Ok(QueryResponse::Entry(resp)) => Ok(resp),
        Ok(_) => panic!("entry query answered with a list"),
        Err(e) => Err(e),
    }
}

fn list_ids(store: &Store, start_after: Option<u64>, limit: Option<u32>) -> Vec<u64> {
    match contract::query(store, QueryMsg::QueryList { start_after, limit }) {
        Ok(QueryResponse::List(lr)) => lr.entries.iter().map(|e| e.id).collect(),
        _ => panic!("list query did not answer with a list"),
    }
}

fn new_entry(store: &mut Store, sender: &str, description: &str) -> Result<Response, ContractError> {
    let msg = ExecuteMsg::NewEntry { description: description.to_string(), priority: None };
    contract::execute(store, info(sender, vec![]), msg, host())
}

#[test]
fn proper_initialization() {
    let msg = InstantiateMsg { owner: Some("creator".to_string()) };
    let i = info("creator", coins(1000, "stake"));
    let (_store, res) = contract::instantiate(i, msg, true);
    assert_eq!(0, res.messages.len());
}

#[test]
fn execute_create_new_entry() {
    let mut store = setup();

    let i = info("creator", coins(2, "stake"));
    let msg = ExecuteMsg::NewEntry {
        description: "Test description".to_string(),
        priority: Some(Priority::High),
    };

    let res = contract::execute(&mut store, i, msg, host()).unwrap();
    assert_eq!(res.attributes.len(), 2);
    assert_eq!(
        res.attributes[0],
        Attribute { key: String::from("method"), value: "execute_create_new_entry".to_string() }
    );
    assert_eq!(
        res.attributes[1],
        Attribute { key: String::from("id"), value: String::from("1") }
    );

    let value = get_entry(&store, 1).unwrap();
    assert_eq!(1, value.id);
}

#[test]
fn execute_update_entry() {
    let mut store = setup();

    let msg = ExecuteMsg::NewEntry {
        description: "Test description".to_string(),
        priority: Some(Priority::High),
    };
    contract::execute(&mut store, info("creator", coins(2, "stake")), msg, host()).unwrap();

    let msg = ExecuteMsg::UpdateEntry {
        id: 1,
        description: Some("Test description updated".to_string()),
        priority: None,
        status: None,
    };

    let res = contract::execute(&mut store, info("creator", coins(2, "stake")), msg, host())
        .unwrap();
    assert_eq!(res.attributes.len(), 2);
    assert_eq!(
        res.attributes[0],
        Attribute { key: String::from("method"), value: String::from("execute_update_entry") }
    );
    assert_eq!(
        res.attributes[1],
        Attribute { key: String::from("id"), value: String::from("1") }
    );

    let value = get_entry(&store, 1).unwrap();
    assert_eq!("Test description updated".to_string(), value.description);
}

#[test]
fn execute_delete_entry() {
    let mut store = setup();

    let msg = ExecuteMsg::NewEntry {
        description: "Test description".to_string(),
        priority: Some(Priority::High),
    };
    contract::execute(&mut store, info("creator", coins(2, "stake")), msg, host()).unwrap();

    let msg = ExecuteMsg::DeleteEntry { id: 1 };

    let res = contract::execute(&mut store, info("creator", coins(2, "stake")), msg, host())
        .unwrap();
    assert_eq!(res.attributes.len(), 2);
    assert_eq!(
        res.attributes[0],
        Attribute { key: String::from("method"), value: String::from("execute_delete_entry") }
    );
    assert_eq!(
        res.attributes[1],
        Attribute { key: String::from("id"), value: String::from("1") }
    );

    let default_res = EntryResponse {
        id: 0,
        status: Status::ToDo,
        priority: Priority::High,
        description: "".to_string(),
    };

    let value = get_entry(&store, 1).unwrap_or(default_res);
    assert_eq!(0, value.id);
}

#[test]
fn execute_transfer_owner() {
    let mut store = setup();

    let msg = ExecuteMsg::TransferContractOwnership {
        new_owner: String::from("new_contract_owner"),
    };

    let res = contract::execute(&mut store, info("creator", coins(2, "stake")), msg, host())
        .unwrap();
    assert_eq!(res.attributes.len(), 2);
    assert_eq!(
        res.attributes[0],
        Attribute { key: String::from("method"), value: String::from("execute_transfer_owner") }
    );
    assert_eq!(
        res.attributes[1],
        Attribute { key: String::from("new_owner"), value: String::from("new_contract_owner") }
    );

    let msg = ExecuteMsg::TransferContractOwnership { new_owner: String::from("another_owner") };
    let err = contract::execute(&mut store, info("creator", coins(2, "stake")), msg, host())
        .unwrap_err();
    match err {
        ContractError::Unauthorized {} => {}
        e => panic!("unexpected error: {:?}", e),
    }
}

#[test]
fn execute_burn_balance() {
    let msg = InstantiateMsg { owner: Some(String::from("creator")) };
    let (mut store, _res) = contract::instantiate(info("creator", vec![]), msg, true);

    let msg = ExecuteMsg::BurnContractBalance {};
    let res = contract::execute(&mut store, info("creator", vec![]), msg, host()).unwrap();
    assert_eq!(res.attributes.len(), 1);
    assert_eq!(
        res.attributes[0],
        Attribute { key: String::from("method"), value: String::from("try_burn_balance") }
    );

    assert_eq!(res.messages.len(), 1);
    assert_eq!(res.messages[0], BankMsg::Burn { amount: vec![] });
}

#[test]
fn created_ids_stay_consecutive_across_deletes() {
    let mut store = setup();
    let res = new_entry(&mut store, "creator", "first").unwrap();
    assert_eq!(res.attributes[1].value, "1");
    let res = new_entry(&mut store, "creator", "second").unwrap();
    assert_eq!(res.attributes[1].value, "2");

    let msg = ExecuteMsg::DeleteEntry { id: 1 };
    contract::execute(&mut store, info("creator", vec![]), msg, host()).unwrap();
    let msg = ExecuteMsg::DeleteEntry { id: 2 };
    contract::execute(&mut store, info("creator", vec![]), msg, host()).unwrap();

    let res = new_entry(&mut store, "creator", "third").unwrap();
    assert_eq!(res.attributes[1].value, "3");
    assert_eq!(list_ids(&store, None, None), vec![3]);
}

#[test]
fn every_mutation_from_non_owner_is_unauthorized() {
    let mut store = setup();
    new_entry(&mut store, "creator", "kept").unwrap();

    let attempts = vec![
        ExecuteMsg::NewEntry { description: "intruder".to_string(), priority: None },
        ExecuteMsg::UpdateEntry {
            id: 1,
            description: Some("changed".to_string()),
            status: Some(Status::Done),
            priority: Some(Priority::Low),
        },
        ExecuteMsg::DeleteEntry { id: 1 },
        ExecuteMsg::TransferContractOwnership { new_owner: "intruder".to_string() },
        ExecuteMsg::BurnContractBalance {},
    ];
    for msg in attempts {
        let err = contract::execute(&mut store, info("intruder", vec![]), msg, host())
            .unwrap_err();
        assert_eq!(err, ContractError::Unauthorized);
    }

    let value = get_entry(&store, 1).unwrap();
    assert_eq!(value.description, "kept");
    assert_eq!(value.status, Status::ToDo);
    assert_eq!(value.priority, Priority::High);
    assert_eq!(list_ids(&store, None, None), vec![1]);
    let res = new_entry(&mut store, "creator", "still owner").unwrap();
    assert_eq!(res.attributes[1].value, "2");
}

#[test]
fn update_with_nothing_supplied_changes_nothing() {
    let mut store = setup();
    let msg = ExecuteMsg::NewEntry {
        description: "stays".to_string(),
        priority: Some(Priority::Medium),
    };
    contract::execute(&mut store, info("creator", vec![]), msg, host()).unwrap();
    let before = get_entry(&store, 1).unwrap();

    let msg = ExecuteMsg::UpdateEntry { id: 1, description: None, status: None, priority: None };
    contract::execute(&mut store, info("creator", vec![]), msg, host()).unwrap();

    let after = get_entry(&store, 1).unwrap();
    assert_eq!(before, after);
}

#[test]
fn update_of_missing_id_is_not_found() {
    let mut store = setup();
    let msg = ExecuteMsg::UpdateEntry {
        id: 7,
        description: Some("nothing there".to_string()),
        status: None,
        priority: None,
    };
    let err = contract::execute(&mut store, info("creator", vec![]), msg, host()).unwrap_err();
    assert_eq!(err, ContractError::NotFound);
}

#[test]
fn update_replaces_only_supplied_fields() {
    let mut store = setup();
    let msg = ExecuteMsg::NewEntry {
        description: "original".to_string(),
        priority: Some(Priority::Low),
    };
    contract::execute(&mut store, info("creator", vec![]), msg, host()).unwrap();

    let msg = ExecuteMsg::UpdateEntry {
        id: 1,
        description: None,
        status: Some(Status::InProgress),
        priority: None,
    };
    contract::execute(&mut store, info("creator", vec![]), msg, host()).unwrap();

    let value = get_entry(&store, 1).unwrap();
    assert_eq!(value.description, "original");
    assert_eq!(value.status, Status::InProgress);
    assert_eq!(value.priority, Priority::Low);
    assert_eq!(value.id, 1);
}

#[test]
fn delete_is_idempotent_and_silent_on_missing_ids() {
    let mut store = setup();
    new_entry(&mut store, "creator", "doomed").unwrap();

    let msg = ExecuteMsg::DeleteEntry { id: 1 };
    contract::execute(&mut store, info("creator", vec![]), msg, host()).unwrap();
    let msg = ExecuteMsg::DeleteEntry { id: 1 };
    contract::execute(&mut store, info("creator", vec![]), msg, host()).unwrap();
    let msg = ExecuteMsg::DeleteEntry { id: 99 };
    contract::execute(&mut store, info("creator", vec![]), msg, host()).unwrap();

    assert_eq!(get_entry(&store, 1).unwrap_err(), ContractError::NotFound);
    assert_eq!(get_entry(&store, 99).unwrap_err(), ContractError::NotFound);
}

#[test]
fn pagination_default_window_and_clamp() {
    let mut store = setup();
    for k in 1..=25u64 {
        new_entry(&mut store, "creator", &format!("entry {}", k)).unwrap();
    }

    let ids: Vec<u64> = (1..=10).collect();
    assert_eq!(list_ids(&store, None, None), ids);

    let ids: Vec<u64> = (11..=15).collect();
    assert_eq!(list_ids(&store, Some(10), Some(5)), ids);

    let ids: Vec<u64> = (1..=25).collect();
    assert_eq!(list_ids(&store, Some(0), Some(100)), ids);
}

#[test]
fn pagination_edges() {
    let mut store = setup();
    assert_eq!(list_ids(&store, None, None), Vec::<u64>::new());

    for k in 1..=40u64 {
        new_entry(&mut store, "creator", &format!("entry {}", k)).unwrap();
    }
    let ids: Vec<u64> = (1..=30).collect();
    assert_eq!(list_ids(&store, None, Some(100)), ids);
    assert_eq!(list_ids(&store, Some(40), None), Vec::<u64>::new());
    assert_eq!(list_ids(&store, Some(1000), Some(5)), Vec::<u64>::new());
    assert_eq!(list_ids(&store, None, Some(0)), Vec::<u64>::new());
    let ids: Vec<u64> = (39..=40).collect();
    assert_eq!(list_ids(&store, Some(38), Some(30)), ids);
}

#[test]
fn transfer_hands_control_to_the_new_owner() {
    let mut store = setup();
    let msg = ExecuteMsg::TransferContractOwnership { new_owner: "heir".to_string() };
    contract::execute(&mut store, info("creator", vec![]), msg, host()).unwrap();

    let err = new_entry(&mut store, "creator", "too late").unwrap_err();
    assert_eq!(err, ContractError::Unauthorized);

    let res = new_entry(&mut store, "heir", "mine now").unwrap();
    assert_eq!(res.attributes[1].value, "1");
}

#[test]
fn transfer_to_malformed_identity_is_rejected() {
    let mut store = setup();
    let msg = ExecuteMsg::TransferContractOwnership { new_owner: "NOT AN ADDRESS".to_string() };
    let h = HostInput { new_owner_valid: false, balances: vec![] };
    let err = contract::execute(&mut store, info("creator", vec![]), msg, h).unwrap_err();
    assert_eq!(err, ContractError::InvalidAddress);

    let res = new_entry(&mut store, "creator", "still owner").unwrap();
    assert_eq!(res.attributes[1].value, "1");
}

#[test]
fn burn_covers_the_whole_reported_balance() {
    let mut store = setup();
    let held = vec![
        Coin { denom: "stake".to_string(), amount: 1000 },
        Coin { denom: "gold".to_string(), amount: 7 },
    ];
    let h = HostInput { new_owner_valid: true, balances: held.clone() };
    let msg = ExecuteMsg::BurnContractBalance {};
    let res = contract::execute(&mut store, info("creator", vec![]), msg, h).unwrap();
    assert_eq!(res.messages.len(), 1);
    assert_eq!(res.messages[0], BankMsg::Burn { amount: held });
    assert_eq!(list_ids(&store, None, None), Vec::<u64>::new());
}

#[test]
fn instantiate_without_usable_owner_falls_back_to_sender() {
    let msg = InstantiateMsg { owner: None };
    let (store, res) = contract::instantiate(info("alice", vec![]), msg, true);
    assert_eq!(store.config.owner, "alice");
    assert_eq!(
        res.attributes[1],
        Attribute { key: String::from("owner"), value: String::from("alice") }
    );

    let msg = InstantiateMsg { owner: Some("NOT AN ADDRESS".to_string()) };
    let (store, _res) = contract::instantiate(info("bob", vec![]), msg, false);
    assert_eq!(store.config.owner, "bob");
}

#[test]
fn decimal_rendering_is_exact() {
    assert_eq!(entry_registry::decimal::u64_to_string(0), "0");
    assert_eq!(entry_registry::decimal::u64_to_string(7), "7");
    assert_eq!(entry_registry::decimal::u64_to_string(10), "10");
    assert_eq!(entry_registry::decimal::u64_to_string(12345), "12345");
    assert_eq!(
        entry_registry::decimal::u64_to_string(u64::MAX),
        "18446744073709551615"
    );
}
