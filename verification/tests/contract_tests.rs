use count::contract::{add_members, admin_lists, donate, greet, leave};
use count::error::{ContractError, PaymentFault};
use count::execute;
use count::instantiate;
use count::msg::{ExcuteMsg, InstantiateMessage, QueryMsg, QueryResp};
use count::query;
use count::state::{Coin, Identity, MessageInfo, Store};

fn id(s: &str) -> Identity {
    Identity::new(s.to_string())
}

fn coin(amount: u128, denom: &str) -> Coin {
    Coin { denom: denom.to_string(), amount }
}

fn info(sender: &str, funds: Vec<Coin>) -> MessageInfo {
    MessageInfo { sender: id(sender), funds }
}

fn ok_outcomes(names: &[&str]) -> Vec<Result<Identity, String>> {
    names.iter().map(|n| Ok(id(n))).collect()
}

fn fresh_contract(admins: &[&str], denom: &str) -> Store {
    let mut store = Store::new();
    let msg = InstantiateMessage {
        admins: admins.iter().map(|a| a.to_string()).collect(),
        donation_denom: denom.to_string(),
    };
    instantiate(&mut store, msg, ok_outcomes(admins)).expect("instantiation must succeed");
    store
}

fn listed_admins(store: &Store) -> Vec<String> {
    match admin_lists(store) {
        Ok(resp) => resp.admins.into_iter().map(|a| a.addr).collect(),
        Err(_) => panic!("admin list must be readable"),
    }
}

#[test]
fn donations() {
    let mut store = fresh_contract(&["admin1", "admin2"], "eth");

    let resp = execute(
        &mut store,
        info("user", vec![coin(5, "eth")]),
        ExcuteMsg::Donate {},
        Vec::new(),
    )
    .expect("donation must succeed");

    // The user attached the full five coins.
    let attached: u128 = 5;
    assert_eq!(attached - 5, 0);

    // The contract keeps the remainder of the even split.
    let transferred: u128 = resp
        .messages
        .iter()
        .map(|m| m.amount.iter().map(|c| c.amount).sum::<u128>())
        .sum();
    assert_eq!(attached - transferred, 1);

    // Each admin is owed the floor share of two.
    assert_eq!(resp.messages.len(), 2);
    assert_eq!(resp.messages[0].to_address, "admin1");
    assert_eq!(resp.messages[0].amount.len(), 1);
    assert_eq!(resp.messages[0].amount[0].denom, "eth");
    assert_eq!(resp.messages[0].amount[0].amount, 2);
    assert_eq!(resp.messages[1].to_address, "admin2");
    assert_eq!(resp.messages[1].amount[0].amount, 2);
}

#[test]
fn donation_response_attributes() {
    let mut store = fresh_contract(&["admin1", "admin2"], "eth");
    let resp = donate(&mut store, info("user", vec![coin(5, "eth")])).unwrap();
    let attrs: Vec<(&str, &str)> = resp
        .attributes
        .iter()
        .map(|a| (a.key.as_str(), a.value.as_str()))
        .collect();
    assert_eq!(
        attrs,
        vec![("action", "donate"), ("amount", "5"), ("per_admin", "2")]
    );
    assert!(resp.events.is_empty());
}

#[test]
fn instantiation_lists_admins_in_order() {
    let store = fresh_contract(&["a1", "a2"], "eth");
    assert_eq!(listed_admins(&store), vec!["a1".to_string(), "a2".to_string()]);
}

#[test]
fn instantiation_aborts_on_any_invalid_admin() {
    let mut store = Store::new();
    let msg = InstantiateMessage {
        admins: vec!["good".to_string(), "bad".to_string()],
        donation_denom: "eth".to_string(),
    };
    let outcomes = vec![Ok(id("good")), Err("not an address".to_string())];
    let err = instantiate(&mut store, msg, outcomes).unwrap_err();
    match err {
        ContractError::Validation { message } => assert_eq!(message, "not an address"),
        _ => panic!("expected a validation error"),
    }
    // Nothing was persisted: the admin list is still unreadable.
    assert!(matches!(admin_lists(&store), Err(ContractError::Storage)));
}

#[test]
fn add_members_requires_admin() {
    let mut store = fresh_contract(&["a1", "a2"], "eth");
    let err = execute(
        &mut store,
        info("x", Vec::new()),
        ExcuteMsg::AddMembers { admins: vec!["a3".to_string()] },
        ok_outcomes(&["a3"]),
    )
    .unwrap_err();
    match err {
        ContractError::Unauthorized { sender } => assert_eq!(sender.addr, "x"),
        _ => panic!("expected an authorization error"),
    }
    assert_eq!(listed_admins(&store), vec!["a1".to_string(), "a2".to_string()]);
}

#[test]
fn add_members_appends_in_order() {
    let mut store = fresh_contract(&["a1", "a2"], "eth");
    let resp = execute(
        &mut store,
        info("a1", Vec::new()),
        ExcuteMsg::AddMembers { admins: vec!["a3".to_string()] },
        ok_outcomes(&["a3"]),
    )
    .unwrap();
    assert_eq!(
        listed_admins(&store),
        vec!["a1".to_string(), "a2".to_string(), "a3".to_string()]
    );
    assert_eq!(resp.events.len(), 1);
    assert_eq!(resp.events[0].ty, "admin_added");
    assert_eq!(resp.events[0].attributes.len(), 1);
    assert_eq!(resp.events[0].attributes[0].key, "addr");
    assert_eq!(resp.events[0].attributes[0].value, "a3");
    let attrs: Vec<(&str, &str)> = resp
        .attributes
        .iter()
        .map(|a| (a.key.as_str(), a.value.as_str()))
        .collect();
    assert_eq!(attrs, vec![("action", "add_members"), ("added_count", "1")]);
}

#[test]
fn add_members_permits_duplicates() {
    let mut store = fresh_contract(&["a1"], "eth");
    add_members(
        &mut store,
        info("a1", Vec::new()),
        vec!["a1".to_string()],
        ok_outcomes(&["a1"]),
    )
    .unwrap();
    assert_eq!(listed_admins(&store), vec!["a1".to_string(), "a1".to_string()]);
}

#[test]
fn add_members_aborts_whole_append_on_invalid_admin() {
    let mut store = fresh_contract(&["a1"], "eth");
    let outcomes = vec![Ok(id("a2")), Err("bad address".to_string())];
    let err = add_members(
        &mut store,
        info("a1", Vec::new()),
        vec!["a2".to_string(), "b@d".to_string()],
        outcomes,
    )
    .unwrap_err();
    match err {
        ContractError::Validation { message } => assert_eq!(message, "bad address"),
        _ => panic!("expected a validation error"),
    }
    assert_eq!(listed_admins(&store), vec!["a1".to_string()]);
}

#[test]
fn leave_removes_every_occurrence_and_is_idempotent() {
    let mut store = fresh_contract(&["a1", "a2", "a1"], "eth");
    leave(&mut store, info("a1", Vec::new())).unwrap();
    assert_eq!(listed_admins(&store), vec!["a2".to_string()]);
    // Leaving again, no longer a member, is a no-op success.
    leave(&mut store, info("a1", Vec::new())).unwrap();
    assert_eq!(listed_admins(&store), vec!["a2".to_string()]);
}

#[test]
fn leave_by_non_member_changes_nothing() {
    let mut store = fresh_contract(&["a1"], "eth");
    leave(&mut store, info("stranger", Vec::new())).unwrap();
    assert_eq!(listed_admins(&store), vec!["a1".to_string()]);
}

#[test]
fn donate_rejects_wrong_denomination() {
    let mut store = fresh_contract(&["a1", "a2"], "eth");
    let err = donate(&mut store, info("user", vec![coin(5, "btc")])).unwrap_err();
    match err {
        ContractError::Payment { fault: PaymentFault::MissingDenom(d) } => assert_eq!(d, "eth"),
        _ => panic!("expected a missing-denomination fault"),
    }
}

#[test]
fn donate_rejects_zero_amount() {
    let mut store = fresh_contract(&["a1", "a2"], "eth");
    let err = donate(&mut store, info("user", vec![coin(0, "eth")])).unwrap_err();
    assert!(matches!(err, ContractError::Payment { fault: PaymentFault::NoFunds }));
}

#[test]
fn donate_rejects_missing_funds() {
    let mut store = fresh_contract(&["a1", "a2"], "eth");
    let err = donate(&mut store, info("user", Vec::new())).unwrap_err();
    assert!(matches!(err, ContractError::Payment { fault: PaymentFault::NoFunds }));
}

#[test]
fn donate_rejects_several_coins() {
    let mut store = fresh_contract(&["a1", "a2"], "eth");
    let err = donate(
        &mut store,
        info("user", vec![coin(5, "eth"), coin(1, "btc")]),
    )
    .unwrap_err();
    assert!(matches!(err, ContractError::Payment { fault: PaymentFault::MultipleDenoms }));
}

#[test]
fn donate_with_no_admins_is_an_arithmetic_error() {
    let mut store = fresh_contract(&[], "eth");
    let err = donate(&mut store, info("user", vec![coin(5, "eth")])).unwrap_err();
    assert!(matches!(err, ContractError::Arithmetic));
}

#[test]
fn donate_before_instantiation_is_a_storage_error() {
    let mut store = Store::new();
    let err = donate(&mut store, info("user", vec![coin(5, "eth")])).unwrap_err();
    assert!(matches!(err, ContractError::Storage));
}

#[test]
fn greet_answers_hello_world() {
    assert_eq!(greet().unwrap().message, "Hello world");
    let store = Store::new();
    match query(&store, QueryMsg::Greet {}) {
        Ok(QueryResp::Greet(g)) => assert_eq!(g.message, "Hello world"),
        _ => panic!("expected the greeting"),
    }
}

#[test]
fn count_query_reads_an_unwritten_key() {
    // No instruction ever writes the counter, so reading it fails.
    let store = fresh_contract(&["a1"], "eth");
    assert!(matches!(query(&store, QueryMsg::Count {}), Err(ContractError::Storage)));
}

#[test]
fn increment_is_a_stub_without_effect() {
    let mut store = fresh_contract(&["a1"], "eth");
    let resp = execute(
        &mut store,
        info("a1", Vec::new()),
        ExcuteMsg::Increment {},
        Vec::new(),
    )
    .unwrap();
    assert!(resp.messages.is_empty());
    assert!(resp.attributes.is_empty());
    assert!(resp.events.is_empty());
    assert_eq!(listed_admins(&store), vec!["a1".to_string()]);
}

#[test]
fn query_lists_admins() {
    let store = fresh_contract(&["a1", "a2"], "eth");
    match query(&store, QueryMsg::AdminsList {}) {
        Ok(QueryResp::AdminsList(resp)) => {
            let names: Vec<String> = resp.admins.into_iter().map(|a| a.addr).collect();
            assert_eq!(names, vec!["a1".to_string(), "a2".to_string()]);
        }
        _ => panic!("expected the admin list"),
    }
}
