use counting_contract::contract::CONTRACT_NAME;
use counting_contract::error::ContractError;
use counting_contract::msg::{Coin, ExecMsg, Fraction, InstantiateMsg, Parent, QueryMsg, ValueResp};
use counting_contract::response::{Attribute, Message, Response};
use counting_contract::state::{ContractVersion, State, Store};
use counting_contract::{execute, instantiate, migrate, query};

const ATOM: &str = "atom";

fn coins(amount: u128, denom: &str) -> Vec<Coin> {
    vec![Coin::new(amount, denom)]
}

fn create(owner: &str, minimal_donation: Coin, parent: Option<Parent>) -> Store {
    let mut store = Store::new();
    let msg = InstantiateMsg { counter: 0, minimal_donation, parent };
    let resp = instantiate(&mut store, &owner.to_string(), &msg).unwrap();
    assert_eq!(resp, Response::new());
    store
}

fn run(store: &mut Store, sender: &str, funds: &[Coin], balance: &[Coin], msg: ExecMsg) -> Result<Response, ContractError> {
    execute(store, &sender.to_string(), &funds.to_vec(), &balance.to_vec(), msg)
}

fn value_of(store: &Store) -> ValueResp {
    query(store, QueryMsg::Value {}).unwrap()
}

fn attr(key: &str, value: &str) -> Attribute {
    Attribute { key: key.to_string(), value: value.to_string() }
}

fn legacy_store(version: &str) -> Store {
    let mut store = Store::new();
    store.contract_version = Some(ContractVersion {
        contract: CONTRACT_NAME.to_string(),
        version: version.to_string(),
    });
    store
}

#[test]
fn donate_with_funds() {
    let mut store = create("owner", Coin::new(10, "atom"), None);
    run(&mut store, "sender", &coins(10, ATOM), &coins(10, ATOM), ExecMsg::Donate {}).unwrap();
    assert_eq!(value_of(&store), ValueResp { value: 1 });
}

#[test]
fn query_value() {
    let store = create("owner", Coin::new(10, "atom"), None);
    assert_eq!(value_of(&store), ValueResp { value: 0 });
}

#[test]
fn donate() {
    let mut store = create("owner", Coin::new(10, "atom"), None);
    run(&mut store, "sender", &[], &[], ExecMsg::Donate {}).unwrap();
    assert_eq!(value_of(&store), ValueResp { value: 0 });
}

#[test]
fn withdraw() {
    let mut store = create("owner", Coin::new(10, "atom"), None);
    run(&mut store, "sender", &coins(10, ATOM), &coins(10, ATOM), ExecMsg::Donate {}).unwrap();
    let resp = run(&mut store, "owner", &[], &coins(10, ATOM), ExecMsg::Withdraw {}).unwrap();
    assert_eq!(
        resp.messages,
        vec![Message::BankSend { to_address: "owner".to_string(), amount: coins(10, ATOM) }]
    );
    assert_eq!(resp.attributes, vec![attr("action", "withdraw"), attr("sender", "owner")]);
}

#[test]
fn withdraw_to() {
    let mut store = create("owner", Coin::new(10, "atom"), None);
    run(&mut store, "sender", &coins(10, ATOM), &coins(10, ATOM), ExecMsg::Donate {}).unwrap();
    let msg = ExecMsg::WithdrawTo { receiver: "receiver".to_string(), funds: coins(5, ATOM) };
    let resp = run(&mut store, "owner", &[], &coins(10, ATOM), msg).unwrap();
    assert_eq!(
        resp.messages,
        vec![Message::BankSend { to_address: "receiver".to_string(), amount: coins(5, ATOM) }]
    );
    let sent = match &resp.messages[0] {
        Message::BankSend { amount, .. } => amount[0].amount,
        _ => unreachable!(),
    };
    assert_eq!(10 - sent, 5);
}

#[test]
fn unauthorized_withdraw() {
    let mut store = create("owner", Coin::new(10, "atom"), None);
    let err = run(&mut store, "member", &[], &[], ExecMsg::Withdraw {}).unwrap_err();
    assert_eq!(ContractError::Unauthorized { owner: "owner".to_string() }, err);
}

#[test]
fn migration() {
    let mut store = legacy_store("0.1.0");
    store.counter = Some(1);
    store.minimal_donation = Some(Coin::new(10, ATOM));
    store.owner = Some("owner".to_string());
    migrate(&mut store).unwrap();
    assert_eq!(value_of(&store).value, 1);
    assert_eq!(
        store.state,
        Some(State {
            counter: 1,
            minimal_donation: Coin::new(10, ATOM),
            donating_parent: None,
            owner: "owner".to_string(),
        })
    );
}

#[test]
fn donating_parent() {
    let mut parent = create("owner", Coin::new(0, ATOM), None);
    let mut child = create(
        "owner",
        Coin::new(10, ATOM),
        Some(Parent { addr: "parent".to_string(), donating_period: 2, part: Fraction::percent(10) }),
    );
    let first = run(&mut child, "sender", &coins(10, ATOM), &coins(10, ATOM), ExecMsg::Donate {}).unwrap();
    assert!(first.messages.is_empty());
    let second = run(&mut child, "sender", &coins(10, ATOM), &coins(20, ATOM), ExecMsg::Donate {}).unwrap();
    assert_eq!(
        second.messages,
        vec![Message::Donate { contract_addr: "parent".to_string(), funds: coins(2, ATOM) }]
    );
    let forwarded = match &second.messages[0] {
        Message::Donate { funds, .. } => funds.clone(),
        _ => unreachable!(),
    };
    run(&mut parent, "contract", &forwarded, &forwarded, ExecMsg::Donate {}).unwrap();
    assert_eq!(value_of(&parent), ValueResp { value: 1 });
    assert_eq!(value_of(&child), ValueResp { value: 2 });
    assert_eq!(20 - forwarded[0].amount, 18);
    assert_eq!(forwarded[0].amount, 2);
}
