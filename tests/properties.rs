use counting_contract::add;
use counting_contract::contract::{self as handlers, CONTRACT_NAME, CONTRACT_VERSION};
use counting_contract::error::ContractError;
use counting_contract::msg::{Coin, ExecMsg, Fraction, InstantiateMsg, Parent, QueryMsg, ValueResp};
use counting_contract::response::{Attribute, Message, Response};
use counting_contract::state::{ContractVersion, ParentDonation, State, Store};
use counting_contract::{execute, instantiate, migrate, query};

fn coins(amount: u128, denom: &str) -> Vec<Coin> {
    vec![Coin::new(amount, denom)]
}

fn create(minimal_donation: Coin, parent: Option<Parent>) -> Store {
    let mut store = Store::new();
    let msg = InstantiateMsg { counter: 7, minimal_donation, parent };
    instantiate(&mut store, &"owner".to_string(), &msg).unwrap();
    store
}

fn donate_with(store: &mut Store, funds: &[Coin], balance: &[Coin]) -> Response {
    execute(store, &"donor".to_string(), &funds.to_vec(), &balance.to_vec(), ExecMsg::Donate {}).unwrap()
}

fn counter(store: &Store) -> u64 {
    query(store, QueryMsg::Value {}).unwrap().value
}

fn attr(key: &str, value: &str) -> Attribute {
    Attribute { key: key.to_string(), value: value.to_string() }
}

fn versioned(contract: &str, version: &str) -> Store {
    let mut store = Store::new();
    store.contract_version =
        Some(ContractVersion { contract: contract.to_string(), version: version.to_string() });
    store
}

#[test]
fn instantiate_records_owner_and_parent() {
    let parent = Parent { addr: "up".to_string(), donating_period: 3, part: Fraction::percent(50) };
    let store = create(Coin::new(10, "atom"), Some(parent));
    assert_eq!(
        store.state,
        Some(State {
            counter: 0,
            minimal_donation: Coin::new(10, "atom"),
            owner: "owner".to_string(),
            donating_parent: Some(3),
        })
    );
    assert_eq!(store.owner, Some("owner".to_string()));
    assert_eq!(
        store.parent_donation,
        Some(ParentDonation {
            address: "up".to_string(),
            donating_parent_period: 3,
            part: Fraction { atomics: 500_000_000_000_000_000 },
        })
    );
    assert_eq!(
        store.contract_version,
        Some(ContractVersion {
            contract: CONTRACT_NAME.to_string(),
            version: CONTRACT_VERSION.to_string()
        })
    );
}

#[test]
fn unmet_threshold_changes_nothing() {
    let mut store = create(Coin::new(10, "atom"), None);
    let before = store.clone();
    let funds = vec![Coin::new(9, "atom"), Coin::new(100, "btc")];
    let resp = donate_with(&mut store, &funds, &funds);
    assert_eq!(store, before);
    assert!(resp.messages.is_empty());
    assert_eq!(
        resp.attributes,
        vec![attr("action", "poke"), attr("sender", "donor"), attr("counter", "0")]
    );
}

#[test]
fn any_matching_coin_qualifies() {
    let mut store = create(Coin::new(10, "atom"), None);
    let funds = vec![Coin::new(1, "atom"), Coin::new(11, "atom")];
    donate_with(&mut store, &funds, &funds);
    assert_eq!(counter(&store), 1);
}

#[test]
fn zero_threshold_counts_every_donation() {
    let mut store = create(Coin::new(0, "atom"), None);
    donate_with(&mut store, &[], &[]);
    donate_with(&mut store, &coins(1, "btc"), &coins(1, "btc"));
    assert_eq!(counter(&store), 2);
}

#[test]
fn counter_never_decreases() {
    let mut store = create(Coin::new(5, "atom"), None);
    let mut last = counter(&store);
    let rounds = [0u128, 5, 4, 6, 0, 5];
    for amount in rounds {
        donate_with(&mut store, &coins(amount, "atom"), &coins(amount, "atom"));
        let now = counter(&store);
        assert!(now >= last);
        last = now;
    }
    assert_eq!(last, 3);
}

#[test]
fn donation_reports_counter() {
    let mut store = create(Coin::new(10, "atom"), None);
    let resp = donate_with(&mut store, &coins(10, "atom"), &coins(10, "atom"));
    assert_eq!(
        resp.attributes,
        vec![attr("action", "poke"), attr("sender", "donor"), attr("counter", "1")]
    );
    assert_eq!(counter(&store), 1);
}

#[test]
fn counter_attribute_has_all_digits() {
    let mut store = create(Coin::new(0, "atom"), None);
    for _ in 0..12 {
        donate_with(&mut store, &[], &[]);
    }
    let resp = donate_with(&mut store, &[], &[]);
    assert_eq!(resp.attributes[2], attr("counter", "13"));
}

#[test]
fn forwarding_repeats_every_period() {
    let parent = Parent { addr: "up".to_string(), donating_period: 2, part: Fraction::percent(10) };
    let mut store = create(Coin::new(10, "atom"), Some(parent));
    let mut sent = Vec::new();
    for round in 1..=6u128 {
        let resp = donate_with(&mut store, &coins(10, "atom"), &coins(10 * round, "atom"));
        sent.push(resp.messages.len());
    }
    assert_eq!(sent, vec![0, 1, 0, 1, 0, 1]);
    assert_eq!(store.state.unwrap().donating_parent, Some(2));
}

#[test]
fn forward_share_is_floored_per_denomination() {
    let parent = Parent { addr: "up".to_string(), donating_period: 1, part: Fraction::percent(10) };
    let mut store = create(Coin::new(0, "atom"), Some(parent));
    let balance = vec![Coin::new(25, "atom"), Coin::new(9, "btc"), Coin::new(1000, "eth")];
    let resp = donate_with(&mut store, &[], &balance);
    assert_eq!(
        resp.messages,
        vec![Message::Donate {
            contract_addr: "up".to_string(),
            funds: vec![Coin::new(2, "atom"), Coin::new(0, "btc"), Coin::new(100, "eth")],
        }]
    );
    assert_eq!(resp.attributes[0], attr("donated_to_parent", "up"));
    assert_eq!(resp.attributes.len(), 4);
}

#[test]
fn whole_part_forwards_whole_balance() {
    let share = handlers::forward_share(&coins(u128::MAX, "atom"), Fraction::percent(100));
    assert_eq!(share, coins(u128::MAX, "atom"));
}

#[test]
fn missing_parent_record_is_an_error() {
    let mut store = create(Coin::new(0, "atom"), None);
    if let Some(s) = store.state.as_mut() {
        s.donating_parent = Some(1);
    }
    let before = store.clone();
    let err = execute(&mut store, &"donor".to_string(), &vec![], &vec![], ExecMsg::Donate {}).unwrap_err();
    assert_eq!(err, ContractError::NotFound { key: "parent_donation".to_string() });
    assert_eq!(store, before);
}

#[test]
fn missing_state_is_an_error() {
    let store = Store::new();
    assert_eq!(
        query(&store, QueryMsg::Value {}),
        Err(ContractError::NotFound { key: "state".to_string() })
    );
}

#[test]
fn withdraw_rejects_everyone_but_owner() {
    let mut store = create(Coin::new(10, "atom"), None);
    for caller in ["", "Owner", "owner ", "sender"] {
        let err = execute(&mut store, &caller.to_string(), &vec![], &coins(3, "atom"), ExecMsg::Withdraw {})
            .unwrap_err();
        assert_eq!(err, ContractError::Unauthorized { owner: "owner".to_string() });
        let msg = ExecMsg::WithdrawTo { receiver: caller.to_string(), funds: vec![] };
        let err = execute(&mut store, &caller.to_string(), &vec![], &coins(3, "atom"), msg).unwrap_err();
        assert_eq!(err, ContractError::Unauthorized { owner: "owner".to_string() });
    }
}

#[test]
fn withdraw_to_without_caps_sends_everything() {
    let mut store = create(Coin::new(10, "atom"), None);
    let balance = vec![Coin::new(7, "atom"), Coin::new(3, "btc")];
    let msg = ExecMsg::WithdrawTo { receiver: "r".to_string(), funds: vec![] };
    let resp = execute(&mut store, &"owner".to_string(), &vec![], &balance, msg).unwrap();
    assert_eq!(resp.messages, vec![Message::BankSend { to_address: "r".to_string(), amount: balance }]);
}

#[test]
fn withdraw_to_caps_each_denomination() {
    let mut store = create(Coin::new(10, "atom"), None);
    let balance = vec![Coin::new(7, "atom"), Coin::new(3, "btc"), Coin::new(4, "eth")];
    let caps = vec![Coin::new(100, "btc"), Coin::new(5, "atom"), Coin::new(1, "atom")];
    let msg = ExecMsg::WithdrawTo { receiver: "r".to_string(), funds: caps };
    let resp = execute(&mut store, &"owner".to_string(), &vec![], &balance, msg).unwrap();
    assert_eq!(
        resp.messages,
        vec![Message::BankSend {
            to_address: "r".to_string(),
            amount: vec![Coin::new(5, "atom"), Coin::new(3, "btc"), Coin::new(0, "eth")],
        }]
    );
}

#[test]
fn reset_does_nothing() {
    let mut store = create(Coin::new(10, "atom"), None);
    let before = store.clone();
    let resp = execute(&mut store, &"x".to_string(), &vec![], &vec![], ExecMsg::Reset { counter: 4 }).unwrap();
    assert_eq!(resp, Response::new());
    assert_eq!(store, before);
}

#[test]
fn migrate_at_current_version_is_noop() {
    let mut store = create(Coin::new(10, "atom"), None);
    let before = store.clone();
    let resp = migrate(&mut store).unwrap();
    assert_eq!(resp, Response::new());
    assert_eq!(store, before);
}

#[test]
fn migrate_unified_legacy_record() {
    let mut store = versioned(CONTRACT_NAME, "0.2.0");
    store.state = Some(State {
        counter: 1,
        minimal_donation: Coin::new(10, "atom"),
        owner: "O".to_string(),
        donating_parent: None,
    });
    migrate(&mut store).unwrap();
    assert_eq!(
        store.state,
        Some(State {
            counter: 1,
            minimal_donation: Coin::new(10, "atom"),
            owner: "O".to_string(),
            donating_parent: None,
        })
    );
    assert_eq!(store.contract_version.unwrap().version, CONTRACT_VERSION.to_string());
}

#[test]
fn migrate_separate_records_needs_all_three() {
    let mut store = versioned(CONTRACT_NAME, "0.1.0");
    store.counter = Some(1);
    store.owner = Some("O".to_string());
    let before = store.clone();
    assert_eq!(
        migrate(&mut store),
        Err(ContractError::NotFound { key: "minimal_donation".to_string() })
    );
    assert_eq!(store, before);
}

#[test]
fn migrate_rejects_other_contract() {
    let mut store = versioned("another-contract", "0.1.0");
    assert_eq!(
        migrate(&mut store),
        Err(ContractError::InvalidContract { contract: "another-contract".to_string() })
    );
}

#[test]
fn migrate_rejects_unknown_version() {
    let mut store = versioned(CONTRACT_NAME, "0.0.9");
    assert_eq!(
        migrate(&mut store),
        Err(ContractError::InvalidContractVersion { version: "0.0.9".to_string() })
    );
}

#[test]
fn migrate_without_version_info_is_an_error() {
    let mut store = Store::new();
    assert_eq!(
        migrate(&mut store),
        Err(ContractError::NotFound { key: "contract_info".to_string() })
    );
}

#[test]
fn percent_scales_to_atomics() {
    assert_eq!(Fraction::percent(10).atomics, 100_000_000_000_000_000);
    assert_eq!(handlers::value(&create(Coin::new(1, "a"), None)), Ok(ValueResp { value: 0 }));
}

#[test]
fn add_sums() {
    assert_eq!(add(2, 2), 4);
}

fn at_counter_limit() -> Store {
    let mut store = create(Coin::new(10, "atom"), None);
    if let Some(s) = store.state.as_mut() {
        s.counter = u64::MAX;
    }
    store
}

#[test]
fn withdrawals_work_at_counter_limit() {
    let mut store = at_counter_limit();
    let resp = execute(&mut store, &"owner".to_string(), &vec![], &coins(4, "atom"), ExecMsg::Withdraw {})
        .unwrap();
    assert_eq!(resp.messages, vec![Message::BankSend { to_address: "owner".to_string(), amount: coins(4, "atom") }]);
    let msg = ExecMsg::WithdrawTo { receiver: "r".to_string(), funds: coins(1, "atom") };
    let resp = execute(&mut store, &"owner".to_string(), &vec![], &coins(4, "atom"), msg).unwrap();
    assert_eq!(resp.messages, vec![Message::BankSend { to_address: "r".to_string(), amount: coins(1, "atom") }]);
}

#[test]
fn reset_at_counter_limit_does_nothing() {
    let mut store = at_counter_limit();
    let before = store.clone();
    let resp = execute(&mut store, &"x".to_string(), &vec![], &vec![], ExecMsg::Reset { counter: 0 }).unwrap();
    assert_eq!(resp, Response::new());
    assert_eq!(store, before);
}

#[test]
fn unmet_donation_at_counter_limit_changes_nothing() {
    let mut store = at_counter_limit();
    let before = store.clone();
    assert!(handlers::can_donate_now(&store, &coins(9, "atom")));
    assert!(!handlers::can_donate_now(&store, &coins(10, "atom")));
    let resp = donate_with(&mut store, &coins(9, "atom"), &coins(9, "atom"));
    assert_eq!(store, before);
    assert!(resp.messages.is_empty());
    assert_eq!(resp.attributes[2], attr("counter", "18446744073709551615"));
}
