use vstd::prelude::*;
use crate::error::ContractError;
use crate::math::{decimal_digits, lemma_mul_unit_le, mul_floor, mul_fraction, u64_to_string};
use crate::msg::{duplicate_coins, Coin, Fraction, InstantiateMsg, ValueResp};
use crate::response::{Attribute, Message, Response};
use crate::state::{ContractVersion, ParentDonation, State, Store};

verus! {

/// Whether `r` is the error for the missing record `key`.
pub open spec fn is_not_found<T>(r: Result<T, ContractError>, key: Seq<char>) -> bool {
    match r {
        Err(ContractError::NotFound { key: k }) => k@ == key,
        _ => false,
    }
}

/// The error for the missing record `key`.
pub fn not_found(key: &str) -> (r: ContractError)
    ensures
        is_not_found::<()>(Err(r), key@),
{
    ContractError::NotFound { key: String::from_str(key) }
}

/// A donation qualifies when there is no threshold, or when one of the
/// attached coins has the threshold's denomination and reaches its amount.
pub open spec fn meets_threshold(minimal: Coin, funds: Seq<Coin>) -> bool {
    minimal.amount == 0 || exists|i: int|
        0 <= i < funds.len() && #[trigger] funds[i].denom@ == minimal.denom@
            && funds[i].amount >= minimal.amount
}

/// Whether a donation of `funds` meets the threshold `minimal`.
pub fn qualifies(minimal: &Coin, funds: &Vec<Coin>) -> (r: bool)
    ensures
        r == meets_threshold(*minimal, funds@),
{
    if minimal.amount == 0 {
        return true;
    }
    let mut i: usize = 0;
    while i < funds.len()
        invariant
            i <= funds@.len(),
            forall|j: int|
                0 <= j < i ==> !(#[trigger] funds@[j].denom@ == minimal.denom@ && funds@[j].amount
                    >= minimal.amount),
        decreases funds@.len() - i,
    {
        if funds[i].denom == minimal.denom && funds[i].amount >= minimal.amount {
            return true;
        }
        i = i + 1;
    }
    false
}

/// The countdown after one qualifying donation: it counts down to one, then
/// starts again at the period.
pub open spec fn next_countdown(n: u64, period: u64) -> u64 {
    if n == 1 {
        period
    } else {
        (n - 1) as u64
    }
}

/// The share of one held coin that goes to the parent.
pub open spec fn forward_coin(c: Coin, part: Fraction) -> Coin {
    Coin { denom: c.denom, amount: mul_floor(c.amount, part) as u128 }
}

/// The share of every held coin that goes to the parent.
pub open spec fn forwarded(balance: Seq<Coin>, part: Fraction) -> Seq<Coin> {
    balance.map_values(|c: Coin| forward_coin(c, part))
}

/// The share of each held coin that goes to the parent, floored.
pub fn forward_share(balance: &Vec<Coin>, part: Fraction) -> (r: Vec<Coin>)
    requires
        part.is_unit(),
    ensures
        r@ == forwarded(balance@, part),
{
    let mut r: Vec<Coin> = Vec::new();
    let mut i: usize = 0;
    while i < balance.len()
        invariant
            i <= balance@.len(),
            part.is_unit(),
            r@.len() == i,
            forall|j: int| 0 <= j < i ==> #[trigger] r@[j] == forward_coin(balance@[j], part),
        decreases balance@.len() - i,
    {
        proof {
            lemma_mul_unit_le(balance@[i as int].amount, part);
        }
        let amount = mul_fraction(balance[i].amount, part);
        r.push(Coin { denom: balance[i].denom.clone(), amount });
        i = i + 1;
    }
    assert(r@ =~= forwarded(balance@, part));
    r
}

/// The attributes `action`, `sender` and `counter` that every donation
/// reports, starting at `at`.
pub open spec fn poke_attributes(
    attrs: Seq<Attribute>,
    at: int,
    sender: Seq<char>,
    counter: u64,
) -> bool {
    &&& attrs.len() == at + 3
    &&& attrs[at].is("action"@, "poke"@)
    &&& attrs[at + 1].is("sender"@, sender)
    &&& attrs[at + 2].is("counter"@, decimal_digits(counter as nat))
}

/// `s` after one qualifying donation, with `countdown` as the new countdown.
pub open spec fn advanced(s: State, countdown: Option<u64>) -> State {
    State { counter: (s.counter + 1) as u64, donating_parent: countdown, ..s }
}

/// Whether the donation that meets `s` ends a countdown, so that the parent
/// is paid.
pub open spec fn forwards(s: State) -> bool {
    s.donating_parent == Some(1u64)
}

/// What a donation from `sender` carrying `funds` does: `balance` is what the
/// contract holds with those funds credited, `before` and `after` the store
/// around the call and `r` its result.
pub open spec fn donate_post(
    before: Store,
    sender: Seq<char>,
    funds: Seq<Coin>,
    balance: Seq<Coin>,
    after: Store,
    r: Result<Response, ContractError>,
) -> bool {
    &&& after.wf()
    &&& r.is_err() ==> after == before
    &&& before.state.is_none() ==> is_not_found(r, "state"@)
    &&& before.state matches Some(s) ==> {
        if !meets_threshold(s.minimal_donation, funds) {
            &&& after == before
            &&& r matches Ok(resp) && resp.messages@.len() == 0 && poke_attributes(
                resp.attributes@,
                0,
                sender,
                s.counter,
            )
        } else if !forwards(s) {
            let countdown = match s.donating_parent {
                Some(n) => Some((n - 1) as u64),
                None => None,
            };
            &&& after == (Store { state: Some(advanced(s, countdown)), ..before })
            &&& r matches Ok(resp) && resp.messages@.len() == 0 && poke_attributes(
                resp.attributes@,
                0,
                sender,
                (s.counter + 1) as u64,
            )
        } else {
            match before.parent_donation {
                None => is_not_found(r, "parent_donation"@),
                Some(p) => {
                    &&& after == (Store {
                        state: Some(advanced(s, Some(p.donating_parent_period))),
                        ..before
                    })
                    &&& r matches Ok(resp) && resp.messages@.len() == 1
                        && is_donation_to(resp.messages@[0], p.address, forwarded(balance, p.part))
                        && resp.attributes@[0].is("donated_to_parent"@, p.address@)
                        && poke_attributes(resp.attributes@, 1, sender, (s.counter + 1) as u64)
                },
            }
        }
    }
}

/// Whether `m` is a `Donate` call on `addr` carrying exactly `funds`.
pub open spec fn is_donation_to(m: Message, addr: String, funds: Seq<Coin>) -> bool {
    match m {
        Message::Donate { contract_addr, funds: f } => contract_addr == addr && f@ == funds,
        _ => false,
    }
}

/// Whether the store can take a donation of `funds`: well formed, and, where
/// the donation qualifies, the counter below its largest value.
pub open spec fn can_donate(store: Store, funds: Seq<Coin>) -> bool {
    &&& store.wf()
    &&& store.state matches Some(s) ==> (meets_threshold(s.minimal_donation, funds) ==> s.counter
        < u64::MAX)
}

/// Tests `can_donate`, for callers that hold a store read from outside.
pub fn can_donate_now(store: &Store, funds: &Vec<Coin>) -> (r: bool)
    ensures
        r == can_donate(*store, funds@),
{
    let below_max = match &store.state {
        Some(s) => s.counter < u64::MAX || !qualifies(&s.minimal_donation, funds),
        None => true,
    };
    store.is_well_formed() && below_max
}

/// Handles a donation from `sender` carrying `funds`; `balance` is what the
/// contract holds with those funds credited.
pub fn donate(store: &mut Store, sender: &String, funds: &Vec<Coin>, balance: &Vec<Coin>) -> (r:
    Result<Response, ContractError>)
    requires
        can_donate(*old(store), funds@),
    ensures
        donate_post(*old(store), sender@, funds@, balance@, *final(store), r),
{
    let state = match &store.state {
        Some(s) => s,
        None => return Err(not_found("state")),
    };
    let mut counter = state.counter;
    let mut countdown = state.donating_parent;
    let mut messages: Vec<Message> = Vec::new();
    let mut attributes: Vec<Attribute> = Vec::new();
    if qualifies(&state.minimal_donation, funds) {
        counter = counter + 1;
        if let Some(n) = countdown {
            let left = n - 1;
            if left == 0 {
                let parent = match &store.parent_donation {
                    Some(p) => p,
                    None => return Err(not_found("parent_donation")),
                };
                countdown = Some(parent.donating_parent_period);
                let share = forward_share(balance, parent.part);
                messages.push(Message::Donate { contract_addr: parent.address.clone(), funds: share });
                attributes.push(Attribute::new("donated_to_parent", parent.address.clone()));
            } else {
                countdown = Some(left);
            }
        }
        let next = State {
            counter,
            minimal_donation: state.minimal_donation.duplicate(),
            owner: state.owner.clone(),
            donating_parent: countdown,
        };
        store.state = Some(next);
    }
    attributes.push(Attribute::new("action", String::from_str("poke")));
    attributes.push(Attribute::new("sender", sender.clone()));
    attributes.push(Attribute::new("counter", u64_to_string(counter)));
    Ok(Response { messages, attributes })
}

/// Whether `m` is a transfer to `to` of exactly `amount`.
pub open spec fn is_send_to(m: Message, to: Seq<char>, amount: Seq<Coin>) -> bool {
    match m {
        Message::BankSend { to_address, amount: a } => to_address@ == to && a@ == amount,
        _ => false,
    }
}

/// The attributes that both withdrawals report.
pub open spec fn withdraw_attributes(attrs: Seq<Attribute>, sender: Seq<char>) -> bool {
    &&& attrs.len() == 2
    &&& attrs[0].is("action"@, "withdraw"@)
    &&& attrs[1].is("sender"@, sender)
}

/// The common outcome of a withdrawal by `sender` that moves `amount` to `to`:
/// only the recorded owner may withdraw.
pub open spec fn withdrawal_post(
    store: Store,
    sender: Seq<char>,
    to: Seq<char>,
    amount: Seq<Coin>,
    r: Result<Response, ContractError>,
) -> bool {
    match store.owner {
        None => is_not_found(r, "owner"@),
        Some(owner) => if sender != owner@ {
            r == Err::<Response, ContractError>(ContractError::Unauthorized { owner })
        } else {
            r matches Ok(resp) && resp.messages@.len() == 1 && is_send_to(
                resp.messages@[0],
                to,
                amount,
            ) && withdraw_attributes(resp.attributes@, sender)
        },
    }
}

fn load_owner(store: &Store) -> (r: Result<String, ContractError>)
    ensures
        match store.owner {
            None => is_not_found(r, "owner"@),
            Some(o) => r == Ok::<String, ContractError>(o),
        },
{
    match &store.owner {
        Some(o) => Ok(o.clone()),
        None => Err(not_found("owner")),
    }
}

fn withdrawal(sender: &String, to: String, amount: Vec<Coin>) -> (r: Response)
    ensures
        r.messages@.len() == 1,
        is_send_to(r.messages@[0], to@, amount@),
        withdraw_attributes(r.attributes@, sender@),
{
    let mut messages: Vec<Message> = Vec::new();
    messages.push(Message::BankSend { to_address: to, amount });
    let mut attributes: Vec<Attribute> = Vec::new();
    attributes.push(Attribute::new("action", String::from_str("withdraw")));
    attributes.push(Attribute::new("sender", sender.clone()));
    Response { messages, attributes }
}

/// Sends the whole `balance` of the contract to `sender`, who must be the owner.
pub fn withdraw(store: &Store, sender: &String, balance: &Vec<Coin>) -> (r: Result<
    Response,
    ContractError,
>)
    ensures
        withdrawal_post(*store, sender@, sender@, balance@, r),
{
    let owner = load_owner(store)?;
    if *sender != owner {
        return Err(ContractError::Unauthorized { owner });
    }
    Ok(withdrawal(sender, sender.clone(), duplicate_coins(balance)))
}

/// The cap that `funds` puts on `denom`: the amount of the first coin of that
/// denomination, or zero when none is listed.
pub open spec fn cap_for(funds: Seq<Coin>, denom: Seq<char>) -> u128
    decreases funds.len(),
{
    if funds.len() == 0 {
        0
    } else if funds[0].denom@ == denom {
        funds[0].amount
    } else {
        cap_for(funds.drop_first(), denom)
    }
}

pub open spec fn min_u128(a: u128, b: u128) -> u128 {
    if a <= b {
        a
    } else {
        b
    }
}

/// What `withdraw_to` sends out of `balance`: all of it when `funds` is empty,
/// else each held coin clipped to its cap in `funds`.
pub open spec fn withdrawn(balance: Seq<Coin>, funds: Seq<Coin>) -> Seq<Coin> {
    if funds.len() == 0 {
        balance
    } else {
        balance.map_values(
            |c: Coin| Coin { denom: c.denom, amount: min_u128(c.amount, cap_for(funds, c.denom@)) },
        )
    }
}

fn find_cap(funds: &Vec<Coin>, denom: &String) -> (r: u128)
    ensures
        r == cap_for(funds@, denom@),
{
    let mut i: usize = 0;
    assert(funds@.subrange(0, funds@.len() as int) =~= funds@);
    while i < funds.len()
        invariant
            i <= funds@.len(),
            cap_for(funds@.subrange(i as int, funds@.len() as int), denom@) == cap_for(
                funds@,
                denom@,
            ),
        decreases funds@.len() - i,
    {
        let ghost rest = funds@.subrange(i as int, funds@.len() as int);
        if funds[i].denom == *denom {
            return funds[i].amount;
        }
        assert(rest.drop_first() =~= funds@.subrange(i + 1, funds@.len() as int));
        i = i + 1;
    }
    0
}

/// Sends coins of the contract to `receiver`; the caller must be the owner.
/// With `funds` empty the whole `balance` goes; otherwise `funds` caps each
/// denomination, and one that it does not list is sent with amount zero.
pub fn withdraw_to(
    store: &Store,
    sender: &String,
    receiver: String,
    funds: &Vec<Coin>,
    balance: &Vec<Coin>,
) -> (r: Result<Response, ContractError>)
    ensures
        withdrawal_post(*store, sender@, receiver@, withdrawn(balance@, funds@), r),
{
    let owner = load_owner(store)?;
    if *sender != owner {
        return Err(ContractError::Unauthorized { owner });
    }
    let mut amount = duplicate_coins(balance);
    if funds.len() > 0 {
        let mut i: usize = 0;
        while i < amount.len()
            invariant
                funds@.len() > 0,
                amount@.len() == balance@.len(),
                i <= amount@.len(),
                forall|j: int| 0 <= j < i ==> #[trigger] amount@[j] == withdrawn(balance@, funds@)[j],
                forall|j: int| i <= j < amount@.len() ==> #[trigger] amount@[j] == balance@[j],
            decreases amount@.len() - i,
        {
            let cap = find_cap(funds, &amount[i].denom);
            if cap < amount[i].amount {
                let denom = amount[i].denom.clone();
                amount.set(i, Coin { denom, amount: cap });
            }
            i = i + 1;
        }
        assert(amount@ =~= withdrawn(balance@, funds@));
    }
    Ok(withdrawal(sender, receiver, amount))
}

/// The name under which this program records itself in the store.
pub const CONTRACT_NAME: &'static str = "counting-contract";

/// The version of the current record layout.
pub const CONTRACT_VERSION: &'static str = "0.3.0";

/// Whether `v` names this program at its current version.
pub open spec fn is_current(v: Option<ContractVersion>) -> bool {
    v matches Some(cv) && cv.contract@ == CONTRACT_NAME@ && cv.version@ == CONTRACT_VERSION@
}

fn current_version() -> (r: ContractVersion)
    ensures
        is_current(Some(r)),
{
    ContractVersion {
        contract: String::from_str(CONTRACT_NAME),
        version: String::from_str(CONTRACT_VERSION),
    }
}

/// The state that an instantiation by `sender` writes.
pub open spec fn initial_state(sender: String, msg: InstantiateMsg) -> State {
    State {
        counter: 0,
        minimal_donation: msg.minimal_donation,
        owner: sender,
        donating_parent: match msg.parent {
            Some(p) => Some(p.donating_period),
            None => None,
        },
    }
}

/// Seeds the store for a contract created by `sender`; a parent's address
/// is taken as already validated.
pub fn instantiate(store: &mut Store, sender: &String, msg: &InstantiateMsg) -> (r: Response)
    requires
        msg.wf(),
    ensures
        r.is_empty(),
        old(store).wf() ==> final(store).wf(),
        is_current(final(store).contract_version),
        final(store).state == Some(initial_state(*sender, *msg)),
        final(store).owner == Some(*sender),
        final(store).parent_donation == match msg.parent {
            Some(p) => Some(
                ParentDonation {
                    address: p.addr,
                    donating_parent_period: p.donating_period,
                    part: p.part,
                },
            ),
            None => old(store).parent_donation,
        },
        final(store).counter == old(store).counter,
        final(store).minimal_donation == old(store).minimal_donation,
{
    store.contract_version = Some(current_version());
    let donating_parent = match &msg.parent {
        Some(p) => Some(p.donating_period),
        None => None,
    };
    store.state = Some(
        State {
            counter: 0,
            minimal_donation: msg.minimal_donation.duplicate(),
            owner: sender.clone(),
            donating_parent,
        },
    );
    store.owner = Some(sender.clone());
    if let Some(p) = &msg.parent {
        store.parent_donation = Some(
            ParentDonation {
                address: p.addr.clone(),
                donating_parent_period: p.donating_period,
                part: p.part,
            },
        );
    }
    Response::new()
}

/// The unified record that a legacy layout turns into: the parent countdown
/// is absent.
pub open spec fn unified(counter: u64, minimal_donation: Coin, owner: String) -> State {
    State { counter, minimal_donation, owner, donating_parent: None }
}

/// Rewrites the oldest layout, with separate `counter`, `minimal_donation`
/// and `owner` records, as one unified record.
pub fn migrate_0_1_0(store: &mut Store) -> (r: Result<Response, ContractError>)
    ensures
        match (old(store).counter, old(store).minimal_donation, old(store).owner) {
            (Some(c), Some(m), Some(o)) => {
                &&& r matches Ok(resp) && resp.is_empty()
                &&& *final(store) == (Store { state: Some(unified(c, m, o)), ..*old(store) })
            },
            (None, _, _) => is_not_found(r, "counter"@) && *final(store) == *old(store),
            (Some(_), None, _) => is_not_found(r, "minimal_donation"@) && *final(store)
                == *old(store),
            (Some(_), Some(_), None) => is_not_found(r, "owner"@) && *final(store) == *old(store),
        },
{
    let counter = match store.counter {
        Some(c) => c,
        None => return Err(not_found("counter")),
    };
    let minimal_donation = match &store.minimal_donation {
        Some(m) => m.duplicate(),
        None => return Err(not_found("minimal_donation")),
    };
    let owner = load_owner(store)?;
    store.state = Some(State { counter, minimal_donation, owner, donating_parent: None });
    Ok(Response::new())
}

/// Rewrites a unified record stored without the parent countdown, adding
/// the countdown as absent.
pub fn migrate_0_2_0(store: &mut Store) -> (r: Result<Response, ContractError>)
    ensures
        match old(store).state {
            Some(s) => {
                &&& r matches Ok(resp) && resp.is_empty()
                &&& *final(store) == (Store {
                    state: Some(unified(s.counter, s.minimal_donation, s.owner)),
                    ..*old(store)
                })
            },
            None => is_not_found(r, "state"@) && *final(store) == *old(store),
        },
{
    let (counter, minimal_donation, owner) = match &store.state {
        Some(s) => (s.counter, s.minimal_donation.duplicate(), s.owner.clone()),
        None => return Err(not_found("state")),
    };
    store.state = Some(State { counter, minimal_donation, owner, donating_parent: None });
    Ok(Response::new())
}

/// What `migrate` does to `before`, given its result `r` and the store `after`.
pub open spec fn migrate_post(before: Store, after: Store, r: Result<Response, ContractError>) -> bool {
    match before.contract_version {
        None => is_not_found(r, "contract_info"@) && after == before,
        Some(cv) => if cv.contract@ != CONTRACT_NAME@ {
            r == Err::<Response, ContractError>(
                ContractError::InvalidContract { contract: cv.contract },
            ) && after == before
        } else if cv.version@ == "0.1.0"@ {
            match (before.counter, before.minimal_donation, before.owner) {
                (Some(c), Some(m), Some(o)) => {
                    &&& r matches Ok(resp) && resp.is_empty()
                    &&& after.state == Some(unified(c, m, o))
                    &&& is_current(after.contract_version)
                    &&& after == (Store {
                        state: after.state,
                        contract_version: after.contract_version,
                        ..before
                    })
                },
                (None, _, _) => is_not_found(r, "counter"@) && after == before,
                (Some(_), None, _) => is_not_found(r, "minimal_donation"@) && after == before,
                (Some(_), Some(_), None) => is_not_found(r, "owner"@) && after == before,
            }
        } else if cv.version@ == "0.2.0"@ {
            match before.state {
                Some(s) => {
                    &&& r matches Ok(resp) && resp.is_empty()
                    &&& after.state == Some(unified(s.counter, s.minimal_donation, s.owner))
                    &&& is_current(after.contract_version)
                    &&& after == (Store {
                        state: after.state,
                        contract_version: after.contract_version,
                        ..before
                    })
                },
                None => is_not_found(r, "state"@) && after == before,
            }
        } else if cv.version@ == CONTRACT_VERSION@ {
            r matches Ok(resp) && resp.is_empty() && after == before
        } else {
            r == Err::<Response, ContractError>(
                ContractError::InvalidContractVersion { version: cv.version },
            ) && after == before
        },
    }
}

/// Brings a store written by an earlier version of this program to the
/// current layout, and records the current version.
pub fn migrate(store: &mut Store) -> (r: Result<Response, ContractError>)
    requires
        old(store).wf(),
    ensures
        migrate_post(*old(store), *final(store), r),
        final(store).wf(),
{
    let cv = match &store.contract_version {
        Some(cv) => ContractVersion { contract: cv.contract.clone(), version: cv.version.clone() },
        None => return Err(not_found("contract_info")),
    };
    if cv.contract != String::from_str(CONTRACT_NAME) {
        return Err(ContractError::InvalidContract { contract: cv.contract });
    }
    let resp = if cv.version == String::from_str("0.1.0") {
        migrate_0_1_0(store)?
    } else if cv.version == String::from_str("0.2.0") {
        migrate_0_2_0(store)?
    } else if cv.version == String::from_str(CONTRACT_VERSION) {
        return Ok(Response::new());
    } else {
        return Err(ContractError::InvalidContractVersion { version: cv.version });
    };
    store.contract_version = Some(current_version());
    Ok(resp)
}

/// The counter, read-only.
pub fn value(store: &Store) -> (r: Result<ValueResp, ContractError>)
    ensures
        match store.state {
            Some(s) => r == Ok::<ValueResp, ContractError>(ValueResp { value: s.counter }),
            None => is_not_found(r, "state"@),
        },
{
    match &store.state {
        Some(s) => Ok(ValueResp { value: s.counter }),
        None => Err(not_found("state")),
    }
}

} // verus!
