use vstd::prelude::*;
use crate::contract::{can_donate, donate_post, migrate_post, withdrawal_post, withdrawn};
use crate::error::ContractError;
use crate::msg::{Coin, ExecMsg, InstantiateMsg, QueryMsg, ValueResp};
use crate::response::Response;
use crate::state::{ParentDonation, Store};

pub mod contract;
pub mod error;
pub mod laws;
pub mod math;
pub mod msg;
pub mod response;
pub mod state;

verus! {

/// Creates the contract: `sender` becomes its owner.
pub fn instantiate(store: &mut Store, sender: &String, msg: &InstantiateMsg) -> (r: Result<
    Response,
    ContractError,
>)
    requires
        msg.wf(),
    ensures
        r matches Ok(resp) && resp.is_empty(),
        old(store).wf() ==> final(store).wf(),
        contract::is_current(final(store).contract_version),
        final(store).state == Some(contract::initial_state(*sender, *msg)),
        final(store).owner == Some(*sender),
        final(store).counter == old(store).counter,
        final(store).minimal_donation == old(store).minimal_donation,
        msg.parent matches Some(p) ==> final(store).parent_donation == Some(
            ParentDonation {
                address: p.addr,
                donating_parent_period: p.donating_period,
                part: p.part,
            },
        ),
        msg.parent is None ==> final(store).parent_donation == old(store).parent_donation,
{
    Ok(contract::instantiate(store, sender, msg))
}

/// Runs one call of `sender`, who attached `funds`; `balance` is what the
/// contract holds with those funds credited.
pub fn execute(
    store: &mut Store,
    sender: &String,
    funds: &Vec<Coin>,
    balance: &Vec<Coin>,
    msg: ExecMsg,
) -> (r: Result<Response, ContractError>)
    requires
        msg is Donate ==> can_donate(*old(store), funds@),
    ensures
        match msg {
            ExecMsg::Donate {  } => donate_post(
                *old(store),
                sender@,
                funds@,
                balance@,
                *final(store),
                r,
            ),
            ExecMsg::Withdraw {  } => *final(store) == *old(store) && withdrawal_post(
                *old(store),
                sender@,
                sender@,
                balance@,
                r,
            ),
            ExecMsg::WithdrawTo { receiver, funds: caps } => *final(store) == *old(store)
                && withdrawal_post(*old(store), sender@, receiver@, withdrawn(balance@, caps@), r),
            ExecMsg::Reset { .. } => *final(store) == *old(store) && (r matches Ok(resp)
                && resp.is_empty()),
        },
{
    match msg {
        ExecMsg::Donate {  } => contract::donate(store, sender, funds, balance),
        ExecMsg::Withdraw {  } => contract::withdraw(store, sender, balance),
        ExecMsg::WithdrawTo { receiver, funds: caps } => contract::withdraw_to(
            store,
            sender,
            receiver,
            &caps,
            balance,
        ),
        ExecMsg::Reset { .. } => Ok(Response::new()),
    }
}

/// Upgrades the stored records to the current layout.
pub fn migrate(store: &mut Store) -> (r: Result<Response, ContractError>)
    requires
        old(store).wf(),
    ensures
        migrate_post(*old(store), *final(store), r),
        final(store).wf(),
{
    contract::migrate(store)
}

/// Answers a read-only query.
pub fn query(store: &Store, msg: QueryMsg) -> (r: Result<ValueResp, ContractError>)
    ensures
        match store.state {
            Some(s) => r == Ok::<ValueResp, ContractError>(ValueResp { value: s.counter }),
            None => contract::is_not_found(r, "state"@),
        },
{
    match msg {
        QueryMsg::Value {  } => contract::value(store),
    }
}

/// The sum of two sizes.
pub fn add(left: usize, right: usize) -> (r: usize)
    requires
        left + right <= usize::MAX,
    ensures
        r == left + right,
{
    left + right
}

} // verus!
