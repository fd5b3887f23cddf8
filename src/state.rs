use vstd::prelude::*;
use crate::msg::{Coin, Fraction, FRACTION_ONE};

verus! {

/// The unified record kept under `state`.
#[derive(Clone, Debug, PartialEq, Eq)]
pub struct State {
    pub counter: u64,
    pub minimal_donation: Coin,
    pub owner: String,
    /// Donations left until the next forward to the parent; `None` without a parent.
    pub donating_parent: Option<u64>,
}

/// The record kept under `parent_donation`.
#[derive(Clone, Debug, PartialEq, Eq)]
pub struct ParentDonation {
    pub address: String,
    pub donating_parent_period: u64,
    pub part: Fraction,
}

impl ParentDonation {
    pub open spec fn wf(&self) -> bool {
        self.donating_parent_period > 0 && self.part.is_unit()
    }
}


/// Name and version of the program that last wrote the store.
#[derive(Clone, Debug, PartialEq, Eq)]
pub struct ContractVersion {
    pub contract: String,
    pub version: String,
}

/// The contract's persisted records, one field per key.
///
/// `counter` and `minimal_donation` belong to the oldest layout only; a
/// unified record written without `donating_parent` reads back with `None`.
#[derive(Clone, Debug, PartialEq, Eq)]
pub struct Store {
    pub contract_version: Option<ContractVersion>,
    pub state: Option<State>,
    pub counter: Option<u64>,
    pub minimal_donation: Option<Coin>,
    pub owner: Option<String>,
    pub parent_donation: Option<ParentDonation>,
}

impl Store {
    pub fn new() -> (r: Store)
        ensures
            r.contract_version.is_none(),
            r.state.is_none(),
            r.counter.is_none(),
            r.minimal_donation.is_none(),
            r.owner.is_none(),
            r.parent_donation.is_none(),
    {
        Store {
            contract_version: None,
            state: None,
            counter: None,
            minimal_donation: None,
            owner: None,
            parent_donation: None,
        }
    }

    /// Tests `wf`.
    pub fn is_well_formed(&self) -> (r: bool)
        ensures
            r == self.wf(),
    {
        let countdown_ok = match &self.state {
            Some(s) => match s.donating_parent {
                Some(n) => n > 0,
                None => true,
            },
            None => true,
        };
        let parent_ok = match &self.parent_donation {
            Some(p) => p.donating_parent_period > 0 && p.part.atomics <= FRACTION_ONE,
            None => true,
        };
        countdown_ok && parent_ok
    }

    /// A stored countdown is positive and a stored parent record is well formed.
    pub open spec fn wf(&self) -> bool {
        &&& (self.state matches Some(s) ==> (s.donating_parent matches Some(n) ==> n > 0))
        &&& (self.parent_donation matches Some(p) ==> p.wf())
    }
}

} // verus!
