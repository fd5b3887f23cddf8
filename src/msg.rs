use vstd::prelude::*;

verus! {

/// Fixed-point scale of a `Fraction`: this many atomics make one whole.
pub const FRACTION_ONE: u128 = 1_000_000_000_000_000_000;

/// An amount of a single denomination.
#[derive(Clone, Debug, PartialEq, Eq)]
pub struct Coin {
    pub denom: String,
    pub amount: u128,
}

impl Coin {
    pub fn new(amount: u128, denom: &str) -> (r: Coin)
        ensures
            r.denom@ == denom@,
            r.amount == amount,
    {
        Coin { denom: String::from_str(denom), amount }
    }

    /// A field-by-field copy.
    pub fn duplicate(&self) -> (r: Coin)
        ensures
            r == *self,
    {
        Coin { denom: self.denom.clone(), amount: self.amount }
    }
}

/// Copies a list of coins, keeping their order.
pub fn duplicate_coins(coins: &Vec<Coin>) -> (r: Vec<Coin>)
    ensures
        r@ == coins@,
{
    let mut r: Vec<Coin> = Vec::new();
    let mut i: usize = 0;
    while i < coins.len()
        invariant
            i <= coins@.len(),
            r@ == coins@.subrange(0, i as int),
        decreases coins@.len() - i,
    {
        r.push(coins[i].duplicate());
        i = i + 1;
    }
    assert(r@ =~= coins@);
    r
}

/// An exact fraction in fixed point: `atomics / FRACTION_ONE`.
#[derive(Clone, Copy, Debug, PartialEq, Eq)]
pub struct Fraction {
    pub atomics: u128,
}

impl Fraction {
    /// `p` percent.
    pub fn percent(p: u64) -> (r: Fraction)
        ensures
            r.atomics == p as int * 10_000_000_000_000_000,
    {
        assert(p as int * 10_000_000_000_000_000 <= u128::MAX) by (nonlinear_arith)
            requires
                p <= u64::MAX,
        ;
        Fraction { atomics: (p as u128) * 10_000_000_000_000_000 }
    }

    /// Whether the value lies in `[0, 1]`.
    pub open spec fn is_unit(&self) -> bool {
        self.atomics <= FRACTION_ONE
    }
}

/// Configuration of the parent that receives a share of the balance.
#[derive(Clone, Debug, PartialEq, Eq)]
pub struct Parent {
    pub addr: String,
    pub donating_period: u64,
    pub part: Fraction,
}

impl Parent {
    pub open spec fn wf(&self) -> bool {
        self.donating_period > 0 && self.part.is_unit()
    }
}

#[derive(Clone, Debug, PartialEq, Eq)]
pub struct InstantiateMsg {
    pub counter: u64,
    pub minimal_donation: Coin,
    pub parent: Option<Parent>,
}

impl InstantiateMsg {
    pub open spec fn wf(&self) -> bool {
        self.parent matches Some(p) ==> p.wf()
    }
}

#[derive(Clone, Copy, Debug, PartialEq, Eq)]
pub enum QueryMsg {
    Value {},
}

#[derive(Clone, Copy, Debug, PartialEq, Eq, Structural)]
pub struct ValueResp {
    pub value: u64,
}

#[derive(Clone, Debug, PartialEq, Eq)]
pub enum ExecMsg {
    Donate {},
    Withdraw {},
    WithdrawTo { receiver: String, funds: Vec<Coin> },
    Reset { counter: u64 },
}

} // verus!
