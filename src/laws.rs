use vstd::prelude::*;
use vstd::arithmetic::div_mod::{lemma_fundamental_div_mod, lemma_fundamental_div_mod_converse};
use crate::contract::{
    can_donate, cap_for, donate_post, is_current, meets_threshold, migrate_post, min_u128, next_countdown,
    withdrawal_post, withdrawn, CONTRACT_NAME, CONTRACT_VERSION,
};
use crate::error::ContractError;
use crate::msg::Coin;
use crate::response::Response;
use crate::state::{State, Store};

verus! {

/// A donation against a positive threshold that no attached coin reaches
/// leaves the store as it was and sends nothing.
pub proof fn lemma_unmet_threshold_is_noop(
    before: Store,
    sender: Seq<char>,
    funds: Seq<Coin>,
    balance: Seq<Coin>,
    after: Store,
    r: Result<Response, ContractError>,
)
    requires
        donate_post(before, sender, funds, balance, after, r),
        before.state matches Some(s) && s.minimal_donation.amount > 0 && forall|i: int|
            0 <= i < funds.len() ==> !(#[trigger] funds[i].denom@ == s.minimal_donation.denom@
                && funds[i].amount >= s.minimal_donation.amount),
    ensures
        after == before,
        r matches Ok(resp) && resp.messages@.len() == 0,
{
}

/// Without a threshold every donation counts, attached coins or not.
pub proof fn lemma_zero_threshold_counts(
    before: Store,
    sender: Seq<char>,
    funds: Seq<Coin>,
    balance: Seq<Coin>,
    after: Store,
    r: Result<Response, ContractError>,
)
    requires
        can_donate(before, funds),
        donate_post(before, sender, funds, balance, after, r),
        before.state matches Some(s) && s.minimal_donation.amount == 0 && (s.donating_parent
            is Some ==> before.parent_donation is Some),
    ensures
        r is Ok,
        after.state matches Some(t) && t.counter == before.state->Some_0.counter + 1,
{
}

spec fn counter_step(a: Store, b: Store) -> bool {
    a.state is Some ==> b.state is Some && a.state->Some_0.counter <= b.state->Some_0.counter
}

proof fn lemma_counter_step(
    before: Store,
    sender: Seq<char>,
    funds: Seq<Coin>,
    balance: Seq<Coin>,
    after: Store,
    r: Result<Response, ContractError>,
)
    requires
        can_donate(before, funds),
        donate_post(before, sender, funds, balance, after, r),
    ensures
        counter_step(before, after),
{
}

proof fn lemma_counter_chain(stores: Seq<Store>, i: int, j: int)
    requires
        0 <= i <= j < stores.len(),
        stores[i].state is Some,
        forall|k: int| 0 <= k < stores.len() - 1 ==> counter_step(#[trigger] stores[k], stores[k + 1]),
    ensures
        stores[j].state is Some,
        stores[i].state->Some_0.counter <= stores[j].state->Some_0.counter,
    decreases j - i,
{
    if i < j {
        assert(counter_step(stores[i], stores[i + 1]));
        lemma_counter_chain(stores, i + 1, j);
    }
}

/// The counter never goes down: over any run of donations, each store's
/// counter is at most that of every later store.
pub proof fn lemma_counter_monotone(
    stores: Seq<Store>,
    senders: Seq<Seq<char>>,
    funds: Seq<Seq<Coin>>,
    balances: Seq<Seq<Coin>>,
    results: Seq<Result<Response, ContractError>>,
)
    requires
        stores.len() == results.len() + 1,
        senders.len() == results.len(),
        funds.len() == results.len(),
        balances.len() == results.len(),
        stores[0].state is Some,
        forall|i: int|
            0 <= i < results.len() ==> can_donate(#[trigger] stores[i], funds[i]) && donate_post(
                stores[i],
                senders[i],
                funds[i],
                balances[i],
                stores[i + 1],
                results[i],
            ),
    ensures
        forall|i: int, j: int|
            0 <= i <= j < stores.len() ==> (#[trigger] stores[j]).state is Some && (
            #[trigger] stores[i]).state->Some_0.counter <= stores[j].state->Some_0.counter,
{
    assert forall|k: int| 0 <= k < stores.len() - 1 implies counter_step(
        #[trigger] stores[k],
        stores[k + 1],
    ) by {
        lemma_counter_step(stores[k], senders[k], funds[k], balances[k], stores[k + 1], results[k]);
    }
    assert forall|i: int, j: int| 0 <= i <= j < stores.len() implies (
    #[trigger] stores[j]).state is Some && (#[trigger] stores[i]).state->Some_0.counter
        <= stores[j].state->Some_0.counter by {
        lemma_counter_chain(stores, 0, i);
        lemma_counter_chain(stores, i, j);
    }
}

/// The countdown after `k` qualifying donations, starting from `n`.
pub open spec fn countdown_after(n: u64, period: u64, k: nat) -> u64
    decreases k,
{
    if k == 0 {
        n
    } else {
        next_countdown(countdown_after(n, period, (k - 1) as nat), period)
    }
}

/// How many of `k` qualifying donations, starting from countdown `n`, pay
/// the parent.
pub open spec fn payouts(n: u64, period: u64, k: nat) -> nat
    decreases k,
{
    if k == 0 {
        0
    } else {
        payouts(n, period, (k - 1) as nat) + if countdown_after(n, period, (k - 1) as nat) == 1 {
            1nat
        } else {
            0nat
        }
    }
}

/// From a fresh countdown at period `p`, the parent is paid on every `p`-th
/// qualifying donation and on no other: after `k` of them it has been paid
/// `k / p` times and the countdown stands at `p - k % p`.
pub proof fn lemma_forwarding_period(p: u64, k: nat)
    requires
        p > 0,
    ensures
        countdown_after(p, p, k) == p - k % (p as nat),
        payouts(p, p, k) == k / (p as nat),
    decreases k,
{
    let d = p as int;
    if k == 0 {
        lemma_fundamental_div_mod_converse(0, d, 0, 0);
    } else {
        let j = (k - 1) as nat;
        lemma_forwarding_period(p, j);
        lemma_fundamental_div_mod(j as int, d);
        let q = j as int / d;
        let m = j as int % d;
        assert(0 <= m < d) by {
            vstd::arithmetic::div_mod::lemma_mod_bound(j as int, d);
        }
        if m == d - 1 {
            assert(k as int == (q + 1) * d + 0) by (nonlinear_arith)
                requires
                    j as int == d * q + m,
                    m == d - 1,
                    k == j + 1,
            ;
            lemma_fundamental_div_mod_converse(k as int, d, q + 1, 0);
        } else {
            assert(k as int == q * d + (m + 1)) by (nonlinear_arith)
                requires
                    j as int == d * q + m,
                    k == j + 1,
            ;
            lemma_fundamental_div_mod_converse(k as int, d, q, m + 1);
        }
    }
}

/// A qualifying donation with the countdown at `n` and a parent record at
/// period `p` moves the countdown to `next_countdown(n, p)`, and sends one
/// forwarding instruction exactly when `n` is one.
pub proof fn lemma_qualifying_step(
    before: Store,
    sender: Seq<char>,
    funds: Seq<Coin>,
    balance: Seq<Coin>,
    after: Store,
    r: Result<Response, ContractError>,
    n: u64,
    p: u64,
)
    requires
        can_donate(before, funds),
        donate_post(before, sender, funds, balance, after, r),
        before.state matches Some(s) && s.donating_parent == Some(n) && meets_threshold(
            s.minimal_donation,
            funds,
        ),
        before.parent_donation matches Some(pd) && pd.donating_parent_period == p,
    ensures
        r matches Ok(resp) && resp.messages@.len() == (if n == 1 {
            1int
        } else {
            0int
        }),
        after.state matches Some(t) && t.counter == before.state->Some_0.counter + 1
            && t.donating_parent == Some(next_countdown(n, p)),
        after.parent_donation == before.parent_donation,
{
}

/// Whether `r` succeeded with an outgoing instruction.
pub open spec fn sends_message(r: Result<Response, ContractError>) -> bool {
    match r {
        Ok(resp) => resp.messages@.len() > 0,
        Err(_) => false,
    }
}

/// How many of the first `i` of `results` carry an outgoing instruction.
pub open spec fn sends(results: Seq<Result<Response, ContractError>>, i: nat) -> nat
    decreases i,
{
    if i == 0 {
        0
    } else {
        sends(results, (i - 1) as nat) + if sends_message(results[i - 1]) {
            1nat
        } else {
            0nat
        }
    }
}

/// How many of the first `i` donations of a run qualified, each judged
/// against the store it met.
pub open spec fn qualifying(stores: Seq<Store>, funds: Seq<Seq<Coin>>, i: nat) -> nat
    decreases i,
{
    if i == 0 {
        0
    } else {
        qualifying(stores, funds, (i - 1) as nat) + if meets_threshold(
            stores[i - 1].state->Some_0.minimal_donation,
            funds[i - 1],
        ) {
            1nat
        } else {
            0nat
        }
    }
}

/// A run of donations: `stores[i]` becomes `stores[i + 1]` by the `i`-th
/// call, starting from a fresh countdown at the parent's period `p`, as
/// `instantiate` leaves it.
pub open spec fn forwarding_run(
    stores: Seq<Store>,
    senders: Seq<Seq<char>>,
    funds: Seq<Seq<Coin>>,
    balances: Seq<Seq<Coin>>,
    results: Seq<Result<Response, ContractError>>,
    p: u64,
) -> bool {
    &&& stores.len() == results.len() + 1
    &&& senders.len() == results.len()
    &&& funds.len() == results.len()
    &&& balances.len() == results.len()
    &&& stores[0].wf()
    &&& stores[0].parent_donation matches Some(pd) && pd.donating_parent_period == p
    &&& stores[0].state matches Some(s) && s.donating_parent == Some(p)
    &&& forall|i: int|
        0 <= i < results.len() ==> can_donate(#[trigger] stores[i], funds[i]) && donate_post(
            stores[i],
            senders[i],
            funds[i],
            balances[i],
            stores[i + 1],
            results[i],
        )
}

proof fn lemma_run_prefix(
    stores: Seq<Store>,
    senders: Seq<Seq<char>>,
    funds: Seq<Seq<Coin>>,
    balances: Seq<Seq<Coin>>,
    results: Seq<Result<Response, ContractError>>,
    p: u64,
    i: nat,
)
    requires
        forwarding_run(stores, senders, funds, balances, results, p),
        i <= results.len(),
    ensures
        stores[i as int].parent_donation == stores[0].parent_donation,
        stores[i as int].state matches Some(t) && t.donating_parent == Some(
            countdown_after(p, p, qualifying(stores, funds, i)),
        ),
        sends(results, i) == payouts(p, p, qualifying(stores, funds, i)),
        i > 0 ==> results[i - 1] is Ok && (sends_message(results[i - 1]) <==> (meets_threshold(
            stores[i - 1].state->Some_0.minimal_donation,
            funds[i - 1],
        ) && countdown_after(p, p, qualifying(stores, funds, (i - 1) as nat)) == 1)),
    decreases i,
{
    if i > 0 {
        let j = (i - 1) as nat;
        lemma_run_prefix(stores, senders, funds, balances, results, p, j);
        assert(can_donate(stores[j as int], funds[j as int]));
        assert(donate_post(
            stores[j as int],
            senders[j as int],
            funds[j as int],
            balances[j as int],
            stores[i as int],
            results[j as int],
        ));
    }
}

/// Over any run of donations from a fresh countdown at period `p`, the
/// parent is paid on every `p`-th qualifying donation and on no other call:
/// after `q` qualifying donations the countdown stands at `p - q % p` and
/// `q / p` forwarding instructions have been sent.
pub proof fn lemma_forwarding_history(
    stores: Seq<Store>,
    senders: Seq<Seq<char>>,
    funds: Seq<Seq<Coin>>,
    balances: Seq<Seq<Coin>>,
    results: Seq<Result<Response, ContractError>>,
    p: u64,
)
    requires
        forwarding_run(stores, senders, funds, balances, results, p),
    ensures
        forall|i: nat|
            i <= results.len() ==> (#[trigger] stores[i as int]).state is Some && stores[i as int].state->Some_0.donating_parent
                == Some((p - qualifying(stores, funds, i) % (p as nat)) as u64)
                && sends(results, i) == qualifying(stores, funds, i) / (p as nat),
        forall|i: nat|
            i < results.len() ==> (#[trigger] results[i as int]) is Ok && (sends_message(
                results[i as int],
            ) <==> (meets_threshold(stores[i as int].state->Some_0.minimal_donation, funds[i as int])
                && qualifying(stores, funds, i + 1) % (p as nat) == 0)),
{
    assert(p > 0) by {
        assert(stores[0].parent_donation->Some_0.wf());
    }
    assert forall|i: nat| i <= results.len() implies (#[trigger] stores[i as int]).state is Some
        && stores[i as int].state->Some_0.donating_parent == Some(
        (p - qualifying(stores, funds, i) % (p as nat)) as u64,
    ) && sends(results, i) == qualifying(stores, funds, i) / (p as nat) by {
        lemma_run_prefix(stores, senders, funds, balances, results, p, i);
        lemma_forwarding_period(p, qualifying(stores, funds, i));
    }
    assert forall|i: nat| i < results.len() implies (#[trigger] results[i as int]) is Ok && (
    sends_message(results[i as int]) <==> (meets_threshold(
        stores[i as int].state->Some_0.minimal_donation,
        funds[i as int],
    ) && qualifying(stores, funds, i + 1) % (p as nat) == 0)) by {
        lemma_run_prefix(stores, senders, funds, balances, results, p, i + 1);
        let q = qualifying(stores, funds, i);
        lemma_forwarding_period(p, q);
        lemma_forwarding_period(p, q + 1);
        assert(countdown_after(p, p, q + 1) == next_countdown(countdown_after(p, p, q), p));
    }
}

/// Only the recorded owner may withdraw: any other caller gets
/// `Unauthorized` naming the owner.
pub proof fn lemma_withdraw_needs_owner(
    store: Store,
    sender: Seq<char>,
    to: Seq<char>,
    amount: Seq<Coin>,
    r: Result<Response, ContractError>,
)
    requires
        withdrawal_post(store, sender, to, amount, r),
        store.owner matches Some(o) && o@ != sender,
    ensures
        r == Err::<Response, ContractError>(
            ContractError::Unauthorized { owner: store.owner->Some_0 },
        ),
{
}

/// With no caps the whole balance goes; with one cap `{d, a}` each held coin
/// of `d` is clipped to `a` and every other denomination is sent as zero.
pub proof fn lemma_withdrawn_caps(balance: Seq<Coin>, cap: Coin)
    ensures
        withdrawn(balance, Seq::empty()) == balance,
        withdrawn(balance, seq![cap]).len() == balance.len(),
        forall|i: int|
            0 <= i < balance.len() ==> #[trigger] withdrawn(balance, seq![cap])[i] == (Coin {
                denom: balance[i].denom,
                amount: if balance[i].denom@ == cap.denom@ {
                    min_u128(balance[i].amount, cap.amount)
                } else {
                    0
                },
            }),
{
    assert forall|i: int| 0 <= i < balance.len() implies #[trigger] withdrawn(balance, seq![cap])[i]
        == (Coin {
        denom: balance[i].denom,
        amount: if balance[i].denom@ == cap.denom@ {
            min_u128(balance[i].amount, cap.amount)
        } else {
            0
        },
    }) by {
        assert(seq![cap].drop_first().len() == 0);
        assert(seq![cap][0] == cap);
        reveal_with_fuel(cap_for, 2);
    }
}

proof fn lemma_versions_distinct()
    ensures
        "0.1.0"@ != "0.2.0"@,
        CONTRACT_VERSION@ != "0.1.0"@,
        CONTRACT_VERSION@ != "0.2.0"@,
{
    reveal_strlit("0.1.0");
    reveal_strlit("0.2.0");
    reveal_strlit("0.3.0");
    assert(CONTRACT_VERSION@ == "0.3.0"@);
    assert("0.1.0"@[2] != "0.2.0"@[2]);
    assert("0.3.0"@[2] != "0.2.0"@[2]);
    assert("0.3.0"@[2] != "0.1.0"@[2]);
}

/// Migrating a store that is already at the current version answers with an
/// empty response and changes nothing.
pub proof fn lemma_migrate_current_is_noop(
    before: Store,
    after: Store,
    r: Result<Response, ContractError>,
)
    requires
        migrate_post(before, after, r),
        is_current(before.contract_version),
    ensures
        after == before,
        r matches Ok(resp) && resp.is_empty(),
{
    lemma_versions_distinct();
}

/// The two legacy layouts holding the same counter, threshold and owner
/// migrate to the same unified record, with no parent countdown.
pub proof fn lemma_legacy_layouts_agree(
    a: Store,
    a_after: Store,
    ra: Result<Response, ContractError>,
    b: Store,
    b_after: Store,
    rb: Result<Response, ContractError>,
    counter: u64,
    minimal_donation: Coin,
    owner: String,
)
    requires
        a.contract_version matches Some(v) && v.contract@ == CONTRACT_NAME@ && v.version@
            == "0.1.0"@,
        a.counter == Some(counter),
        a.minimal_donation == Some(minimal_donation),
        a.owner == Some(owner),
        b.contract_version matches Some(v) && v.contract@ == CONTRACT_NAME@ && v.version@
            == "0.2.0"@,
        b.state matches Some(s) && s.counter == counter && s.minimal_donation == minimal_donation
            && s.owner == owner,
        migrate_post(a, a_after, ra),
        migrate_post(b, b_after, rb),
    ensures
        ra is Ok && rb is Ok,
        a_after.state == b_after.state,
        a_after.state == Some(
            State { counter, minimal_donation, owner, donating_parent: None },
        ),
        is_current(a_after.contract_version) && is_current(b_after.contract_version),
{
    lemma_versions_distinct();
}

} // verus!
