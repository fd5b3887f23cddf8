use vstd::prelude::*;
use crate::msg::{Fraction, FRACTION_ONE};

verus! {

/// The character of a decimal digit `d < 10`.
pub open spec fn digit_char(d: nat) -> char {
    seq!['0', '1', '2', '3', '4', '5', '6', '7', '8', '9'][d as int]
}

/// The decimal representation of `n`, most significant digit first, with no
/// sign and no leading zeros.
pub open spec fn decimal_digits(n: nat) -> Seq<char>
    decreases n,
{
    if n < 10 {
        seq![digit_char(n)]
    } else {
        decimal_digits(n / 10) + seq![digit_char(n % 10)]
    }
}

/// `amount * part`, rounded toward zero.
pub open spec fn mul_floor(amount: u128, part: Fraction) -> int {
    amount as int * part.atomics as int / FRACTION_ONE as int
}

/// The one-character string of a decimal digit.
fn digit_str(d: u64) -> (r: &'static str)
    requires
        d < 10,
    ensures
        r@ == seq![digit_char(d as nat)],
{
    if d == 0 {
        proof { reveal_strlit("0"); }
        "0"
    } else if d == 1 {
        proof { reveal_strlit("1"); }
        "1"
    } else if d == 2 {
        proof { reveal_strlit("2"); }
        "2"
    } else if d == 3 {
        proof { reveal_strlit("3"); }
        "3"
    } else if d == 4 {
        proof { reveal_strlit("4"); }
        "4"
    } else if d == 5 {
        proof { reveal_strlit("5"); }
        "5"
    } else if d == 6 {
        proof { reveal_strlit("6"); }
        "6"
    } else if d == 7 {
        proof { reveal_strlit("7"); }
        "7"
    } else if d == 8 {
        proof { reveal_strlit("8"); }
        "8"
    } else {
        proof { reveal_strlit("9"); }
        "9"
    }
}

/// The decimal digits of `n`.
pub fn u64_to_string(n: u64) -> (r: String)
    ensures
        r@ == decimal_digits(n as nat),
    decreases n,
{
    if n < 10 {
        String::from_str(digit_str(n))
    } else {
        let mut s = u64_to_string(n / 10);
        s.append(digit_str(n % 10));
        s
    }
}

/// Relies on cosmwasm_std's `Uint128 * Decimal`, which multiplies through a
/// 256-bit intermediate and floors the quotient by the decimal's scale; it
/// panics only when the floored result exceeds `u128`.
#[verifier::external_body]
pub(crate) fn mul_fraction(amount: u128, part: Fraction) -> (r: u128)
    requires
        mul_floor(amount, part) <= u128::MAX,
    ensures
        r == mul_floor(amount, part),
{
    (cosmwasm_std::Uint128::new(amount) * cosmwasm_std::Decimal::raw(part.atomics)).u128()
}

/// A fraction of at most one never enlarges an amount.
pub proof fn lemma_mul_unit_le(amount: u128, part: Fraction)
    requires
        part.is_unit(),
    ensures
        0 <= mul_floor(amount, part) <= amount,
{
    let a = amount as int;
    let p = part.atomics as int;
    let one = FRACTION_ONE as int;
    assert(a * p <= a * one) by (nonlinear_arith)
        requires
            0 <= a,
            0 <= p <= one,
    ;
    assert(0 <= a * p / one <= a) by (nonlinear_arith)
        requires
            0 <= a * p <= a * one,
            one > 0,
            0 <= a,
    ;
}

} // verus!
