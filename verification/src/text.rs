//! Decimal rendering of identifiers and the exact texts of the error
//! messages the service returns.

use vstd::prelude::*;
use vstd::string::StringExecFns;

verus! {

/// The character for one decimal digit.
pub open spec fn digit_char(d: u64) -> char
    recommends
        d < 10,
{
    if d == 0 {
        '0'
    } else if d == 1 {
        '1'
    } else if d == 2 {
        '2'
    } else if d == 3 {
        '3'
    } else if d == 4 {
        '4'
    } else if d == 5 {
        '5'
    } else if d == 6 {
        '6'
    } else if d == 7 {
        '7'
    } else if d == 8 {
        '8'
    } else {
        '9'
    }
}

/// The decimal digits of `n`, most significant first.
pub open spec fn dec_chars(n: u64) -> Seq<char>
    decreases n,
{
    if n < 10 {
        seq![digit_char(n)]
    } else {
        dec_chars(n / 10) + seq![digit_char(n % 10)]
    }
}

fn append_digit(s: &mut String, d: u64)
    requires
        d < 10,
    ensures
        final(s)@ == old(s)@ + seq![digit_char(d)],
{
    let t: &str = if d == 0 {
        "0"
    } else if d == 1 {
        "1"
    } else if d == 2 {
        "2"
    } else if d == 3 {
        "3"
    } else if d == 4 {
        "4"
    } else if d == 5 {
        "5"
    } else if d == 6 {
        "6"
    } else if d == 7 {
        "7"
    } else if d == 8 {
        "8"
    } else {
        "9"
    };
    proof {
        reveal_strlit("0");
        reveal_strlit("1");
        reveal_strlit("2");
        reveal_strlit("3");
        reveal_strlit("4");
        reveal_strlit("5");
        reveal_strlit("6");
        reveal_strlit("7");
        reveal_strlit("8");
        reveal_strlit("9");
        assert(t@ =~= seq![digit_char(d)]);
    }
    s.append(t);
}

/// Appends the decimal rendering of `n` to `s`.
pub fn append_u64(s: &mut String, n: u64)
    ensures
        final(s)@ == old(s)@ + dec_chars(n),
    decreases n,
{
    if n < 10 {
        append_digit(s, n);
    } else {
        append_u64(s, n / 10);
        append_digit(s, n % 10);
        assert(s@ =~= old(s)@ + dec_chars(n));
    }
}

/// Builds `prefix`, then the decimal rendering of `id`, then `suffix`.
pub fn message_with_id(prefix: &str, id: u64, suffix: &str) -> (m: String)
    ensures
        m@ == prefix@ + dec_chars(id) + suffix@,
{
    let mut m = String::from_str(prefix);
    append_u64(&mut m, id);
    m.append(suffix);
    proof {
        assert(m@ =~= prefix@ + dec_chars(id) + suffix@);
    }
    m
}

/// Message returned when no debt is stored under `id`.
pub open spec fn debt_not_found_msg(id: u64) -> Seq<char> {
    "a debt with id="@ + dec_chars(id) + " not found"@
}

/// Message returned when no escrow is stored under `debt_id`.
pub open spec fn escrow_not_found_msg(debt_id: u64) -> Seq<char> {
    "escrow for debt_id="@ + dec_chars(debt_id) + " not found"@
}

/// Message returned when no crop insurance policy is stored under `id`.
pub open spec fn insurance_not_found_msg(id: u64) -> Seq<char> {
    "crop insurance with id="@ + dec_chars(id) + " not found"@
}

/// Message returned when no insurance claim is stored under `claim_id`.
pub open spec fn claim_not_found_msg(claim_id: u64) -> Seq<char> {
    "insurance claim with id="@ + dec_chars(claim_id) + " not found"@
}

/// Message returned when a debt update names an absent debt.
pub open spec fn update_debt_not_found_msg(id: u64) -> Seq<char> {
    "couldn't update a debt with id="@ + dec_chars(id) + ". debt not found"@
}

/// Message returned when an escrow names an absent debt.
pub open spec fn escrow_debt_not_found_msg(debt_id: u64) -> Seq<char> {
    "couldn't create escrow for debt_id="@ + dec_chars(debt_id) + ". debt not found"@
}

/// Message returned when a claim names an absent policy.
pub open spec fn claim_insurance_not_found_msg(insurance_id: u64) -> Seq<char> {
    "couldn't submit a claim for crop insurance with id="@ + dec_chars(insurance_id)
        + ". insurance not found"@
}

/// Message returned when a debt payload fails validation on update.
pub open spec fn invalid_input_msg() -> Seq<char> {
    "Invalid input data"@
}

/// Message returned when an escrow amount is zero.
pub open spec fn invalid_escrow_amount_msg() -> Seq<char> {
    "Invalid escrow amount"@
}

} // verus!
