//! Decimal rendering of integers, as the bot's messages print them.
use vstd::prelude::*;

verus! {

/// The decimal digit for `d` (meaningful for `d < 10`).
pub open spec fn digit_char(d: nat) -> char {
    seq!['0', '1', '2', '3', '4', '5', '6', '7', '8', '9'][d as int]
}

/// The decimal digits of `n`, most significant first, without leading zeros.
pub open spec fn decimal_digits(n: nat) -> Seq<char>
    decreases n,
{
    if n < 10 {
        seq![digit_char(n)]
    } else {
        decimal_digits(n / 10) + seq![digit_char(n % 10)]
    }
}

/// `i` written in decimal, with a leading minus sign when it is negative.
pub open spec fn decimal(i: int) -> Seq<char> {
    if i < 0 {
        seq!['-'] + decimal_digits((-i) as nat)
    } else {
        decimal_digits(i as nat)
    }
}

/// `<i128 as ToString>::to_string`: the `Display` of a primitive integer
/// writes its decimal representation, with a minus sign for negative values
/// and no leading zeros.
#[verifier::external_body]
pub(crate) fn decimal_string(x: i128) -> (res: String)
    ensures
        res@ == decimal(x as int),
{
    x.to_string()
}

} // verus!
