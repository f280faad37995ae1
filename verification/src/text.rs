//! Numbers as text.

use vstd::prelude::*;
use vstd::string::*;

verus! {

/// The ten digits.
pub const DIGITS: &'static str = "0123456789";

/// A number in decimal digits, without leading zeros.
pub open spec fn decimal_text(n: nat) -> Seq<char>
    decreases n,
{
    if n < 10 {
        seq![DIGITS@[n as int]]
    } else {
        decimal_text(n / 10).push(DIGITS@[(n % 10) as int])
    }
}

/// Writes a number in decimal digits.
pub fn decimal(n: usize) -> (r: String)
    ensures
        r@ == decimal_text(n as nat),
    decreases n,
{
    proof {
        reveal_strlit("0123456789");
    }
    let d = n % 10;
    let piece = DIGITS.substring_char(d, d + 1);
    assert(piece@ =~= seq![DIGITS@[d as int]]);
    if n < 10 {
        String::from_str(piece)
    } else {
        let head = decimal(n / 10);
        let r = head.concat(piece);
        assert(r@ =~= decimal_text((n / 10) as nat).push(DIGITS@[d as int]));
        r
    }
}

/// An integer in decimal digits, with a minus sign in front where it is
/// negative.
pub open spec fn signed_decimal_text(i: int) -> Seq<char> {
    if i < 0 {
        seq!['-'] + decimal_text((-i) as nat)
    } else {
        decimal_text(i as nat)
    }
}

} // verus!
