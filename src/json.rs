//! Pieces of JSON text: quoted strings and unsigned decimal numbers.

use crate::text::push_char;
use vstd::prelude::*;

verus! {

/// The JSON string literal that `serde_json` writes for a text: quotes
/// around it, with the characters that JSON requires escaped.
pub uninterp spec fn json_string_of(s: Seq<char>) -> Seq<char>;

/// Relies on `serde_json::to_string` applied to a `str`: it writes the
/// escaped string literal into a `Vec`, which cannot fail, so the `Err` arm
/// is never taken.
#[verifier::external_body]
pub(crate) fn quote_json(s: &str) -> (r: String)
    ensures
        r@ == json_string_of(s@),
{
    serde_json::to_string(s).unwrap_or_default()
}

/// The character of a decimal digit.
pub open spec fn digit_char(d: nat) -> char {
    (48 + d) as char
}

/// The decimal numeral of `n`, without sign or leading zeros.
pub open spec fn decimal(n: nat) -> Seq<char>
    decreases n,
{
    if n < 10 {
        seq![digit_char(n)]
    } else {
        decimal(n / 10).push(digit_char(n % 10))
    }
}

/// Appends the decimal numeral of `n`.
pub(crate) fn push_decimal(s: &mut String, n: u64)
    ensures
        final(s)@ == old(s)@ + decimal(n as nat),
    decreases n,
{
    if n >= 10 {
        push_decimal(s, n / 10);
    }
    let d: u8 = (n % 10) as u8;
    let c = (48u8 + d) as char;
    push_char(s, c);
    proof {
        if n < 10 {
            assert(old(s)@ + decimal(n as nat) =~= old(s)@.push(c));
        } else {
            assert(old(s)@ + decimal(n as nat) =~= (old(s)@ + decimal((n / 10) as nat)).push(c));
        }
    }
}

} // verus!
