//! Decimal rendering of numbers.

use vstd::prelude::*;
use crate::versions::field_number;

verus! {

/// The decimal digit for `d`.
pub open spec fn digit_char(d: nat) -> char {
    if d == 0 { '0' }
    else if d == 1 { '1' }
    else if d == 2 { '2' }
    else if d == 3 { '3' }
    else if d == 4 { '4' }
    else if d == 5 { '5' }
    else if d == 6 { '6' }
    else if d == 7 { '7' }
    else if d == 8 { '8' }
    else { '9' }
}

/// The decimal representation of `n`, without leading zeros.
pub open spec fn decimal(n: nat) -> Seq<char>
    decreases n,
{
    if n < 10 {
        seq![digit_char(n)]
    } else {
        decimal(n / 10).push(digit_char(n % 10))
    }
}

fn digit(d: u64) -> (c: char)
    requires
        d < 10,
    ensures
        c == digit_char(d as nat),
{
    if d == 0 { '0' }
    else if d == 1 { '1' }
    else if d == 2 { '2' }
    else if d == 3 { '3' }
    else if d == 4 { '4' }
    else if d == 5 { '5' }
    else if d == 6 { '6' }
    else if d == 7 { '7' }
    else if d == 8 { '8' }
    else { '9' }
}

/// Appends the decimal representation of `n` to `out`.
pub fn push_decimal(out: &mut Vec<char>, n: u64)
    ensures
        final(out)@ == old(out)@ + decimal(n as nat),
    decreases n,
{
    if n >= 10 {
        push_decimal(out, n / 10);
    }
    out.push(digit(n % 10));
    proof {
        if n >= 10 {
            assert(old(out)@ + decimal(n as nat) =~= old(out)@ + decimal((n / 10) as nat) + seq![
                digit_char((n % 10) as nat),
            ]);
        }
    }
}

/// The number `text` writes as a `u64`: an optional `+`, then one or more ASCII digits, denoting
/// a value in the range of `u64`; `None` for any other text.
pub open spec fn decimal_u64(text: Seq<char>) -> Option<u64> {
    if text.len() > 0 && text[0] == '+' {
        field_number(text.skip(1))
    } else {
        field_number(text)
    }
}

/// The error `str::parse::<u64>` renders for `text` that is not a decimal `u64`.
pub uninterp spec fn u64_error(text: Seq<char>) -> Seq<char>;

/// Parses a decimal `u64` (`str::parse::<u64>`), rendering the error with `Display`. The call
/// succeeds exactly on an optional `+` followed by digits denoting a `u64`, with that number; the
/// text of the error is left to the name `u64_error`.
#[verifier::external_body]
pub(crate) fn parse_u64(text: &str) -> (r: Result<u64, String>)
    ensures
        r is Ok <==> decimal_u64(text@) is Some,
        r matches Ok(n) ==> decimal_u64(text@) == Some(n),
        r matches Err(e) ==> e@ == u64_error(text@),
{
    text.parse::<u64>().map_err(|error| error.to_string())
}

} // verus!
