//! Parsing of the blink-frequency argument: a decimal unsigned integer,
//! read by the `btoi` crate behind an exact contract.
use vstd::prelude::*;

verus! {

/// `c` is a decimal digit.
pub open spec fn is_dec_digit(c: char) -> bool {
    0x30 <= (c as u32) <= 0x39
}

/// Every character of `s` is a decimal digit.
pub open spec fn all_dec_digits(s: Seq<char>) -> bool {
    forall|i: int| 0 <= i < s.len() ==> is_dec_digit(#[trigger] s[i])
}

/// The value of `s` read as a decimal numeral, most significant digit
/// first; meaningful only when `all_dec_digits(s)`.
pub open spec fn dec_value(s: Seq<char>) -> int
    decreases s.len(),
{
    if s.len() == 0 {
        0
    } else {
        dec_value(s.drop_last()) * 10 + ((s.last() as u32) - 0x30)
    }
}

/// `c` is ASCII.
pub open spec fn is_ascii_char(c: char) -> bool {
    (c as u32) < 0x80
}

/// Every character of `s` is ASCII.
pub open spec fn all_ascii(s: Seq<char>) -> bool {
    forall|i: int| 0 <= i < s.len() ==> is_ascii_char(#[trigger] s[i])
}

/// What reading `s` as an unsigned decimal numeral returns: its value,
/// provided `s` is a non-empty run of digits whose value fits.
pub open spec fn spec_parse_unsigned(s: Seq<char>) -> Option<u32> {
    if s.len() > 0 && all_dec_digits(s) && dec_value(s) <= u32::MAX {
        Some(dec_value(s) as u32)
    } else {
        None
    }
}

/// What reading `s` as a `u32` returns: an optional sign followed by
/// digits. A `+` numeral carries its value; a `-` numeral is in range
/// for an unsigned integer only when its digits are all zero.
pub open spec fn spec_parse_u32(s: Seq<char>) -> Option<u32> {
    if s.len() == 0 {
        None
    } else if s[0] == '+' {
        spec_parse_unsigned(s.skip(1))
    } else if s[0] == '-' {
        if s.len() > 1 && all_dec_digits(s.skip(1)) && dec_value(s.skip(1)) == 0 {
            Some(0u32)
        } else {
            None
        }
    } else {
        spec_parse_unsigned(s)
    }
}

/// Relies on `btoi::btoi::<u32>`: an optional `+`/`-` sign followed by
/// decimal digits, accumulated with checked arithmetic; it errs on an
/// empty slice, a sign alone, any non-digit, a value above `u32::MAX`,
/// and any negative value other than zero.
#[verifier::external_body]
pub fn parse_u32(s: &Vec<char>) -> (r: Option<u32>)
    requires
        all_ascii(s@),
    ensures
        r == spec_parse_u32(s@),
{
    let bytes: Vec<u8> = s.iter().map(|c| *c as u8).collect();
    match btoi::btoi::<u32>(&bytes) {
        Ok(v) => Some(v),
        Err(_) => None,
    }
}

} // verus!
