//! Text helpers: case folding and unsigned numerals.
use vstd::prelude::*;
use vstd::string::StringExecFns;

verus! {

/// What `str::to_lowercase` makes of a text.
pub uninterp spec fn lower_of(s: Seq<char>) -> Seq<char>;

/// Relies on `str::to_lowercase`: the result depends on the characters
/// alone, and an empty text stays empty.
#[verifier::external_body]
pub(crate) fn lowercase(s: &str) -> (r: String)
    ensures
        r@ == lower_of(s@),
        s@.len() == 0 ==> r@.len() == 0,
{
    s.to_lowercase()
}

/// `s` and `lit` hold the same characters.
pub(crate) fn text_is(s: &String, lit: &str) -> (r: bool)
    ensures
        r == (s@ == lit@),
{
    let other = String::from_str(lit);
    *s == other
}

/// The value of digit `c` in base `radix` (up to 36), if it is one.
pub open spec fn digit_value(c: char, radix: nat) -> Option<nat> {
    let u = c as u32 as nat;
    let v = if 48 <= u <= 57 {
        (u - 48) as nat
    } else if 97 <= u <= 122 {
        (u - 97 + 10) as nat
    } else if 65 <= u <= 90 {
        (u - 65 + 10) as nat
    } else {
        36
    };
    if v < radix {
        Some(v)
    } else {
        None
    }
}

/// Every character of `s` is a digit in base `radix`.
pub open spec fn all_digits(s: Seq<char>, radix: nat) -> bool {
    forall|i: int| 0 <= i < s.len() ==> (#[trigger] digit_value(s[i], radix)) is Some
}

/// The value of the digits `s` in base `radix`, most significant first.
pub open spec fn numeral_value(s: Seq<char>, radix: nat) -> nat
    decreases s.len(),
{
    if s.len() == 0 {
        0
    } else {
        numeral_value(s.drop_last(), radix) * radix + match digit_value(s.last(), radix) {
            Some(d) => d,
            None => 0,
        }
    }
}

/// An unsigned numeral as Rust's integer parsers read it: an optional `+`,
/// then at least one digit, with a value at most `max`.
pub open spec fn unsigned_numeral(s: Seq<char>, radix: nat, max: nat) -> Option<nat> {
    let body = if s.len() > 0 && s[0] == '+' {
        s.drop_first()
    } else {
        s
    };
    if body.len() > 0 && all_digits(body, radix) && numeral_value(body, radix) <= max {
        Some(numeral_value(body, radix))
    } else {
        None
    }
}

/// The error of std's integer parsers, carried through unopened.
#[verifier::external_type_specification]
#[verifier::external_body]
pub struct ExParseIntError(core::num::ParseIntError);

/// Relies on `str::parse::<u32>`: it accepts exactly an optional `+` and
/// decimal digits whose value fits.
#[verifier::external_body]
pub(crate) fn parse_u32(s: &str) -> (r: Result<u32, core::num::ParseIntError>)
    ensures
        match r {
            Ok(n) => unsigned_numeral(s@, 10, u32::MAX as nat) == Some(n as nat),
            Err(_) => unsigned_numeral(s@, 10, u32::MAX as nat) is None,
        },
{
    s.parse::<u32>()
}

/// Relies on `u128::from_str_radix` with radix 16: it accepts exactly an
/// optional `+` and hexadecimal digits of either case whose value fits.
#[verifier::external_body]
fn hex_u128(s: &str) -> (r: Result<u128, core::num::ParseIntError>)
    ensures
        match r {
            Ok(n) => unsigned_numeral(s@, 16, u128::MAX as nat) == Some(n as nat),
            Err(_) => unsigned_numeral(s@, 16, u128::MAX as nat) is None,
        },
{
    u128::from_str_radix(s, 16)
}

/// Reads a pulse length given in hexadecimal.
pub fn parse_encoded(src: &str) -> (r: Result<u128, core::num::ParseIntError>)
    ensures
        match r {
            Ok(n) => unsigned_numeral(src@, 16, u128::MAX as nat) == Some(n as nat),
            Err(_) => unsigned_numeral(src@, 16, u128::MAX as nat) is None,
        },
{
    hex_u128(src)
}

} // verus!
