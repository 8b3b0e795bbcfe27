//! Reading the numeric options of the command line.
use std::num::ParseIntError;
use vstd::prelude::*;

verus! {

/// `std::num::ParseIntError`, carried through as an opaque value.
#[verifier::external_type_specification]
#[verifier::external_body]
pub struct ExParseIntError(ParseIntError);

/// Milliseconds between two attempts to find the device, unless told
/// otherwise.
pub const DEFAULT_DELAY_MS: u64 = 500;

/// Attempts to find the device, unless told otherwise.
pub const DEFAULT_RETRIES: usize = 60;

/// The value of `c` as a digit in `radix`: `0-9`, then `a-z` or `A-Z` for
/// ten and up, as far as the radix reaches.
pub open spec fn digit_value(c: char, radix: int) -> Option<int> {
    let v = if '0' <= c <= '9' {
        c as int - '0' as int
    } else if 'a' <= c <= 'z' {
        c as int - 'a' as int + 10
    } else if 'A' <= c <= 'Z' {
        c as int - 'A' as int + 10
    } else {
        radix
    };
    if v < radix {
        Some(v)
    } else {
        None
    }
}

/// The number a run of digits denotes in `radix`, if all are digits.
pub open spec fn digits_value(s: Seq<char>, radix: int) -> Option<int>
    decreases s.len(),
{
    if s.len() == 0 {
        Some(0)
    } else {
        match (digits_value(s.drop_last(), radix), digit_value(s.last(), radix)) {
            (Some(high), Some(low)) => Some(high * radix + low),
            _ => None,
        }
    }
}

/// The number a text denotes in `radix`: an optional `+`, then at least
/// one digit and nothing else.
pub open spec fn number_value(s: Seq<char>, radix: int) -> Option<int> {
    let digits = if s.len() > 0 && s[0] == '+' {
        s.skip(1)
    } else {
        s
    };
    if digits.len() == 0 {
        None
    } else {
        digits_value(digits, radix)
    }
}

/// The 16-bit number a text denotes in `radix`, if it denotes one.
pub open spec fn value_16(s: Seq<char>, radix: int) -> Option<u16> {
    match number_value(s, radix) {
        Some(n) => if n <= u16::MAX {
            Some(n as u16)
        } else {
            None
        },
        None => None,
    }
}

/// The 16-bit number an option denotes: hexadecimal after a leading `0x`,
/// decimal otherwise.
pub open spec fn hex_16_value(s: Seq<char>) -> Option<u16> {
    if seq!['0', 'x'].is_prefix_of(s) {
        value_16(s.skip(2), 16)
    } else {
        value_16(s, 10)
    }
}

/// Calls `str::strip_prefix` with a text as the pattern. Trusted: the
/// rest of the text comes back exactly when the text starts with the
/// prefix.
#[verifier::external_body]
fn strip_prefix<'a>(text: &'a str, prefix: &str) -> (r: Option<&'a str>)
    ensures
        match r {
            Some(rest) => text@ == prefix@ + rest@,
            None => !prefix@.is_prefix_of(text@),
        },
{
    text.strip_prefix(prefix)
}

/// Calls `u16::from_str_radix`. Trusted: it succeeds exactly on an
/// optional `+` followed by digits of the radix whose value fits 16 bits,
/// and returns that value.
#[verifier::external_body]
fn from_str_radix_16(text: &str, radix: u32) -> (r: Result<u16, ParseIntError>)
    requires
        2 <= radix <= 36,
    ensures
        match r {
            Ok(v) => value_16(text@, radix as int) == Some(v),
            Err(_) => value_16(text@, radix as int) is None,
        },
{
    u16::from_str_radix(text, radix)
}

/// Reads a 16-bit identifier: hexadecimal with a leading `0x`, decimal
/// without.
pub fn parse_hex_16(input: &str) -> (r: Result<u16, ParseIntError>)
    ensures
        match r {
            Ok(v) => hex_16_value(input@) == Some(v),
            Err(_) => hex_16_value(input@) is None,
        },
{
    proof {
        reveal_strlit("0x");
        assert("0x"@ =~= seq!['0', 'x']);
    }
    match strip_prefix(input, "0x") {
        None => from_str_radix_16(input, 10),
        Some(stripped) => {
            proof {
                assert(input@.skip(2) =~= stripped@);
                assert(seq!['0', 'x'].is_prefix_of(input@));
            }
            from_str_radix_16(stripped, 16)
        },
    }
}

} // verus!
