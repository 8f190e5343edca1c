//! Hex text: reading patterns and deployer addresses, writing results.

use vstd::prelude::*;
use crate::address::ADDRESS_LEN;
use crate::error::ConfigError;

verus! {

/// Whether `c` is a hex digit, in either case.
pub open spec fn is_hex_digit(c: char) -> bool {
    ('0' <= c && c <= '9') || ('a' <= c && c <= 'f') || ('A' <= c && c <= 'F')
}

/// The value of a hex digit.
pub open spec fn hex_digit_value(c: char) -> int {
    if '0' <= c && c <= '9' {
        c as int - '0' as int
    } else if 'a' <= c && c <= 'f' {
        c as int - 'a' as int + 10
    } else {
        c as int - 'A' as int + 10
    }
}

/// Whether `s` is an even number of hex digits and nothing else.
pub open spec fn is_hex_text(s: Seq<char>) -> bool {
    s.len() % 2 == 0 && forall|i: int| 0 <= i < s.len() ==> is_hex_digit(#[trigger] s[i])
}

/// The bytes that hex text stands for, two digits each, the high half first.
pub open spec fn hex_decoded(s: Seq<char>) -> Seq<u8> {
    Seq::new(s.len() / 2, |i: int| (16 * hex_digit_value(s[2 * i]) + hex_digit_value(s[2 * i + 1])) as u8)
}

/// The lower-case hex digit for a value below sixteen.
pub open spec fn hex_digit_char(v: u8) -> char {
    if v < 10 { (v + '0' as u8) as char } else { (v - 10 + 'a' as u8) as char }
}

/// Bytes written as lower-case hex, two digits each, the high half first.
pub open spec fn hex_encoded(b: Seq<u8>) -> Seq<char> {
    Seq::new(2 * b.len(), |i: int|
        if i % 2 == 0 { hex_digit_char(b[i / 2] / 16) } else { hex_digit_char(b[i / 2] % 16) })
}

/// Whether `c` is one of the blanks that address text may hold between digits.
pub open spec fn is_blank(c: char) -> bool {
    c == ' ' || c == '\r' || c == '\n' || c == '\t'
}

/// Address text without its optional `0x` and without blanks.
pub open spec fn address_digits(s: Seq<char>) -> Seq<char> {
    let body = if s.len() >= 2 && s[0] == '0' && s[1] == 'x' { s.subrange(2, s.len() as int) } else { s };
    body.filter(|c: char| !is_blank(c))
}

/// Whether `s` is an address: forty hex digits once the `0x` and the blanks are gone.
pub open spec fn is_address_text(s: Seq<char>) -> bool {
    address_digits(s).len() == 2 * ADDRESS_LEN && is_hex_text(address_digits(s))
}

/// Relies on `hex::decode`: `Ok` exactly on an even number of hex digits,
/// each pair giving one byte, the first digit the high half.
#[verifier::external_body]
fn decode_hex(s: &str) -> (r: Option<Vec<u8>>)
    ensures
        match r {
            Some(v) => is_hex_text(s@) && v@ == hex_decoded(s@),
            None => !is_hex_text(s@),
        },
{
    hex::decode(s).ok()
}

/// Relies on `hex::encode`: two lower-case hex digits for each byte.
#[verifier::external_body]
fn encode_hex(b: &[u8]) -> (r: String)
    ensures
        r@ == hex_encoded(b@),
{
    hex::encode(b)
}

/// Relies on `FromStr` of `ethers_core::types::Address` (`fixed_hash`): it
/// strips one leading `0x`, skips blanks, and reads exactly forty hex digits.
#[verifier::external_body]
fn decode_address(s: &str) -> (r: Option<[u8; 20]>)
    ensures
        match r {
            Some(a) => is_address_text(s@) && a@ == hex_decoded(address_digits(s@)),
            None => !is_address_text(s@),
        },
{
    match <ethers_core::types::Address as std::str::FromStr>::from_str(s) {
        Ok(a) => Some(a.to_fixed_bytes()),
        Err(_) => None,
    }
}

/// Reads a pattern written as hex digits.
pub fn parse_hex(s: &str) -> (r: Result<Vec<u8>, ConfigError>)
    ensures
        match r {
            Ok(v) => is_hex_text(s@) && v@ == hex_decoded(s@),
            Err(e) => !is_hex_text(s@) && e == ConfigError::MalformedPattern,
        },
{
    match decode_hex(s) {
        Some(v) => Ok(v),
        None => Err(ConfigError::MalformedPattern),
    }
}

/// Reads a deployer address written as forty hex digits, `0x` optional.
pub fn parse_deployer(s: &str) -> (r: Result<[u8; 20], ConfigError>)
    ensures
        match r {
            Ok(a) => is_address_text(s@) && a@ == hex_decoded(address_digits(s@)),
            Err(e) => !is_address_text(s@) && e == ConfigError::MalformedDeployer,
        },
{
    match decode_address(s) {
        Some(a) => Ok(a),
        None => Err(ConfigError::MalformedDeployer),
    }
}

/// Writes bytes as lower-case hex.
pub fn to_hex(b: &[u8]) -> (r: String)
    ensures
        r@ == hex_encoded(b@),
        r@.len() == 2 * b@.len(),
{
    encode_hex(b)
}

} // verus!
