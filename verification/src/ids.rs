//! Identifiers: UUIDs, held as `u128`, read from and written as their text,
//! and made at random (version 4).
use vstd::prelude::*;

use crate::digest::hex_digit;

verus! {

/// The `k`-th hexadecimal digit of `v`, the most significant first
/// (`k` below 32).
pub open spec fn uuid_digit(v: u128, k: int) -> int {
    ((v >> ((124 - 4 * k) as u128)) & 0xfu128) as int
}

/// Where the `i`-th character of a hyphenated UUID text takes its digit
/// from (for `i` off the hyphens).
pub open spec fn digit_at(i: int) -> int {
    if i < 8 {
        i
    } else if i < 13 {
        i - 1
    } else if i < 18 {
        i - 2
    } else if i < 23 {
        i - 3
    } else {
        i - 4
    }
}

/// The hyphenated lowercase text of the UUID `v`: its 32 hexadecimal
/// digits, most significant first, in groups of 8, 4, 4, 4 and 12.
pub open spec fn uuid_hyphenated(v: u128) -> Seq<char> {
    Seq::new(
        36,
        |i: int|
            if i == 8 || i == 13 || i == 18 || i == 23 {
                '-'
            } else {
                hex_digit(uuid_digit(v, digit_at(i)))
            },
    )
}

/// A random UUID: version 4 (its version digit is 4) of the RFC 4122
/// variant (the two high bits of its variant digit are `10`).
pub open spec fn is_random_uuid(v: u128) -> bool {
    &&& (v >> 76u128) & 0xfu128 == 4
    &&& (v >> 62u128) & 0x3u128 == 2
}

/// `Uuid::new_v4` and `Uuid::as_u128` (uuid crate): a UUID from the random
/// source of the operating system, with the version and variant bits set as
/// version 4 asks. Which UUID comes out is chance.
#[verifier::external_body]
fn random_uuid() -> (r: u128)
    ensures
        is_random_uuid(r),
{
    uuid::Uuid::new_v4().as_u128()
}

/// `Uuid::from_u128` and its `Display` (uuid crate): the hyphenated
/// lowercase text of `v`, its bytes taken most significant first.
#[verifier::external_body]
fn uuid_text(v: u128) -> (s: String)
    ensures
        s@ == uuid_hyphenated(v),
{
    uuid::Uuid::from_u128(v).to_string()
}

/// A new random identifier.
pub fn new_id() -> (r: u128)
    ensures
        is_random_uuid(r),
{
    random_uuid()
}

/// The text of the identifier `v`.
pub fn id_text(v: u128) -> (s: String)
    ensures
        s@ == uuid_hyphenated(v),
{
    uuid_text(v)
}

/// The text of a new random identifier: tokens, nonces and request ids are
/// made so.
pub fn new_id_text() -> (s: String)
    ensures
        exists|v: u128| is_random_uuid(v) && s@ == uuid_hyphenated(v),
{
    let v = random_uuid();
    uuid_text(v)
}

/// The id of a request: the one its caller sent, else a new one.
pub fn request_id(sent: Option<&str>) -> (r: String)
    ensures
        match sent {
            Some(h) => r@ == h@,
            None => exists|v: u128| is_random_uuid(v) && r@ == uuid_hyphenated(v),
        },
{
    match sent {
        Some(h) => h.to_owned(),
        None => new_id_text(),
    }
}

/// The UUID that the text `s` denotes, if it denotes one (in any of the
/// forms the uuid crate reads: simple, hyphenated, braced or URN).
pub uninterp spec fn uuid_value(s: Seq<char>) -> Option<u128>;

/// `Uuid::parse_str` (uuid crate) and `Uuid::as_u128`: the UUID that `s`
/// denotes, or `None`. The contract names the result.
#[verifier::external_body]
fn uuid_parse(s: &str) -> (r: Option<u128>)
    ensures
        r == uuid_value(s@),
{
    match uuid::Uuid::parse_str(s) {
        Ok(u) => Some(u.as_u128()),
        Err(_) => None,
    }
}

/// The UUID that `s` denotes, if any.
pub fn parse_id(s: &str) -> (r: Option<u128>)
    ensures
        r == uuid_value(s@),
{
    uuid_parse(s)
}

/// The UUID that the request field `s` holds, or the refusal `message` when
/// it holds none.
pub fn parse_id_field(s: &str, message: &str) -> (r: Result<u128, String>)
    ensures
        match uuid_value(s@) {
            Some(v) => r == Ok::<u128, String>(v),
            None => r matches Err(m) && m@ == message@,
        },
{
    match uuid_parse(s) {
        Some(v) => Ok(v),
        None => Err(message.to_owned()),
    }
}

} // verus!
