//! Fresh secrets: API keys, client secrets, verification tokens and PKCE
//! verifiers, drawn from the thread's random generator; and the URL-safe
//! base64 text in which some of them travel.
use vstd::prelude::*;

use base64::engine::general_purpose::URL_SAFE_NO_PAD;
use base64::Engine;
use rand::Rng;
use vstd::string::StringSliceAdditionalSpecFns;

use crate::digest::{hex_lower, sha256_of};
use crate::text::push_char;

verus! {

broadcast use vstd::string::group_string_axioms;

/// `Rng::gen_range(0..bound)` on `rand::thread_rng()`: a number drawn at
/// random below `bound` (the range must not be empty: it panics on one).
#[verifier::external_body]
pub(crate) fn random_below(bound: usize) -> (r: usize)
    requires
        bound > 0,
    ensures
        r < bound,
{
    rand::thread_rng().gen_range(0..bound)
}

/// `Rng::fill` on `rand::thread_rng()`: 32 random bytes.
#[verifier::external_body]
fn random_bytes_32() -> (r: Vec<u8>)
    ensures
        r@.len() == 32,
{
    let mut b = [0u8; 32];
    rand::thread_rng().fill(&mut b);
    b.to_vec()
}

/// The URL-safe base64 text of `data`, without padding.
pub uninterp spec fn base64_url_of(data: Seq<u8>) -> Seq<char>;

/// The bytes whose URL-safe unpadded base64 text is `s`, if `s` is one.
pub uninterp spec fn base64_url_bytes(s: Seq<char>) -> Option<Seq<u8>>;

/// `URL_SAFE_NO_PAD.encode` (base64 crate): the URL-safe base64 text of
/// `data` without padding; the contract names the result, and states its
/// length (four characters per three bytes, two or three for a last group
/// of one or two, as `encoded_len` computes without padding) and that its
/// characters, from the URL-safe alphabet, are ASCII.
#[verifier::external_body]
pub(crate) fn base64_url_encode(data: &[u8]) -> (r: String)
    ensures
        r@ == base64_url_of(data@),
        r@.len() == (4 * data@.len() + 2) / 3,
        vstd::utf8::is_ascii_chars(r@),
{
    URL_SAFE_NO_PAD.encode(data)
}

/// `URL_SAFE_NO_PAD.decode` (base64 crate): the bytes that the URL-safe,
/// unpadded base64 text `s` stands for, or `None` when `s` is not such a
/// text; the contract names the result.
#[verifier::external_body]
pub(crate) fn base64_url_decode(s: &str) -> (r: Option<Vec<u8>>)
    ensures
        match r {
            Some(b) => base64_url_bytes(s@) == Some(b@),
            None => base64_url_bytes(s@) is None,
        },
{
    match URL_SAFE_NO_PAD.decode(s) {
        Ok(b) => Some(b),
        Err(_) => None,
    }
}

/// 32 random bytes in URL-safe unpadded base64: the random part of an API
/// key, and a PKCE code verifier.
pub fn random_token_b64() -> (r: String)
    ensures
        exists|b: Seq<u8>| b.len() == 32 && r@ == base64_url_of(b),
        r@.len() == 43,
        vstd::utf8::is_ascii_chars(r@),
{
    let b = random_bytes_32();
    base64_url_encode(b.as_slice())
}

/// 32 random bytes in lowercase hexadecimal: a secret or a verification token.
pub fn random_token_hex() -> (r: String)
    ensures
        exists|b: Seq<u8>| b.len() == 32 && r@ == hex_lower(b),
{
    let b = random_bytes_32();
    crate::digest::hex_text(b.as_slice())
}

/// The characters of generated alphanumeric secrets.
pub open spec fn is_alnum(c: char) -> bool {
    ||| 48 <= (c as int) <= 57
    ||| 65 <= (c as int) <= 90
    ||| 97 <= (c as int) <= 122
}

fn alnum_at(i: usize) -> (c: char)
    requires
        i < 62,
    ensures
        is_alnum(c),
{
    if i < 26 {
        (65u8 + i as u8) as char
    } else if i < 52 {
        (97u8 + (i - 26) as u8) as char
    } else {
        (48u8 + (i - 52) as u8) as char
    }
}

/// A secret of `len` characters drawn at random from `A-Z`, `a-z`, `0-9`.
pub fn random_alnum_secret(len: usize) -> (r: String)
    ensures
        r@.len() == len,
        forall|i: int| 0 <= i < len ==> is_alnum(#[trigger] r@[i]),
{
    let mut s = String::new();
    let mut i: usize = 0;
    while i < len
        invariant
            i <= len,
            s@.len() == i,
            forall|j: int| 0 <= j < i ==> is_alnum(#[trigger] s@[j]),
        decreases len - i,
    {
        let k = random_below(62);
        push_char(&mut s, alnum_at(k));
        i = i + 1;
    }
    s
}

/// The PKCE code challenge of a verifier: the URL-safe unpadded base64 of
/// the SHA-256 digest of its bytes (method `S256`).
pub fn pkce_challenge(verifier: &str) -> (r: String)
    ensures
        r@ == base64_url_of(sha256_of(verifier.spec_bytes())),
{
    let d = crate::digest::sha256_bytes(verifier.as_bytes());
    base64_url_encode(d.as_slice())
}

} // verus!
