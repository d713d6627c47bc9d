//! Request signatures of client apps: which requests are checked, where the
//! signature data is read from, and the freshness and replay checks.
use vstd::prelude::*;

use crate::error::AppError;
use crate::num::{parse_decimal, parse_i64};
use crate::text::{chars_eq, chars_of, concat_chars, has_prefix, starts_with, string_of};

verus! {

broadcast use vstd::string::group_string_axioms;

/// Seconds by which a signed request's timestamp may differ from the clock.
pub const MAX_CLOCK_SKEW_SECONDS: i64 = 60;

/// Seconds for which a used nonce is remembered.
pub const NONCE_TTL_SECONDS: u64 = 120;

/// The paths never asked for a signature: health, the key set, and the
/// email verification and Google sign-in flows.
pub open spec fn signature_exempt_path(path: Seq<char>) -> bool {
    ||| path == "/health"@
    ||| path == "/.well-known/jwks.json"@
    ||| has_prefix(path, "/auth/verify"@)
    ||| has_prefix(path, "/auth/google"@)
}

/// Whether `path` is never asked for a signature.
pub fn is_signature_exempt(path: &str) -> (b: bool)
    ensures
        b == signature_exempt_path(path@),
{
    let p = chars_of(path);
    chars_eq(&p, &chars_of("/health")) || chars_eq(&p, &chars_of("/.well-known/jwks.json"))
        || starts_with(&p, &chars_of("/auth/verify")) || starts_with(&p, &chars_of("/auth/google"))
}

/// `s` occurs in `t` as a contiguous part.
pub open spec fn contains_text(t: Seq<char>, s: Seq<char>) -> bool {
    exists|i: int| 0 <= i <= t.len() - s.len() && #[trigger] t.subrange(i, i + s.len()) == s
}

/// Whether `s` occurs in `t`.
pub fn text_contains(t: &str, s: &str) -> (b: bool)
    ensures
        b == contains_text(t@, s@),
{
    let tc = chars_of(t);
    let sc = chars_of(s);
    if sc.len() > tc.len() {
        return false;
    }
    let mut i: usize = 0;
    while i <= tc.len() - sc.len()
        invariant
            tc@ == t@,
            sc@ == s@,
            sc.len() <= tc.len(),
            i <= tc.len() - sc.len() + 1,
            forall|j: int| 0 <= j < i ==> #[trigger] t@.subrange(j, j + s@.len()) != s@,
        decreases tc.len() - sc.len() + 1 - i,
    {
        let mut k: usize = 0;
        let mut same = true;
        while k < sc.len()
            invariant
                tc@ == t@,
                sc@ == s@,
                i + sc.len() <= tc.len(),
                k <= sc.len(),
                same == (forall|m: int| 0 <= m < k ==> tc@[i + m] == sc@[m]),
            decreases sc.len() - k,
        {
            if tc[i + k] != sc[k] {
                same = false;
            }
            k = k + 1;
        }
        if same {
            assert(t@.subrange(i as int, i + s@.len()) =~= s@);
            return true;
        }
        assert(t@.subrange(i as int, i + s@.len())[0] == t@[i as int] || s@.len() == 0);
        proof {
            if s@.len() > 0 {
                let m = choose|m: int| 0 <= m < s@.len() && tc@[i + m] != sc@[m];
                assert(t@.subrange(i as int, i + s@.len())[m] != s@[m]);
            }
        }
        i = i + 1;
    }
    false
}

/// Whether a request must be checked: it is not exempt, and signatures are
/// required or the request carries one anyway (an `X-Signature` header, or
/// `signature=` in its query).
pub open spec fn signature_checked(
    path: Seq<char>,
    required: bool,
    has_header: bool,
    query: Option<Seq<char>>,
) -> bool {
    &&& !signature_exempt_path(path)
    &&& (required || has_header || (query matches Some(q) && contains_text(q, "signature="@)))
}

/// Whether a request's signature must be checked (see `signature_checked`).
pub fn must_check_signature(path: &str, required: bool, has_header: bool, query: Option<&str>) -> (b:
    bool)
    ensures
        b == signature_checked(
            path@,
            required,
            has_header,
            match query {
                Some(q) => Some(q@),
                None => None,
            },
        ),
{
    if is_signature_exempt(path) {
        return false;
    }
    if required || has_header {
        return true;
    }
    match query {
        Some(q) => text_contains(q, "signature="),
        None => false,
    }
}

/// A request header as received: absent, present but not text, or text.
#[derive(Clone, Debug, PartialEq, Eq)]
pub enum HeaderField {
    Absent,
    Opaque,
    Text(String),
}

/// The value of the header `name`, or the refusal.
pub fn header_text(field: &HeaderField, name: &str) -> (r: Result<String, AppError>)
    ensures
        match field {
            HeaderField::Absent => r matches Err(AppError::AuthError(m)) && m@ == "Missing header: "@
                + name@,
            HeaderField::Opaque => r matches Err(AppError::AuthError(m)) && m@
                == "Invalid header format: "@ + name@,
            HeaderField::Text(v) => r matches Ok(x) && x@ == v@,
        },
{
    match field {
        HeaderField::Absent => Err(
            AppError::AuthError(string_of(&concat_chars(&chars_of("Missing header: "), &chars_of(name)))),
        ),
        HeaderField::Opaque => Err(
            AppError::AuthError(
                string_of(&concat_chars(&chars_of("Invalid header format: "), &chars_of(name))),
            ),
        ),
        HeaderField::Text(v) => Ok(v.clone()),
    }
}

/// The signature data of a request: client id, timestamp text, nonce and
/// signature.
#[derive(Clone, Debug, PartialEq, Eq)]
pub struct SignatureData {
    pub client_id: String,
    pub timestamp: String,
    pub nonce: String,
    pub signature: String,
}

/// What a request carries of signature data: its four headers, and its
/// query's four parameters (`Err` when the query does not parse).
#[derive(Clone, Debug, PartialEq, Eq)]
pub struct SignatureSources {
    pub client_id_header: HeaderField,
    pub timestamp_header: HeaderField,
    pub nonce_header: HeaderField,
    pub signature_header: HeaderField,
    pub query: Option<Result<(Option<String>, Option<String>, Option<String>, Option<String>), ()>>,
}

/// The refusal of a required header, if it is absent or not text.
pub open spec fn header_refusal(field: HeaderField, name: Seq<char>) -> Option<Seq<char>> {
    match field {
        HeaderField::Absent => Some("Missing header: "@ + name),
        HeaderField::Opaque => Some("Invalid header format: "@ + name),
        HeaderField::Text(_) => None,
    }
}

/// The refusal of the signature headers: the first required header that is
/// absent or not text.
pub open spec fn headers_refusal(src: SignatureSources) -> Option<Seq<char>> {
    crate::config::either(
        header_refusal(src.client_id_header, "X-Client-ID"@),
        crate::config::either(
            header_refusal(src.timestamp_header, "X-Timestamp"@),
            crate::config::either(
                header_refusal(src.nonce_header, "X-Nonce"@),
                header_refusal(src.signature_header, "X-Signature"@),
            ),
        ),
    )
}

/// The text of a header known to be text.
pub open spec fn header_value(field: HeaderField) -> Seq<char> {
    match field {
        HeaderField::Text(v) => v@,
        _ => Seq::empty(),
    }
}

/// The signature data of a request: from the headers when it has an
/// `X-Signature` header (each of the four then required), else from a query
/// that has all four parameters.
pub fn extract_signature_data(src: &SignatureSources) -> (r: Result<SignatureData, AppError>)
    ensures
        !(src.signature_header is Absent) ==> match headers_refusal(*src) {
            Some(m) => r matches Err(AppError::AuthError(e)) && e@ == m,
            None => r matches Ok(d) && d.client_id@ == header_value(src.client_id_header)
                && d.timestamp@ == header_value(src.timestamp_header) && d.nonce@ == header_value(
                src.nonce_header,
            ) && d.signature@ == header_value(src.signature_header),
        },
        src.signature_header is Absent ==> match src.query {
            Some(Err(())) => r matches Err(AppError::AuthError(m)) && m@ == "Invalid query parameters"@,
            Some(Ok((Some(c), Some(t), Some(n), Some(s)))) => r matches Ok(d) && d.client_id@ == c@
                && d.timestamp@ == t@ && d.nonce@ == n@ && d.signature@ == s@,
            _ => r matches Err(AppError::AuthError(m)) && m@
                == "Missing signature data (headers or query params)"@,
        },
{
    match &src.signature_header {
        HeaderField::Absent => {},
        _ => {
            let client_id = match header_text(&src.client_id_header, "X-Client-ID") {
                Ok(v) => v,
                Err(e) => return Err(e),
            };
            let timestamp = match header_text(&src.timestamp_header, "X-Timestamp") {
                Ok(v) => v,
                Err(e) => return Err(e),
            };
            let nonce = match header_text(&src.nonce_header, "X-Nonce") {
                Ok(v) => v,
                Err(e) => return Err(e),
            };
            let signature = match header_text(&src.signature_header, "X-Signature") {
                Ok(v) => v,
                Err(e) => return Err(e),
            };
            return Ok(SignatureData { client_id, timestamp, nonce, signature });
        },
    }
    match &src.query {
        Some(Err(())) => Err(AppError::AuthError("Invalid query parameters".to_owned())),
        Some(Ok((Some(c), Some(t), Some(n), Some(s)))) => Ok(
            SignatureData {
                client_id: c.clone(),
                timestamp: t.clone(),
                nonce: n.clone(),
                signature: s.clone(),
            },
        ),
        _ => Err(AppError::AuthError("Missing signature data (headers or query params)".to_owned())),
    }
}

/// The timestamp of a signed request, which must be an `i64` within 60
/// seconds of `now` either way.
pub fn check_timestamp(timestamp: &str, now: i64) -> (r: Result<i64, AppError>)
    ensures
        match parse_decimal(timestamp@, true, i64::MIN as int, i64::MAX as int) {
            Err(_) => r matches Err(AppError::AuthError(m)) && m@ == "Invalid timestamp format"@,
            Ok(t) => if now - t > MAX_CLOCK_SKEW_SECONDS || t - now > MAX_CLOCK_SKEW_SECONDS {
                r matches Err(AppError::AuthError(m)) && m@ == "Request timestamp expired"@
            } else {
                r == Ok::<i64, AppError>(t as i64)
            },
        },
{
    let t = match parse_i64(timestamp) {
        Ok(t) => t,
        Err(_) => return Err(AppError::AuthError("Invalid timestamp format".to_owned())),
    };
    let d: i128 = (now as i128) - (t as i128);
    if d > 60 || d < -60 {
        return Err(AppError::AuthError("Request timestamp expired".to_owned()));
    }
    Ok(t)
}

/// The cache entry that marks a nonce used.
pub fn nonce_key(nonce: &str) -> (k: String)
    ensures
        k@ == "nonce:"@ + nonce@,
{
    string_of(&concat_chars(&chars_of("nonce:"), &chars_of(nonce)))
}

/// A nonce may be used once.
pub fn check_nonce_unused(seen: bool) -> (r: Result<(), AppError>)
    ensures
        r is Ok <==> !seen,
        r is Err ==> (r matches Err(AppError::AuthError(m)) && m@ == "Replay detected (nonce used)"@),
{
    if seen {
        return Err(AppError::AuthError("Replay detected (nonce used)".to_owned()));
    }
    Ok(())
}

/// The signing client must exist.
pub fn check_signing_client(found: bool) -> (r: Result<(), AppError>)
    ensures
        r is Ok <==> found,
        r is Err ==> (r matches Err(AppError::AuthError(m)) && m@ == "Invalid Client ID"@),
{
    if !found {
        return Err(AppError::AuthError("Invalid Client ID".to_owned()));
    }
    Ok(())
}

/// The signature must verify.
pub fn check_signature_valid(valid: bool) -> (r: Result<(), AppError>)
    ensures
        r is Ok <==> valid,
        r is Err ==> (r matches Err(AppError::AuthError(m)) && m@ == "Invalid signature"@),
{
    if !valid {
        return Err(AppError::AuthError("Invalid signature".to_owned()));
    }
    Ok(())
}

} // verus!
