//! Service accounts: API keys, their check on each request, and rotation
//! with a grace period for the previous key.
//!
//! An API key is `svc_live_` (production) or `svc_test_` followed by 32
//! random bytes in URL-safe base64. The store keeps the key's Argon2 hash,
//! and its SHA-256 digest (lowercase hexadecimal) by which the account is
//! looked up; after a rotation the previous key is accepted until its expiry.
use vstd::prelude::*;

use vstd::string::StringSliceAdditionalSpecFns;

use crate::config::Environment;
use crate::digest::{hex_lower, sha256_hex, sha256_of};
use crate::error::AppError;
use crate::password::{accepts, hash_password, password_matches};
use crate::secrets::{base64_url_of, random_token_b64};
use crate::tenant::ServiceContext;
use crate::text::{chars_of, concat_chars, has_prefix, starts_with, string_of};

verus! {

broadcast use vstd::string::group_string_axioms;

/// Seconds for which a rotated-out key stays valid (7 days).
pub const KEY_GRACE_SECONDS: i64 = 604800;

/// Seconds for which a successful check is cached (5 minutes).
pub const AUTH_CACHE_TTL_SECONDS: u64 = 300;

/// A service account as stored. Times are seconds since the Unix epoch.
#[derive(Clone, Debug, PartialEq, Eq)]
pub struct ServiceAccount {
    pub service_id: String,
    pub service_name: String,
    pub api_key_hash: String,
    pub api_key_lookup_hash: String,
    pub previous_api_key_hash: Option<String>,
    pub previous_api_key_lookup_hash: Option<String>,
    pub previous_key_expiry: Option<i64>,
    pub enabled: bool,
    pub scopes: Vec<String>,
}

/// The prefix of the API keys issued in `env`.
pub open spec fn key_prefix(env: Environment) -> Seq<char> {
    match env {
        Environment::Prod => "svc_live_"@,
        Environment::Dev => "svc_test_"@,
    }
}

/// The prefix of the API keys issued in `env`.
pub fn api_key_prefix(env: Environment) -> (s: String)
    ensures
        s@ == key_prefix(env),
{
    match env {
        Environment::Prod => "svc_live_".to_owned(),
        Environment::Dev => "svc_test_".to_owned(),
    }
}

/// A fresh API key for `env`: its prefix and 32 random bytes in URL-safe
/// base64.
pub fn generate_api_key(env: Environment) -> (k: String)
    ensures
        exists|b: Seq<u8>| b.len() == 32 && k@ == key_prefix(env) + base64_url_of(b),
        k@.len() == 52,
        vstd::utf8::is_ascii_chars(k@),
{
    let p = chars_of(api_key_prefix(env).as_str());
    let r = random_token_b64();
    proof {
        reveal_strlit("svc_live_");
        reveal_strlit("svc_test_");
    }
    let k = concat_chars(&p, &chars_of(r.as_str()));
    assert(vstd::utf8::is_ascii_chars(k@)) by {
        assert forall|i: int| 0 <= i < k@.len() implies '\0' <= #[trigger] k@[i] <= '\u{7f}' by {
            if i < 9 {
                assert(k@[i] == p@[i]);
            } else {
                assert(k@[i] == r@[i - 9]);
            }
        }
    }
    string_of(&k)
}

/// The digest by which the account of `key` is looked up.
pub open spec fn lookup_digest(key: &str) -> Seq<char> {
    hex_lower(sha256_of(key.spec_bytes()))
}

/// The digest by which the account of `key` is looked up: SHA-256 of its
/// bytes, in lowercase hexadecimal.
pub fn api_key_lookup_hash(key: &str) -> (h: String)
    ensures
        h@ == lookup_digest(key),
{
    sha256_hex(key)
}

/// The cache entry of a checked key, by its lookup digest.
pub fn service_cache_key(lookup_hash: &str) -> (k: String)
    ensures
        k@ == "svc_auth:"@ + lookup_hash@,
{
    string_of(&concat_chars(&chars_of("svc_auth:"), &chars_of(lookup_hash)))
}

/// Why a request is refused service authentication.
#[derive(Clone, Copy, Debug, PartialEq, Eq, Structural)]
pub enum ServiceAuthFailure {
    /// No `Authorization: Bearer` header.
    MissingHeader,
    /// The key has neither production nor test prefix.
    BadFormat,
    /// No account has the key, current or previous.
    UnknownKey,
    /// The account is disabled.
    Disabled,
    /// The key matches neither the current hash nor a previous hash in grace.
    WrongKey,
}

/// The message of each refusal.
pub open spec fn failure_message(f: ServiceAuthFailure) -> Seq<char> {
    match f {
        ServiceAuthFailure::MissingHeader => "Missing or invalid Authorization header"@,
        ServiceAuthFailure::BadFormat => "Invalid API key format"@,
        ServiceAuthFailure::UnknownKey => "Invalid API key"@,
        ServiceAuthFailure::Disabled => "Service account is disabled"@,
        ServiceAuthFailure::WrongKey => "Invalid API key"@,
    }
}

/// The detail recorded in the audit log for each refusal (a key of the
/// wrong format is refused without an audit entry).
pub open spec fn failure_audit_text(f: ServiceAuthFailure) -> Option<Seq<char>> {
    match f {
        ServiceAuthFailure::MissingHeader => Some("Missing Authorization header"@),
        ServiceAuthFailure::BadFormat => None,
        ServiceAuthFailure::UnknownKey => Some("Invalid API key (no account found)"@),
        ServiceAuthFailure::Disabled => Some("Service account disabled"@),
        ServiceAuthFailure::WrongKey => Some("Invalid API key (password verification failed)"@),
    }
}

impl ServiceAuthFailure {
    /// The error that answers the refusal: 403 for a disabled account, 401
    /// otherwise.
    pub fn to_error(&self) -> (e: AppError)
        ensures
            *self == ServiceAuthFailure::Disabled ==> (e matches AppError::Forbidden(m) && m@
                == failure_message(*self)),
            *self != ServiceAuthFailure::Disabled ==> (e matches AppError::AuthError(m) && m@
                == failure_message(*self)),
    {
        match self {
            ServiceAuthFailure::MissingHeader => AppError::AuthError(
                "Missing or invalid Authorization header".to_owned(),
            ),
            ServiceAuthFailure::BadFormat => AppError::AuthError("Invalid API key format".to_owned()),
            ServiceAuthFailure::UnknownKey => AppError::AuthError("Invalid API key".to_owned()),
            ServiceAuthFailure::Disabled => AppError::Forbidden("Service account is disabled".to_owned()),
            ServiceAuthFailure::WrongKey => AppError::AuthError("Invalid API key".to_owned()),
        }
    }

    /// The detail of the audit entry for the refusal, if one is written.
    pub fn audit_details(&self) -> (d: Option<String>)
        ensures
            match failure_audit_text(*self) {
                Some(t) => d matches Some(x) && x@ == t,
                None => d is None,
            },
    {
        match self {
            ServiceAuthFailure::MissingHeader => Some("Missing Authorization header".to_owned()),
            ServiceAuthFailure::BadFormat => None,
            ServiceAuthFailure::UnknownKey => Some("Invalid API key (no account found)".to_owned()),
            ServiceAuthFailure::Disabled => Some("Service account disabled".to_owned()),
            ServiceAuthFailure::WrongKey => Some(
                "Invalid API key (password verification failed)".to_owned(),
            ),
        }
    }

    /// The HTTP status recorded with the audit entry.
    pub fn audit_status(&self) -> (c: u16)
        ensures
            c == (if *self == ServiceAuthFailure::Disabled {
                403u16
            } else {
                401u16
            }),
    {
        match self {
            ServiceAuthFailure::Disabled => 403,
            _ => 401,
        }
    }
}

/// The key that an `Authorization` header value carries: what follows
/// `Bearer `, if the value starts with it.
pub open spec fn bearer_of(header: Seq<char>) -> Option<Seq<char>> {
    if has_prefix(header, "Bearer "@) {
        Some(header.subrange(7, header.len() as int))
    } else {
        None
    }
}

/// The credential of a `Bearer` authorization header.
pub fn bearer_token(header: &str) -> (r: Option<String>)
    ensures
        match bearer_of(header@) {
            Some(k) => r matches Some(x) && x@ == k,
            None => r is None,
        },
{
    let h = chars_of(header);
    let p = chars_of("Bearer ");
    proof {
        reveal_strlit("Bearer ");
    }
    if !starts_with(&h, &p) {
        return None;
    }
    let mut rest: Vec<char> = Vec::new();
    let mut i: usize = 7;
    while i < h.len()
        invariant
            7 <= i <= h.len(),
            rest@ == h@.subrange(7, i as int),
        decreases h.len() - i,
    {
        rest.push(h[i]);
        i = i + 1;
        assert(rest@ =~= h@.subrange(7, i as int));
    }
    Some(string_of(&rest))
}

/// `key` has the format of an API key: it starts with a production or a
/// test prefix.
pub open spec fn key_format_ok(key: Seq<char>) -> bool {
    has_prefix(key, "svc_live_"@) || has_prefix(key, "svc_test_"@)
}

/// The API key of a request, from its `Authorization` header (if any): a
/// missing header, one that is not `Bearer`, or a key of the wrong format is
/// refused.
pub fn request_api_key(header: Option<&str>) -> (r: Result<String, ServiceAuthFailure>)
    ensures
        match header {
            None => r == Err::<String, ServiceAuthFailure>(ServiceAuthFailure::MissingHeader),
            Some(h) => match bearer_of(h@) {
                None => r == Err::<String, ServiceAuthFailure>(ServiceAuthFailure::MissingHeader),
                Some(k) => if key_format_ok(k) {
                    r matches Ok(x) && x@ == k
                } else {
                    r == Err::<String, ServiceAuthFailure>(ServiceAuthFailure::BadFormat)
                },
            },
        },
{
    let h = match header {
        None => return Err(ServiceAuthFailure::MissingHeader),
        Some(h) => h,
    };
    let key = match bearer_token(h) {
        None => return Err(ServiceAuthFailure::MissingHeader),
        Some(k) => k,
    };
    let kc = chars_of(key.as_str());
    if !starts_with(&kc, &chars_of("svc_live_")) && !starts_with(&kc, &chars_of("svc_test_")) {
        return Err(ServiceAuthFailure::BadFormat);
    }
    Ok(key)
}

/// `key` opens `account` at `now`: it matches the current hash, or the
/// previous hash while that is in its grace period.
pub open spec fn key_opens(key: &str, account: ServiceAccount, now: i64) -> bool {
    ||| accepts(key.spec_bytes(), account.api_key_hash@)
    ||| match (account.previous_api_key_hash, account.previous_key_expiry) {
        (Some(h), Some(t)) => now < t && accepts(key.spec_bytes(), h@),
        _ => false,
    }
}

/// The identity of a service account, as attached to its requests.
pub open spec fn context_of(account: ServiceAccount) -> ServiceContext {
    ServiceContext {
        service_id: account.service_id,
        service_name: account.service_name,
        scopes: account.scopes,
    }
}

/// The check of `key` against the account found for its lookup digest (if
/// any) at time `now`: no account, a disabled one, or a key that opens it
/// neither way is refused; otherwise the service's identity.
pub fn check_service_key(key: &str, account: Option<&ServiceAccount>, now: i64) -> (r: Result<
    ServiceContext,
    ServiceAuthFailure,
>)
    ensures
        match account {
            None => r == Err::<ServiceContext, ServiceAuthFailure>(ServiceAuthFailure::UnknownKey),
            Some(a) => if !a.enabled {
                r == Err::<ServiceContext, ServiceAuthFailure>(ServiceAuthFailure::Disabled)
            } else if key_opens(key, *a, now) {
                r matches Ok(c) && c.service_id@ == a.service_id@ && c.service_name@
                    == a.service_name@ && c.scopes@ == a.scopes@
            } else {
                r == Err::<ServiceContext, ServiceAuthFailure>(ServiceAuthFailure::WrongKey)
            },
        },
{
    let a = match account {
        None => return Err(ServiceAuthFailure::UnknownKey),
        Some(a) => a,
    };
    if !a.enabled {
        return Err(ServiceAuthFailure::Disabled);
    }
    let mut ok = password_matches(key, a.api_key_hash.as_str());
    if !ok {
        match (&a.previous_api_key_hash, a.previous_key_expiry) {
            (Some(h), Some(t)) => {
                if now < t {
                    ok = password_matches(key, h.as_str());
                }
            },
            _ => {},
        }
    }
    if !ok {
        return Err(ServiceAuthFailure::WrongKey);
    }
    Ok(
        ServiceContext {
            service_id: a.service_id.clone(),
            service_name: a.service_name.clone(),
            scopes: a.scopes.clone(),
        },
    )
}

/// A new, enabled account for the key whose hashes are given, with no
/// previous key.
pub fn new_service_account(
    service_id: String,
    service_name: String,
    api_key_hash: String,
    api_key_lookup_hash: String,
    scopes: Vec<String>,
) -> (a: ServiceAccount)
    ensures
        a.service_id == service_id,
        a.service_name == service_name,
        a.api_key_hash == api_key_hash,
        a.api_key_lookup_hash == api_key_lookup_hash,
        a.previous_api_key_hash is None,
        a.previous_api_key_lookup_hash is None,
        a.previous_key_expiry is None,
        a.enabled,
        a.scopes == scopes,
{
    ServiceAccount {
        service_id,
        service_name,
        api_key_hash,
        api_key_lookup_hash,
        previous_api_key_hash: None,
        previous_api_key_lookup_hash: None,
        previous_key_expiry: None,
        enabled: true,
        scopes,
    }
}

/// `r` is `a` after its key was rotated at `now` to the key whose hashes
/// are `key_hash` and `lookup_hash`: the old key becomes the previous one,
/// valid for the grace period.
pub open spec fn is_rotation(
    r: ServiceAccount,
    a: ServiceAccount,
    key_hash: Seq<char>,
    lookup_hash: Seq<char>,
    now: i64,
) -> bool {
    &&& r.service_id == a.service_id
    &&& r.service_name == a.service_name
    &&& r.enabled == a.enabled
    &&& r.scopes@ == a.scopes@
    &&& r.api_key_hash@ == key_hash
    &&& r.api_key_lookup_hash@ == lookup_hash
    &&& r.previous_api_key_hash == Some(a.api_key_hash)
    &&& r.previous_api_key_lookup_hash == Some(a.api_key_lookup_hash)
    &&& r.previous_key_expiry == Some((now + KEY_GRACE_SECONDS) as i64)
}

/// The account after its key is rotated at `now` to a new key with the
/// given hashes.
pub fn rotate_key(account: &ServiceAccount, new_key_hash: String, new_lookup_hash: String, now: i64) -> (r:
    ServiceAccount)
    requires
        now + KEY_GRACE_SECONDS <= i64::MAX,
    ensures
        is_rotation(r, *account, new_key_hash@, new_lookup_hash@, now),
{
    ServiceAccount {
        service_id: account.service_id.clone(),
        service_name: account.service_name.clone(),
        api_key_hash: new_key_hash,
        api_key_lookup_hash: new_lookup_hash,
        previous_api_key_hash: Some(account.api_key_hash.clone()),
        previous_api_key_lookup_hash: Some(account.api_key_lookup_hash.clone()),
        previous_key_expiry: Some(now + KEY_GRACE_SECONDS),
        enabled: account.enabled,
        scopes: account.scopes.clone(),
    }
}

/// The outcome of a key rotation: the account as it is to be stored, and
/// the new key, which is shown only once.
#[derive(Clone, Debug, PartialEq, Eq)]
pub struct RotatedServiceKey {
    pub account: ServiceAccount,
    pub new_api_key: String,
    pub previous_key_expiry: i64,
}

/// Rotates the key of the account found (`None` when no account has the
/// id) at `now`, in the environment `env`: a new key with the environment's
/// prefix; the account keeps its Argon2 hash and lookup digest, and the old
/// ones stay accepted for 7 days.
pub fn rotate_service_key(account: Option<&ServiceAccount>, env: Environment, now: i64) -> (r: Result<
    RotatedServiceKey,
    AppError,
>)
    requires
        now + KEY_GRACE_SECONDS <= i64::MAX,
    ensures
        match account {
            None => r matches Err(AppError::NotFound(m)) && m@ == "Service account not found"@,
            Some(a) => r matches Ok(x) && {
                &&& exists|b: Seq<u8>| b.len() == 32 && x.new_api_key@ == key_prefix(env) + base64_url_of(b)
                &&& is_rotation(x.account, *a, x.account.api_key_hash@, hex_lower(sha256_of(vstd::utf8::encode_utf8(x.new_api_key@))), now)
                &&& accepts(vstd::utf8::encode_utf8(x.new_api_key@), x.account.api_key_hash@)
                &&& x.previous_key_expiry == now + KEY_GRACE_SECONDS
            },
        },
{
    let a = match account {
        None => return Err(AppError::NotFound("Service account not found".to_owned())),
        Some(a) => a,
    };
    let key = generate_api_key(env);
    proof {
        vstd::utf8::is_ascii_chars_encode_utf8(key@);
    }
    let hash = match hash_password(key.as_str()) {
        Some(h) => h,
        None => return Err(AppError::InternalError("Internal server error".to_owned())),
    };
    let lookup = api_key_lookup_hash(key.as_str());
    let rotated = rotate_key(a, hash, lookup, now);
    Ok(RotatedServiceKey { account: rotated, new_api_key: key, previous_key_expiry: now + KEY_GRACE_SECONDS })
}

/// The cache entries to drop when an account is revoked: those of its
/// current key and of its previous key, if any.
pub fn revocation_cache_keys(account: &ServiceAccount) -> (ks: Vec<String>)
    ensures
        ks@.len() >= 1,
        ks@[0]@ == "svc_auth:"@ + account.api_key_lookup_hash@,
        match account.previous_api_key_lookup_hash {
            Some(p) => ks@.len() == 2 && ks@[1]@ == "svc_auth:"@ + p@,
            None => ks@.len() == 1,
        },
{
    let mut ks: Vec<String> = Vec::new();
    ks.push(service_cache_key(account.api_key_lookup_hash.as_str()));
    match &account.previous_api_key_lookup_hash {
        Some(p) => ks.push(service_cache_key(p.as_str())),
        None => {},
    }
    ks
}

/// After a rotation, the previous key still opens the account until the
/// grace period ends, and the new key opens it.
pub proof fn law_rotation_grace(
    old_key: &str,
    new_key: &str,
    a: ServiceAccount,
    r: ServiceAccount,
    key_hash: Seq<char>,
    lookup_hash: Seq<char>,
    now: i64,
    t: i64,
)
    requires
        now + KEY_GRACE_SECONDS <= i64::MAX,
        is_rotation(r, a, key_hash, lookup_hash, now),
        accepts(old_key.spec_bytes(), a.api_key_hash@),
        accepts(new_key.spec_bytes(), key_hash),
        t < now + KEY_GRACE_SECONDS,
    ensures
        key_opens(old_key, r, t),
        key_opens(new_key, r, t),
{
}

/// Once the grace period is over, the previous key opens the account only
/// if it also matches the current hash.
pub proof fn law_grace_ends(key: &str, a: ServiceAccount, now: i64)
    requires
        a.previous_key_expiry matches Some(t) && t <= now,
        !accepts(key.spec_bytes(), a.api_key_hash@),
    ensures
        !key_opens(key, a, now),
{
}

} // verus!
