//! The service registry (know-your-service): services authenticate with a
//! key and a secret, whose SHA-256 digest is stored; a rotation issues a new
//! secret and keeps the old one accepted for 24 hours.
use vstd::prelude::*;

use vstd::string::StringSliceAdditionalSpecFns;
use vstd::utf8::encode_utf8;

use crate::digest::{hex_lower, sha256_hex, sha256_of};
use crate::error::AppError;
use crate::secrets::{is_alnum, random_alnum_secret, random_token_hex};
use crate::text::{chars_eq, chars_of, concat_chars, string_of};

verus! {

broadcast use vstd::string::group_string_axioms;

/// Length of the secrets issued at registration through the REST endpoint.
pub const SECRET_LEN: usize = 48;

/// Seconds for which a rotated-out secret stays valid (24 hours).
pub const OLD_SECRET_GRACE_SECONDS: i64 = 86400;

/// Request to register a new service.
#[derive(Clone, Debug, PartialEq, Eq)]
pub struct RegisterServiceRequest {
    pub tenant_id: Option<u128>,
    pub svc_key: String,
    pub svc_label: String,
}

/// Service registration response with secret (shown only once).
#[derive(Clone, Debug, PartialEq, Eq)]
pub struct ServiceRegistrationResponse {
    pub svc_id: u128,
    pub svc_key: String,
    pub svc_label: String,
    pub svc_secret: String,
    pub secret_id: u128,
    pub created_utc: i64,
}

/// Service info response (without secret).
#[derive(Clone, Debug, PartialEq, Eq)]
pub struct ServiceResponse {
    pub svc_id: u128,
    pub tenant_id: Option<u128>,
    pub svc_key: String,
    pub svc_label: String,
    pub svc_state_code: String,
    pub created_utc: i64,
}

/// Request for service token.
#[derive(Clone, Debug, PartialEq, Eq)]
pub struct ServiceTokenRequest {
    pub svc_key: String,
    pub svc_secret: String,
}

/// Service token response.
#[derive(Clone, Debug, PartialEq, Eq)]
pub struct ServiceTokenResponse {
    pub access_token: String,
    pub token_type: String,
    pub expires_in: i64,
    pub svc_id: u128,
    pub svc_key: String,
    pub permissions: Vec<String>,
}

/// Request to rotate secret.
#[derive(Clone, Debug, PartialEq, Eq)]
pub struct RotateSecretRequest {
    pub current_secret: String,
}

/// Rotated secret response.
#[derive(Clone, Debug, PartialEq, Eq)]
pub struct RotatedSecretResponse {
    pub svc_id: u128,
    pub new_secret_id: u128,
    pub new_secret: String,
    pub old_secret_valid_until: i64,
}

/// Request to grant permission to service.
#[derive(Clone, Debug, PartialEq, Eq)]
pub struct GrantPermissionRequest {
    pub permission: String,
}

/// The digest under which a service secret is stored.
pub open spec fn secret_digest(secret: &str) -> Seq<char> {
    hex_lower(sha256_of(secret.spec_bytes()))
}

/// The digest under which a service secret is stored: SHA-256 of its bytes,
/// in lowercase hexadecimal.
pub fn hash_secret(secret: &str) -> (h: String)
    ensures
        h@ == secret_digest(secret),
{
    sha256_hex(secret)
}

/// A fresh secret for a service registered through the REST endpoint: 48
/// random letters and digits.
pub fn generate_rest_secret() -> (s: String)
    ensures
        s@.len() == SECRET_LEN,
        forall|i: int| 0 <= i < SECRET_LEN ==> is_alnum(#[trigger] s@[i]),
{
    random_alnum_secret(SECRET_LEN)
}

/// A fresh secret for a service registered through the RPC endpoint: 32
/// random bytes in lowercase hexadecimal.
pub fn generate_rpc_secret() -> (s: String)
    ensures
        exists|b: Seq<u8>| b.len() == 32 && s@ == hex_lower(b),
{
    random_token_hex()
}

/// A service key can be registered once.
pub fn check_key_free(taken: bool) -> (r: Result<(), AppError>)
    ensures
        r is Ok <==> !taken,
        r is Err ==> (r matches Err(AppError::Conflict(m)) && m@ == "Service key already exists"@),
{
    if taken {
        return Err(AppError::Conflict("Service key already exists".to_owned()));
    }
    Ok(())
}

/// The refusal of a service token request that names no usable service.
pub open spec fn invalid_credentials(r: Result<(), AppError>) -> bool {
    r matches Err(AppError::AuthError(m)) && m@ == "Invalid credentials"@
}

/// A stored secret of a service: the digest of the secret, and, once it
/// has been rotated out, the end of its grace period.
#[derive(Clone, Debug, PartialEq, Eq)]
pub struct ServiceSecretRecord {
    pub secret_hash: String,
    pub valid_until: Option<i64>,
}

/// The stored secret `s` is accepted at `now`: it is the current one, or a
/// rotated-out one within its grace period.
pub open spec fn in_force(s: ServiceSecretRecord, now: i64) -> bool {
    match s.valid_until {
        None => true,
        Some(t) => now < t,
    }
}

/// Some secret of `secrets` in force at `now` has the digest `digest`.
pub open spec fn digest_accepted(secrets: Seq<ServiceSecretRecord>, digest: Seq<char>, now: i64) -> bool {
    exists|i: int| 0 <= i < secrets.len() && in_force(secrets[i], now) && #[trigger] secrets[i].secret_hash@ == digest
}

/// Whether some secret of `secrets` in force at `now` has the digest `digest`.
fn find_digest(secrets: &Vec<ServiceSecretRecord>, digest: &str, now: i64) -> (b: bool)
    ensures
        b == digest_accepted(secrets@, digest@, now),
{
    let d = chars_of(digest);
    let mut i: usize = 0;
    while i < secrets.len()
        invariant
            i <= secrets.len(),
            d@ == digest@,
            forall|j: int| 0 <= j < i ==> !(in_force(secrets@[j], now) && #[trigger] secrets@[j].secret_hash@ == digest@),
        decreases secrets.len() - i,
    {
        let s = &secrets[i];
        let live = match s.valid_until {
            None => true,
            Some(t) => now < t,
        };
        if live && chars_eq(&chars_of(s.secret_hash.as_str()), &d) {
            return true;
        }
        i = i + 1;
    }
    false
}

/// The checks of a service token request against the store at `now`: the
/// service must exist and be active (`service_active` is `None` when not
/// found), and the presented secret's digest must be that of one of its
/// secrets in force: the current one, or the one rotated out less than 24
/// hours ago.
pub fn check_service_credentials(
    service_active: Option<bool>,
    secrets: &Vec<ServiceSecretRecord>,
    secret: &str,
    now: i64,
) -> (r: Result<(), AppError>)
    ensures
        service_active is None ==> invalid_credentials(r),
        service_active == Some(false) ==> (r matches Err(AppError::AuthError(m)) && m@
            == "Service is disabled"@),
        service_active == Some(true) ==> if digest_accepted(secrets@, secret_digest(secret), now) {
            r is Ok
        } else {
            invalid_credentials(r)
        },
{
    match service_active {
        None => return Err(AppError::AuthError("Invalid credentials".to_owned())),
        Some(false) => return Err(AppError::AuthError("Service is disabled".to_owned())),
        Some(true) => {},
    }
    let h = hash_secret(secret);
    if !find_digest(secrets, h.as_str(), now) {
        return Err(AppError::AuthError("Invalid credentials".to_owned()));
    }
    Ok(())
}

/// `new` holds the secrets of `old` after a rotation at `now` to a secret
/// whose digest is `new_digest`: each current secret of `old` is given the
/// grace period's end, the others stay as they were, and the new secret is
/// added as the current one.
pub open spec fn is_secret_rotation(
    old: Seq<ServiceSecretRecord>,
    new: Seq<ServiceSecretRecord>,
    new_digest: Seq<char>,
    now: i64,
) -> bool {
    &&& new.len() == old.len() + 1
    &&& forall|i: int|
        0 <= i < old.len() ==> (#[trigger] new[i]).secret_hash@ == old[i].secret_hash@ && new[i].valid_until
            == (match old[i].valid_until {
            None => Some((now + OLD_SECRET_GRACE_SECONDS) as i64),
            Some(t) => Some(t),
        })
    &&& new[old.len() as int].secret_hash@ == new_digest
    &&& new[old.len() as int].valid_until is None
}

/// Rotates the secrets of a service at `now`: a new secret of 48 random
/// letters and digits becomes the current one, and the secret that was
/// current stays accepted for 24 hours. Gives the new secret, which is not
/// stored.
pub fn rotate_service_secrets(secrets: &mut Vec<ServiceSecretRecord>, now: i64) -> (new_secret: String)
    requires
        now + OLD_SECRET_GRACE_SECONDS <= i64::MAX,
    ensures
        is_secret_rotation(old(secrets)@, final(secrets)@, hex_lower(sha256_of(encode_utf8(new_secret@))), now),
        new_secret@.len() == SECRET_LEN,
        forall|i: int| 0 <= i < SECRET_LEN ==> is_alnum(#[trigger] new_secret@[i]),
{
    let until = old_secret_valid_until(now);
    let ghost old_s = secrets@;
    let n = secrets.len();
    let mut i: usize = 0;
    while i < n
        invariant
            n == old_s.len(),
            secrets@.len() == n,
            i <= n,
            until == now + OLD_SECRET_GRACE_SECONDS,
            forall|j: int|
                0 <= j < i ==> (#[trigger] secrets@[j]).secret_hash@ == old_s[j].secret_hash@
                    && secrets@[j].valid_until == (match old_s[j].valid_until {
                    None => Some(until),
                    Some(t) => Some(t),
                }),
            forall|j: int| i <= j < n ==> #[trigger] secrets@[j] == old_s[j],
        decreases n - i,
    {
        if secrets[i].valid_until.is_none() {
            let rec = ServiceSecretRecord { secret_hash: secrets[i].secret_hash.clone(), valid_until: Some(until) };
            secrets.set(i, rec);
        }
        i = i + 1;
    }
    let new_secret = generate_rest_secret();
    let h = hash_secret(new_secret.as_str());
    secrets.push(ServiceSecretRecord { secret_hash: h, valid_until: None });
    new_secret
}

/// The stored secret `s` will have left its grace period by `t` once the
/// secret that is current now is rotated out: it is current, or its grace
/// period ends by `t`.
pub open spec fn ended_by(s: ServiceSecretRecord, t: i64) -> bool {
    match s.valid_until {
        None => true,
        Some(e) => e <= t,
    }
}

/// After a rotation at `now` the secret that was current stays accepted
/// until 24 hours later, and the new one is accepted at any time; after the
/// 24 hours the old one is refused unless some other secret in force has
/// its digest.
pub proof fn law_old_secret_grace(
    old: Seq<ServiceSecretRecord>,
    new: Seq<ServiceSecretRecord>,
    new_digest: Seq<char>,
    old_digest: Seq<char>,
    i: int,
    now: i64,
    t: i64,
)
    requires
        now + OLD_SECRET_GRACE_SECONDS <= i64::MAX,
        is_secret_rotation(old, new, new_digest, now),
        0 <= i < old.len(),
        old[i].valid_until is None,
        old[i].secret_hash@ == old_digest,
    ensures
        t < now + OLD_SECRET_GRACE_SECONDS ==> digest_accepted(new, old_digest, t),
        digest_accepted(new, new_digest, t),
        (t >= now + OLD_SECRET_GRACE_SECONDS && old_digest != new_digest && (forall|j: int|
            0 <= j < old.len() && #[trigger] old[j].secret_hash@ == old_digest ==> ended_by(old[j], t))) ==> !digest_accepted(new, old_digest, t),
{
    assert(new[i].secret_hash@ == old_digest);
    assert(new[old.len() as int].secret_hash@ == new_digest);
    if t >= now + OLD_SECRET_GRACE_SECONDS && old_digest != new_digest && (forall|j: int|
        0 <= j < old.len() && #[trigger] old[j].secret_hash@ == old_digest ==> ended_by(old[j], t)) {
        assert forall|j: int| 0 <= j < new.len() && in_force(new[j], t) implies #[trigger] new[j].secret_hash@ != old_digest by {
            if j < old.len() {
                assert(new[j].secret_hash@ == old[j].secret_hash@);
            }
        }
    }
}

/// The checks of a secret rotation: the service must exist (`found`), have
/// a valid secret, and the presented current secret's digest must equal it.
pub fn check_rotation(found: bool, valid_secret_hash: Option<&str>, current_secret: &str) -> (r: Result<
    (),
    AppError,
>)
    ensures
        !found ==> (r matches Err(AppError::NotFound(m)) && m@ == "Service not found"@),
        found ==> match valid_secret_hash {
            None => r matches Err(AppError::AuthError(m)) && m@ == "No valid secret found"@,
            Some(h) => if secret_digest(current_secret) == h@ {
                r is Ok
            } else {
                r matches Err(AppError::AuthError(m)) && m@ == "Invalid current secret"@
            },
        },
{
    if !found {
        return Err(AppError::NotFound("Service not found".to_owned()));
    }
    let h = match valid_secret_hash {
        None => return Err(AppError::AuthError("No valid secret found".to_owned())),
        Some(h) => h,
    };
    if !chars_eq(&chars_of(hash_secret(current_secret).as_str()), &chars_of(h)) {
        return Err(AppError::AuthError("Invalid current secret".to_owned()));
    }
    Ok(())
}

/// Until when the old secret stays valid after a rotation at `now`.
pub fn old_secret_valid_until(now: i64) -> (t: i64)
    requires
        now + OLD_SECRET_GRACE_SECONDS <= i64::MAX,
    ensures
        t == now + OLD_SECRET_GRACE_SECONDS,
{
    now + OLD_SECRET_GRACE_SECONDS
}

/// The answer to a permission grant.
pub fn permission_granted_message(permission: &str) -> (m: String)
    ensures
        m@ == "Permission '"@ + permission@ + "' granted to service"@,
{
    string_of(
        &concat_chars(
            &concat_chars(&chars_of("Permission '"), &chars_of(permission)),
            &chars_of("' granted to service"),
        ),
    )
}

} // verus!
