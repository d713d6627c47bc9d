//! Client apps: their credentials, the client-credentials grant, secret
//! rotation with a grace period, revocation, and the check of app tokens on
//! each request.
//!
//! A client's secret is stored as an Argon2 hash; after a rotation the
//! previous secret is accepted until its expiry. Times are seconds since the
//! Unix epoch.
use vstd::prelude::*;

use vstd::string::StringSliceAdditionalSpecFns;

use crate::dtos::admin::{CreateClientRequest, CreateClientResponse};
use crate::error::AppError;
use crate::ids::{is_random_uuid, new_id_text, uuid_hyphenated};
use crate::password::{accepts, hash_password, password_matches};
use crate::secrets::{base64_url_of, random_token_b64};
use crate::service_account::bearer_of;
use crate::text::{chars_eq, chars_of, concat_chars, has_prefix, starts_with, string_of};

verus! {

broadcast use vstd::string::group_string_axioms;

/// Seconds for which a rotated-out client secret stays valid (24 hours).
pub const SECRET_GRACE_SECONDS: i64 = 86400;

/// Seconds for which a revoked client stays blacklisted: the longest life
/// of an app token (1 hour).
pub const REVOCATION_TTL_SECONDS: u64 = 3600;

/// Seconds for which an app token is valid (1 hour).
pub const APP_TOKEN_EXPIRES_IN: i64 = 3600;

/// A client app as stored.
#[derive(Clone, Debug, PartialEq, Eq)]
pub struct ClientRecord {
    pub client_id: String,
    pub client_secret_hash: String,
    pub signing_secret: String,
    pub app_name: String,
    pub rate_limit_per_min: u32,
    pub allowed_origins: Vec<String>,
    pub enabled: bool,
    pub previous_client_secret_hash: Option<String>,
    pub previous_secret_expiry: Option<i64>,
}

/// Request for a service-to-service app token.
#[derive(Clone, Debug, PartialEq, Eq)]
pub struct AppTokenRequest {
    pub client_id: String,
    pub client_secret: String,
    pub grant_type: String,
}

/// `secret` opens `client` at `now`: it matches the current hash, or the
/// previous hash while that is in its grace period.
pub open spec fn secret_opens(secret: Seq<char>, client: ClientRecord, now: i64) -> bool {
    let bytes = vstd::utf8::encode_utf8(secret);
    ||| accepts(bytes, client.client_secret_hash@)
    ||| match (client.previous_client_secret_hash, client.previous_secret_expiry) {
        (Some(h), Some(t)) => now < t && accepts(bytes, h@),
        _ => false,
    }
}

/// Why an app token request is refused.
#[derive(Clone, Copy, Debug, PartialEq, Eq, Structural)]
pub enum TokenRefusal {
    /// The grant is not `client_credentials` (400).
    UnsupportedGrant,
    /// The client is unknown, or the secret does not open it (401).
    InvalidCredentials,
    /// The client is disabled (403).
    Disabled,
}

/// Why an app token request is refused at `now`, if it is: a grant other
/// than `client_credentials`, an unknown client, a disabled one, or a
/// secret that opens it neither way (checked in that order).
pub open spec fn token_refusal(req: AppTokenRequest, client: Option<ClientRecord>, now: i64) -> Option<
    TokenRefusal,
> {
    if req.grant_type@ != "client_credentials"@ {
        Some(TokenRefusal::UnsupportedGrant)
    } else {
        match client {
            None => Some(TokenRefusal::InvalidCredentials),
            Some(c) => if !c.enabled {
                Some(TokenRefusal::Disabled)
            } else if !secret_opens(req.client_secret@, c, now) {
                Some(TokenRefusal::InvalidCredentials)
            } else {
                None
            },
        }
    }
}

/// The answer to each refusal.
pub open spec fn answers_refusal(e: AppError, k: TokenRefusal) -> bool {
    match k {
        TokenRefusal::UnsupportedGrant => e matches AppError::BadRequest(m) && m@
            == "unsupported_grant_type"@,
        TokenRefusal::InvalidCredentials => e matches AppError::Unauthorized(m) && m@
            == "Invalid client_id or client_secret"@,
        TokenRefusal::Disabled => e matches AppError::Forbidden(m) && m@ == "Client is disabled"@,
    }
}

/// The optional client, by value.
pub open spec fn opt_client(c: Option<&ClientRecord>) -> Option<ClientRecord> {
    match c {
        Some(x) => Some(*x),
        None => None,
    }
}

/// The check of a client-credentials request against the client found for
/// its id (if any), at `now`.
pub fn check_app_token_request(req: &AppTokenRequest, client: Option<&ClientRecord>, now: i64) -> (r:
    Result<(), AppError>)
    ensures
        match token_refusal(*req, opt_client(client), now) {
            None => r is Ok,
            Some(k) => r matches Err(e) && answers_refusal(e, k),
        },
{
    if !chars_eq(&chars_of(req.grant_type.as_str()), &chars_of("client_credentials")) {
        return Err(AppError::BadRequest("unsupported_grant_type".to_owned()));
    }
    let c = match client {
        None => return Err(AppError::Unauthorized("Invalid client_id or client_secret".to_owned())),
        Some(c) => c,
    };
    if !c.enabled {
        return Err(AppError::Forbidden("Client is disabled".to_owned()));
    }
    let secret = req.client_secret.as_str();
    let mut ok = password_matches(secret, c.client_secret_hash.as_str());
    if !ok {
        match (&c.previous_client_secret_hash, c.previous_secret_expiry) {
            (Some(h), Some(t)) => {
                if now < t {
                    ok = password_matches(secret, h.as_str());
                }
            },
            _ => {},
        }
    }
    if !ok {
        return Err(AppError::Unauthorized("Invalid client_id or client_secret".to_owned()));
    }
    Ok(())
}

/// Token response of the app token grant.
#[derive(Clone, Debug, PartialEq, Eq)]
pub struct TokenResponse {
    pub access_token: String,
    pub refresh_token: String,
    pub token_type: String,
    pub expires_in: i64,
}

/// The answer carrying an app token: a bearer token of one hour, without a
/// refresh token.
pub fn app_token_response(token: String) -> (r: TokenResponse)
    ensures
        r.access_token == token,
        r.refresh_token@ == Seq::<char>::empty(),
        r.token_type@ == "Bearer"@,
        r.expires_in == APP_TOKEN_EXPIRES_IN,
{
    TokenResponse {
        access_token: token,
        refresh_token: String::new(),
        token_type: "Bearer".to_owned(),
        expires_in: APP_TOKEN_EXPIRES_IN,
    }
}

/// `r` is `c` after its secret was rotated at `now` to the one hashed as
/// `secret_hash`, with the new signing secret: the old hash becomes the
/// previous one, valid for the grace period.
pub open spec fn is_secret_rotation(
    r: ClientRecord,
    c: ClientRecord,
    secret_hash: Seq<char>,
    signing_secret: Seq<char>,
    now: i64,
) -> bool {
    &&& r.client_id == c.client_id
    &&& r.app_name == c.app_name
    &&& r.rate_limit_per_min == c.rate_limit_per_min
    &&& r.allowed_origins@ == c.allowed_origins@
    &&& r.enabled == c.enabled
    &&& r.client_secret_hash@ == secret_hash
    &&& r.signing_secret@ == signing_secret
    &&& r.previous_client_secret_hash == Some(c.client_secret_hash)
    &&& r.previous_secret_expiry == Some((now + SECRET_GRACE_SECONDS) as i64)
}

/// The client after its secret is rotated at `now`.
pub fn rotate_client_secret(
    client: &ClientRecord,
    new_secret_hash: String,
    new_signing_secret: String,
    now: i64,
) -> (r: ClientRecord)
    requires
        now + SECRET_GRACE_SECONDS <= i64::MAX,
    ensures
        is_secret_rotation(r, *client, new_secret_hash@, new_signing_secret@, now),
{
    ClientRecord {
        client_id: client.client_id.clone(),
        client_secret_hash: new_secret_hash,
        signing_secret: new_signing_secret,
        app_name: client.app_name.clone(),
        rate_limit_per_min: client.rate_limit_per_min,
        allowed_origins: client.allowed_origins.clone(),
        enabled: client.enabled,
        previous_client_secret_hash: Some(client.client_secret_hash.clone()),
        previous_secret_expiry: Some(now + SECRET_GRACE_SECONDS),
    }
}

/// A new client app registered by `req`: a random UUID as its id, a
/// client secret and a signing secret of 32 random bytes each in URL-safe
/// base64, the client stored (enabled, with no previous secret) under the
/// Argon2 hash of its secret, and the answer that shows the secrets once.
/// Hashing a secret of 43 characters cannot fail, so there is always one.
pub fn new_client<T>(req: CreateClientRequest<T>) -> (r: Option<(ClientRecord, CreateClientResponse<T>)>)
    ensures
        r is Some,
        r matches Some((c, resp)) ==> {
            &&& exists|v: u128| is_random_uuid(v) && c.client_id@ == uuid_hyphenated(v)
            &&& resp.client_id@ == c.client_id@
            &&& accepts(vstd::utf8::encode_utf8(resp.client_secret@), c.client_secret_hash@)
            &&& resp.signing_secret@ == c.signing_secret@
            &&& exists|b: Seq<u8>| b.len() == 32 && resp.client_secret@ == base64_url_of(b)
            &&& exists|b: Seq<u8>| b.len() == 32 && resp.signing_secret@ == base64_url_of(b)
            &&& c.app_name@ == req.app_name@ && resp.app_name@ == req.app_name@
            &&& resp.app_type == req.app_type
            &&& c.rate_limit_per_min == req.rate_limit_per_min
            &&& c.allowed_origins@ == req.allowed_origins@
            &&& c.enabled
            &&& c.previous_client_secret_hash is None
            &&& c.previous_secret_expiry is None
        },
{
    let CreateClientRequest { app_name, app_type, rate_limit_per_min, allowed_origins } = req;
    let client_id = new_id_text();
    let client_secret = random_token_b64();
    let signing_secret = random_token_b64();
    proof {
        vstd::utf8::is_ascii_chars_encode_utf8(client_secret@);
    }
    let hash = match hash_password(client_secret.as_str()) {
        Some(h) => h,
        None => return None,
    };
    let record = ClientRecord {
        client_id: client_id.clone(),
        client_secret_hash: hash,
        signing_secret: signing_secret.clone(),
        app_name: app_name.clone(),
        rate_limit_per_min,
        allowed_origins,
        enabled: true,
        previous_client_secret_hash: None,
        previous_secret_expiry: None,
    };
    let resp = CreateClientResponse { client_id, client_secret, signing_secret, app_name, app_type };
    Some((record, resp))
}

/// The outcome of a client secret rotation: the client as it is to be
/// stored, and the new secrets, which are shown only once.
#[derive(Clone, Debug, PartialEq, Eq)]
pub struct RotatedClient {
    pub client: ClientRecord,
    pub new_client_secret: String,
    pub new_signing_secret: String,
    pub previous_secret_expiry: i64,
}

/// Rotates the secrets of `client` at `now`: a new client secret and a new
/// signing secret, each 32 random bytes in URL-safe base64; the stored
/// client keeps the Argon2 hash of the new secret, and the old hash stays
/// accepted until 24 hours later. Hashing a secret of 43 characters cannot
/// fail, so there is always one.
pub fn rotate_client_credentials(client: &ClientRecord, now: i64) -> (r: Option<RotatedClient>)
    requires
        now + SECRET_GRACE_SECONDS <= i64::MAX,
    ensures
        r is Some,
        r matches Some(x) ==> {
            &&& is_secret_rotation(x.client, *client, x.client.client_secret_hash@, x.new_signing_secret@, now)
            &&& accepts(vstd::utf8::encode_utf8(x.new_client_secret@), x.client.client_secret_hash@)
            &&& forall|t: i64| secret_opens(x.new_client_secret@, x.client, t)
            &&& x.previous_secret_expiry == now + SECRET_GRACE_SECONDS
            &&& exists|b: Seq<u8>| b.len() == 32 && x.new_client_secret@ == base64_url_of(b)
            &&& exists|b: Seq<u8>| b.len() == 32 && x.new_signing_secret@ == base64_url_of(b)
        },
{
    let new_client_secret = random_token_b64();
    let new_signing_secret = random_token_b64();
    proof {
        vstd::utf8::is_ascii_chars_encode_utf8(new_client_secret@);
    }
    let hash = match hash_password(new_client_secret.as_str()) {
        Some(h) => h,
        None => return None,
    };
    let rotated = rotate_client_secret(client, hash, new_signing_secret.clone(), now);
    Some(
        RotatedClient {
            client: rotated,
            new_client_secret,
            new_signing_secret,
            previous_secret_expiry: now + SECRET_GRACE_SECONDS,
        },
    )
}

/// After a rotation, the previous secret still opens the client until the
/// grace period ends, and the new one opens it.
pub proof fn law_secret_rotation_grace(
    old_secret: &str,
    new_secret: &str,
    c: ClientRecord,
    r: ClientRecord,
    secret_hash: Seq<char>,
    signing_secret: Seq<char>,
    now: i64,
    t: i64,
)
    requires
        now + SECRET_GRACE_SECONDS <= i64::MAX,
        is_secret_rotation(r, c, secret_hash, signing_secret, now),
        accepts(old_secret.spec_bytes(), c.client_secret_hash@),
        accepts(new_secret.spec_bytes(), secret_hash),
        t < now + SECRET_GRACE_SECONDS,
    ensures
        secret_opens(old_secret@, r, t),
        secret_opens(new_secret@, r, t),
{
}

/// The blacklist entry of a revoked client (kept apart from token ids).
pub fn client_blacklist_key(client_id: &str) -> (k: String)
    ensures
        k@ == "client:"@ + client_id@,
{
    string_of(&concat_chars(&chars_of("client:"), &chars_of(client_id)))
}

/// A revocation must find its client.
pub fn check_client_found(matched: u64) -> (r: Result<(), AppError>)
    ensures
        r is Ok <==> matched > 0,
        r is Err ==> (r matches Err(AppError::NotFound(m)) && m@ == "Client not found"@),
{
    if matched == 0 {
        return Err(AppError::NotFound("Client not found".to_owned()));
    }
    Ok(())
}

/// A request header as received: absent, present but not text, or text.
pub open spec fn header_token(h: Option<Option<String>>) -> Option<Seq<char>> {
    match h {
        Some(Some(v)) => Some(match bearer_of(v@) {
            Some(k) => k,
            None => v@,
        }),
        _ => None,
    }
}

/// The app token of a request: from `X-App-Token` if that header is
/// present, else from `Authorization`; a `Bearer ` prefix is dropped. A
/// header that is present but not text gives no token.
pub fn app_token_of(x_app_token: &Option<Option<String>>, authorization: &Option<Option<String>>) -> (r:
    Result<String, AppError>)
    ensures
        match header_token(if x_app_token is Some { *x_app_token } else { *authorization }) {
            Some(t) => r matches Ok(x) && x@ == t,
            None => r matches Err(AppError::AuthError(m)) && m@ == "Missing or invalid app token"@,
        },
{
    let h = if x_app_token.is_some() {
        x_app_token
    } else {
        authorization
    };
    match h {
        Some(Some(v)) => match crate::service_account::bearer_token(v.as_str()) {
            Some(k) => Ok(k),
            None => Ok(v.clone()),
        },
        _ => Err(AppError::AuthError("Missing or invalid app token".to_owned())),
    }
}

/// The checks of an app token's client on each request: not revoked, known,
/// and enabled (`client_enabled` is `None` when the client is not found).
pub fn check_app_client(revoked: bool, client_enabled: Option<bool>) -> (r: Result<(), AppError>)
    ensures
        revoked ==> (r matches Err(AppError::AuthError(m)) && m@ == "Client has been revoked"@),
        !revoked && client_enabled is None ==> (r matches Err(AppError::AuthError(m)) && m@
            == "Client not found"@),
        !revoked && client_enabled == Some(false) ==> (r matches Err(AppError::AuthError(m)) && m@
            == "Client is disabled"@),
        r is Ok <==> (!revoked && client_enabled == Some(true)),
{
    if revoked {
        return Err(AppError::AuthError("Client has been revoked".to_owned()));
    }
    match client_enabled {
        None => Err(AppError::AuthError("Client not found".to_owned())),
        Some(false) => Err(AppError::AuthError("Client is disabled".to_owned())),
        Some(true) => Ok(()),
    }
}

} // verus!
