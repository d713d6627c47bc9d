//! Password sign-up and sign-in, token refresh and sign-out: the checks of
//! each step and the values they produce.
//!
//! Each flow reads the tenant, the user, the identity or the refresh session
//! from the store between its checks; the checks stand here, each as a
//! function of what was read. Times are seconds since the Unix epoch.
use vstd::prelude::*;

use vstd::string::StringSliceAdditionalSpecFns;

use crate::digest::{hex_lower, sha256_hex, sha256_of};
use crate::error::AppError;
use crate::ids::{is_random_uuid, new_id};
use crate::password::{accepts, hash_password, hashable, verify_password};
use crate::text::{chars_of, contains_char, split_chars, split_on, string_of, utf8_len};

verus! {

broadcast use vstd::string::group_string_axioms;

/// Registration request.
#[derive(Clone, Debug, PartialEq, Eq)]
pub struct RegisterRequest {
    pub tenant_slug: String,
    pub email: String,
    pub password: String,
    pub display_name: Option<String>,
}

/// Login request.
#[derive(Clone, Debug, PartialEq, Eq)]
pub struct LoginRequest {
    pub tenant_slug: String,
    pub email: String,
    pub password: String,
}

/// Token refresh request.
#[derive(Clone, Debug, PartialEq, Eq)]
pub struct RefreshRequest {
    pub refresh_token: String,
}

/// Logout request.
#[derive(Clone, Debug, PartialEq, Eq)]
pub struct LogoutRequest {
    pub refresh_token: String,
}

/// Message response for simple operations.
#[derive(Clone, Debug, PartialEq, Eq)]
pub struct MessageResponse {
    pub message: String,
}

/// User information in an authentication response.
#[derive(Clone, Debug, PartialEq, Eq)]
pub struct UserResponse {
    pub user_id: u128,
    pub email: String,
    pub display_name: Option<String>,
    pub tenant_id: u128,
}

/// Authentication response with tokens.
#[derive(Clone, Debug, PartialEq, Eq)]
pub struct AuthResponse {
    pub access_token: String,
    pub refresh_token: String,
    pub token_type: String,
    pub expires_in: i64,
    pub user: UserResponse,
}

/// Why an email address is refused, if it is: it is empty, lacks `@` or
/// `.`, or is longer than 255 bytes.
pub open spec fn email_refusal(email: Seq<char>) -> Option<Seq<char>> {
    if email.len() == 0 {
        Some("Email is required"@)
    } else if !email.contains('@') || !email.contains('.') {
        Some("Invalid email format"@)
    } else if utf8_len(email) > 255 {
        Some("Email too long"@)
    } else {
        None
    }
}

/// The answer `r` gives the refusal `refusal` as a bad request.
pub open spec fn bad_request_unless(r: Result<(), AppError>, refusal: Option<Seq<char>>) -> bool {
    match refusal {
        None => r is Ok,
        Some(m) => r matches Err(AppError::BadRequest(e)) && e@ == m,
    }
}

/// Checks an email address at sign-up.
pub fn validate_email(email: &str) -> (r: Result<(), AppError>)
    ensures
        bad_request_unless(r, email_refusal(email@)),
{
    let c = chars_of(email);
    if c.len() == 0 {
        return Err(AppError::BadRequest("Email is required".to_owned()));
    }
    if !contains_char(&c, '@') || !contains_char(&c, '.') {
        return Err(AppError::BadRequest("Invalid email format".to_owned()));
    }
    if email.as_bytes().len() > 255 {
        return Err(AppError::BadRequest("Email too long".to_owned()));
    }
    Ok(())
}

/// Why a password is refused, if it is: shorter than 8 or longer than 128
/// bytes.
pub open spec fn password_refusal(password: Seq<char>) -> Option<Seq<char>> {
    if utf8_len(password) < 8 {
        Some("Password must be at least 8 characters"@)
    } else if utf8_len(password) > 128 {
        Some("Password too long"@)
    } else {
        None
    }
}

/// Checks a password at sign-up.
pub fn validate_password(password: &str) -> (r: Result<(), AppError>)
    ensures
        bad_request_unless(r, password_refusal(password@)),
{
    let n = password.as_bytes().len();
    if n < 8 {
        return Err(AppError::BadRequest("Password must be at least 8 characters".to_owned()));
    }
    if n > 128 {
        return Err(AppError::BadRequest("Password too long".to_owned()));
    }
    Ok(())
}

/// The display name of a new user: the one given, or the part of the email
/// before its first `@`.
pub fn default_display_name(given: &Option<String>, email: &str) -> (d: String)
    ensures
        match given {
            Some(g) => d@ == g@,
            None => d@ == split_on(email@, '@')[0],
        },
{
    match given {
        Some(g) => g.clone(),
        None => {
            let parts = split_chars(&chars_of(email), '@');
            proof {
                crate::text::lemma_split_nonempty(email@, '@');
            }
            assert(parts@.map_values(|p: Vec<char>| p@)[0] == parts@[0]@);
            string_of(&parts[0])
        },
    }
}

/// The checks of a sign-up against the store: the tenant must exist and be
/// active, and the email must be free in it (`tenant_active` is `None` when
/// no tenant has the slug).
pub fn check_signup(tenant_active: Option<bool>, email_taken: bool) -> (r: Result<(), AppError>)
    ensures
        tenant_active is None ==> (r matches Err(AppError::NotFound(m)) && m@ == "Tenant not found"@),
        tenant_active == Some(false) ==> (r matches Err(AppError::BadRequest(m)) && m@
            == "Tenant is suspended"@),
        tenant_active == Some(true) && email_taken ==> (r matches Err(AppError::Conflict(m)) && m@
            == "Email already registered"@),
        r is Ok <==> (tenant_active == Some(true) && !email_taken),
{
    match tenant_active {
        None => Err(AppError::NotFound("Tenant not found".to_owned())),
        Some(false) => Err(AppError::BadRequest("Tenant is suspended".to_owned())),
        Some(true) => {
            if email_taken {
                Err(AppError::Conflict("Email already registered".to_owned()))
            } else {
                Ok(())
            }
        },
    }
}

/// The refusal of a sign-in that names no account: the same for an unknown
/// tenant, an unknown user, a missing password identity and a wrong
/// password, so that none of them can be told apart.
pub open spec fn invalid_credentials(r: Result<(), AppError>) -> bool {
    r matches Err(AppError::AuthError(m)) && m@ == "Invalid credentials"@
}

/// The checks of a sign-in against the store, up to the password: the
/// tenant must exist and be active; the user must exist and be active
/// (`None` when not found).
pub fn check_login_account(tenant_active: Option<bool>, user_active: Option<bool>) -> (r: Result<
    (),
    AppError,
>)
    ensures
        tenant_active is None ==> invalid_credentials(r),
        tenant_active == Some(false) ==> (r matches Err(AppError::BadRequest(m)) && m@
            == "Tenant is suspended"@),
        tenant_active == Some(true) && user_active is None ==> invalid_credentials(r),
        tenant_active == Some(true) && user_active == Some(false) ==> (r matches Err(
            AppError::AuthError(m),
        ) && m@ == "Account is disabled"@),
        r is Ok <==> (tenant_active == Some(true) && user_active == Some(true)),
{
    match tenant_active {
        None => return Err(AppError::AuthError("Invalid credentials".to_owned())),
        Some(false) => return Err(AppError::BadRequest("Tenant is suspended".to_owned())),
        Some(true) => {},
    }
    match user_active {
        None => Err(AppError::AuthError("Invalid credentials".to_owned())),
        Some(false) => Err(AppError::AuthError("Account is disabled".to_owned())),
        Some(true) => Ok(()),
    }
}

/// The check of the password of a sign-in against the user's password
/// identity (`None` when the user has none): a wrong password, or no
/// identity, is refused as invalid credentials; a stored hash that cannot
/// be read is an internal error.
pub fn check_login_password(password: &str, identity_hash: Option<&str>) -> (r: Result<(), AppError>)
    ensures
        identity_hash is None ==> invalid_credentials(r),
        identity_hash matches Some(h) ==> match crate::password::argon2_outcome(
            password.spec_bytes(),
            h@,
        ) {
            Ok(true) => r is Ok,
            Ok(false) => invalid_credentials(r),
            Err(e) => r matches Err(AppError::InternalError(m)) && m@ == "Invalid password hash: "@
                + e,
        },
{
    let h = match identity_hash {
        None => return Err(AppError::AuthError("Invalid credentials".to_owned())),
        Some(h) => h,
    };
    match verify_password(password, h) {
        Ok(true) => Ok(()),
        Ok(false) => Err(AppError::AuthError("Invalid credentials".to_owned())),
        Err(e) => Err(
            AppError::InternalError(
                string_of(
                    &crate::text::concat_chars(
                        &chars_of("Invalid password hash: "),
                        &chars_of(e.as_str()),
                    ),
                ),
            ),
        ),
    }
}

/// A refresh session as stored.
#[derive(Clone, Debug, PartialEq, Eq)]
pub struct RefreshSession {
    pub session_id: u128,
    pub user_id: u128,
    pub token_hash: String,
    pub expiry_utc: i64,
    pub revoked: bool,
}

/// A session can still be used at `now`: it is not revoked and has not
/// expired.
pub open spec fn session_usable(s: RefreshSession, now: i64) -> bool {
    !s.revoked && now < s.expiry_utc
}

impl RefreshSession {
    /// A session for the refresh token whose digest is `token_hash`, created
    /// at `now` and valid for `expiry_days` days.
    pub fn new(session_id: u128, user_id: u128, token_hash: String, now: i64, expiry_days: i64) -> (s:
        Self)
        requires
            i64::MIN <= expiry_days * 86400 <= i64::MAX,
            i64::MIN <= now + expiry_days * 86400 <= i64::MAX,
        ensures
            s.session_id == session_id,
            s.user_id == user_id,
            s.token_hash == token_hash,
            s.expiry_utc == now + expiry_days * 86400,
            !s.revoked,
    {
        RefreshSession {
            session_id,
            user_id,
            token_hash,
            expiry_utc: now + expiry_days * 86400,
            revoked: false,
        }
    }

    /// Whether the session can still be used at `now`.
    pub fn is_valid(&self, now: i64) -> (b: bool)
        ensures
            b == session_usable(*self, now),
    {
        !self.revoked && now < self.expiry_utc
    }
}

/// The digest under which a refresh token's session is stored and found.
pub fn token_digest(token: &str) -> (h: String)
    ensures
        h@ == hex_lower(sha256_of(token.spec_bytes())),
{
    sha256_hex(token)
}

/// The checks of a refresh: the token's session must exist, belong to the
/// token's user, and be usable at `now`.
pub fn check_refresh_session(session: Option<&RefreshSession>, token_user: u128, now: i64) -> (r:
    Result<(), AppError>)
    ensures
        session is None ==> (r matches Err(AppError::AuthError(m)) && m@ == "Session not found"@),
        session matches Some(s) && s.user_id != token_user ==> (r matches Err(AppError::AuthError(m))
            && m@ == "Session mismatch"@),
        session matches Some(s) && s.user_id == token_user && !session_usable(*s, now) ==> (r matches Err(
            AppError::AuthError(m),
        ) && m@ == "Session expired or revoked"@),
        r is Ok <==> (session matches Some(s) && s.user_id == token_user && session_usable(*s, now)),
{
    let s = match session {
        None => return Err(AppError::AuthError("Session not found".to_owned())),
        Some(s) => s,
    };
    if s.user_id != token_user {
        return Err(AppError::AuthError("Session mismatch".to_owned()));
    }
    if !s.is_valid(now) {
        return Err(AppError::AuthError("Session expired or revoked".to_owned()));
    }
    Ok(())
}

/// The check of the user of a refresh (`None` when not found).
pub fn check_refresh_user(user_active: Option<bool>) -> (r: Result<(), AppError>)
    ensures
        user_active is None ==> (r matches Err(AppError::AuthError(m)) && m@ == "User not found"@),
        user_active == Some(false) ==> (r matches Err(AppError::AuthError(m)) && m@
            == "Account is disabled"@),
        r is Ok <==> user_active == Some(true),
{
    match user_active {
        None => Err(AppError::AuthError("User not found".to_owned())),
        Some(false) => Err(AppError::AuthError("Account is disabled".to_owned())),
        Some(true) => Ok(()),
    }
}

/// The user id of a refresh token's subject.
pub fn token_subject(sub: &str) -> (r: Result<u128, AppError>)
    ensures
        match crate::ids::uuid_value(sub@) {
            Some(v) => r == Ok::<u128, AppError>(v),
            None => r matches Err(AppError::AuthError(m)) && m@ == "Invalid token subject"@,
        },
{
    match crate::ids::parse_id(sub) {
        Some(v) => Ok(v),
        None => Err(AppError::AuthError("Invalid token subject".to_owned())),
    }
}

/// Seconds for which an access token lives, from its lifetime in minutes.
pub fn access_expires_in(access_minutes: i64) -> (s: i64)
    requires
        i64::MIN <= access_minutes * 60 <= i64::MAX,
    ensures
        s == access_minutes * 60,
{
    access_minutes * 60
}

/// The answer to a sign-out, which succeeds whatever the token.
pub fn logout_message() -> (m: MessageResponse)
    ensures
        m.message@ == "Logged out successfully"@,
{
    MessageResponse { message: "Logged out successfully".to_owned() }
}

/// A user account as it is created (active).
#[derive(Clone, Debug, PartialEq, Eq)]
pub struct NewUser {
    pub user_id: u128,
    pub tenant_id: u128,
    pub email: String,
    pub display_name: Option<String>,
}

/// The password identity of a user: the Argon2 hash of its password.
#[derive(Clone, Debug, PartialEq, Eq)]
pub struct PasswordIdentity {
    pub user_id: u128,
    pub password_hash: String,
}

/// A new user of `tenant_id` with `email` and `display_name`, under a new
/// random id, and its password identity for `password`; `None` when hashing
/// the password fails (only for a password over `0xFFFFFFFF` bytes).
pub fn new_user_with_password(
    tenant_id: u128,
    email: String,
    display_name: Option<String>,
    password: &str,
) -> (r: Option<(NewUser, PasswordIdentity)>)
    ensures
        hashable(password@) ==> r is Some,
        r matches Some((u, i)) ==> {
            &&& is_random_uuid(u.user_id)
            &&& u.tenant_id == tenant_id
            &&& u.email == email
            &&& u.display_name == display_name
            &&& i.user_id == u.user_id
            &&& accepts(password.spec_bytes(), i.password_hash@)
        },
{
    let hash = match hash_password(password) {
        Some(h) => h,
        None => return None,
    };
    let user_id = new_id();
    Some((NewUser { user_id, tenant_id, email, display_name }, PasswordIdentity { user_id, password_hash: hash }))
}

/// The account and identity that a sign-up of `req` in the tenant
/// `tenant_id` creates: the email as given, the display name given or the
/// part of the email before its first `@`, and the password's hash.
pub fn signup_records(tenant_id: u128, req: &RegisterRequest) -> (r: Option<(NewUser, PasswordIdentity)>)
    ensures
        hashable(req.password@) ==> r is Some,
        r matches Some((u, i)) ==> {
            &&& is_random_uuid(u.user_id)
            &&& u.tenant_id == tenant_id
            &&& u.email@ == req.email@
            &&& u.display_name matches Some(d) && d@ == (match req.display_name {
                Some(g) => g@,
                None => split_on(req.email@, '@')[0],
            })
            &&& i.user_id == u.user_id
            &&& accepts(vstd::utf8::encode_utf8(req.password@), i.password_hash@)
        },
{
    let name = default_display_name(&req.display_name, req.email.as_str());
    new_user_with_password(tenant_id, req.email.clone(), Some(name), req.password.as_str())
}

/// The answer carrying a user's tokens: bearer tokens, the access token
/// living `expires_in` seconds, and the user's id, email, name and tenant.
pub fn auth_response(access_token: String, refresh_token: String, expires_in: i64, user: &NewUser) -> (r:
    AuthResponse)
    ensures
        r.access_token == access_token,
        r.refresh_token == refresh_token,
        r.token_type@ == "Bearer"@,
        r.expires_in == expires_in,
        r.user.user_id == user.user_id,
        r.user.email@ == user.email@,
        r.user.display_name == user.display_name,
        r.user.tenant_id == user.tenant_id,
{
    AuthResponse {
        access_token,
        refresh_token,
        token_type: "Bearer".to_owned(),
        expires_in,
        user: UserResponse {
            user_id: user.user_id,
            email: user.email.clone(),
            display_name: user.display_name.clone(),
            tenant_id: user.tenant_id,
        },
    }
}

/// A new session, under a new random id, of `user_id` for the refresh
/// token `refresh_token` issued at `now` and valid for `expiry_days` days:
/// it is found by the token's digest.
pub fn issue_session(user_id: u128, refresh_token: &str, now: i64, expiry_days: i64) -> (s: RefreshSession)
    requires
        i64::MIN <= expiry_days * 86400 <= i64::MAX,
        i64::MIN <= now + expiry_days * 86400 <= i64::MAX,
    ensures
        is_random_uuid(s.session_id),
        s.user_id == user_id,
        s.token_hash@ == hex_lower(sha256_of(refresh_token.spec_bytes())),
        s.expiry_utc == now + expiry_days * 86400,
        !s.revoked,
{
    let id = new_id();
    RefreshSession::new(id, user_id, token_digest(refresh_token), now, expiry_days)
}

/// A refresh rotates the session: the session used is revoked, and a new
/// one of the same user is issued for the new refresh token.
pub fn rotate_session(
    used: &RefreshSession,
    new_refresh_token: &str,
    now: i64,
    expiry_days: i64,
) -> (r: (RefreshSession, RefreshSession))
    requires
        i64::MIN <= expiry_days * 86400 <= i64::MAX,
        i64::MIN <= now + expiry_days * 86400 <= i64::MAX,
    ensures
        r.0.session_id == used.session_id,
        r.0.user_id == used.user_id,
        r.0.token_hash == used.token_hash,
        r.0.expiry_utc == used.expiry_utc,
        r.0.revoked,
        is_random_uuid(r.1.session_id),
        r.1.user_id == used.user_id,
        r.1.token_hash@ == hex_lower(sha256_of(new_refresh_token.spec_bytes())),
        r.1.expiry_utc == now + expiry_days * 86400,
        !r.1.revoked,
{
    let revoked = RefreshSession {
        session_id: used.session_id,
        user_id: used.user_id,
        token_hash: used.token_hash.clone(),
        expiry_utc: used.expiry_utc,
        revoked: true,
    };
    (revoked, issue_session(used.user_id, new_refresh_token, now, expiry_days))
}

/// A refresh token can be used once: after its session is rotated the old
/// session is refused at every time, and the new one is usable until its
/// expiry.
pub proof fn law_refresh_rotates_session(
    used: RefreshSession,
    old: RefreshSession,
    new: RefreshSession,
    now: i64,
    t: i64,
)
    requires
        old.session_id == used.session_id,
        old.revoked,
        !new.revoked,
        now <= t < new.expiry_utc,
    ensures
        !session_usable(old, t),
        session_usable(new, t),
{
}

/// A session is usable only before its expiry: once expired it stays so.
pub proof fn law_expired_session_stays_expired(s: RefreshSession, now: i64, later: i64)
    requires
        !session_usable(s, now),
        now <= later,
    ensures
        !session_usable(s, later),
{
}

} // verus!
