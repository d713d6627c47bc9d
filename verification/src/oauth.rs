//! Sign-in with Google: the authorization URL, the callback's checks, the
//! reading of Google's ID token, and the choice between signing in an
//! existing user, linking a Google identity, and creating a user.
//!
//! The calls to Google and to the store are the caller's; what is sent and
//! what is decided from the replies is made here.
use vstd::prelude::*;

use vstd::string::StringSliceAdditionalSpecFns;

use crate::digest::{percent_encoded, url_encode, utf8_text};
use crate::error::AppError;
use crate::ids::{is_random_uuid, new_id};
use crate::secrets::{base64_url_bytes, base64_url_decode, base64_url_encode, base64_url_of};
use crate::text::{chars_eq, chars_of, concat_chars, split_chars, split_on, string_of};

verus! {

broadcast use vstd::string::group_string_axioms;

/// Query that starts the sign-in: the tenant, and where to send the user
/// back.
#[derive(Clone, Debug, PartialEq, Eq)]
pub struct GoogleOAuthQuery {
    pub tenant_id: u128,
    pub redirect_uri: Option<String>,
}

/// Query of Google's callback.
#[derive(Clone, Debug, PartialEq, Eq)]
pub struct GoogleCallbackQuery {
    pub code: Option<String>,
    pub state: Option<String>,
    pub error: Option<String>,
}

/// Request to sign in with a Google ID token directly.
#[derive(Clone, Debug, PartialEq, Eq)]
pub struct GoogleTokenRequest {
    pub tenant_id: u128,
    pub id_token: String,
}

/// Response after a Google sign-in.
#[derive(Clone, Debug, PartialEq, Eq)]
pub struct GoogleAuthResponse {
    pub user_id: u128,
    pub access_token: String,
    pub refresh_token: String,
    pub token_type: String,
    pub expires_in: i64,
    pub is_new_user: bool,
}

/// The refusal of a setting that is not configured: `<name> not configured`.
pub fn require_setting(value: Option<&str>, name: &str) -> (r: Result<String, AppError>)
    ensures
        match value {
            Some(v) => r matches Ok(x) && x@ == v@,
            None => r matches Err(AppError::ConfigError(m)) && m@ == name@ + " not configured"@,
        },
{
    match value {
        Some(v) => Ok(v.to_owned()),
        None => Err(
            AppError::ConfigError(string_of(&concat_chars(&chars_of(name), &chars_of(" not configured")))),
        ),
    }
}

/// The `state` parameter that carries the flow's state: the URL-safe
/// base64 of its JSON text.
pub fn encode_state(state_json: &str) -> (s: String)
    ensures
        s@ == base64_url_of(state_json.spec_bytes()),
{
    base64_url_encode(state_json.as_bytes())
}

/// Google's authorization URL for the app `client_id`, returning to
/// `redirect_uri` with `state`; each value is percent-encoded.
pub fn authorization_url(client_id: &str, redirect_uri: &str, state: &str) -> (u: String)
    ensures
        u@ == "https://accounts.google.com/o/oauth2/v2/auth?client_id="@ + percent_encoded(
            client_id.spec_bytes(),
        ) + "&redirect_uri="@ + percent_encoded(redirect_uri.spec_bytes())
            + "&response_type=code&scope=openid%20email%20profile&state="@ + percent_encoded(
            state.spec_bytes(),
        ) + "&prompt=select_account"@,
{
    let a = chars_of("https://accounts.google.com/o/oauth2/v2/auth?client_id=");
    let b = chars_of(url_encode(client_id).as_str());
    let c = chars_of("&redirect_uri=");
    let d = chars_of(url_encode(redirect_uri).as_str());
    let e = chars_of("&response_type=code&scope=openid%20email%20profile&state=");
    let f = chars_of(url_encode(state).as_str());
    let g = chars_of("&prompt=select_account");
    let r = concat_chars(
        &concat_chars(&concat_chars(&concat_chars(&concat_chars(&concat_chars(&a, &b), &c), &d), &e), &f),
        &g,
    );
    string_of(&r)
}

/// What a callback asks for.
#[derive(Clone, Debug, PartialEq, Eq)]
pub enum CallbackStep {
    /// Google reported an error: send the user to this error page.
    ShowError(String),
    /// Exchange `code`, with the flow's encoded `state`.
    Exchange { code: String, state: String },
}

/// The reading of Google's callback: an error is shown on
/// `/auth/error?error=<error>`; otherwise a code and a state are required.
pub fn read_callback(q: &GoogleCallbackQuery) -> (r: Result<CallbackStep, AppError>)
    ensures
        match q.error {
            Some(e) => r matches Ok(CallbackStep::ShowError(u)) && u@ == "/auth/error?error="@
                + percent_encoded(vstd::utf8::encode_utf8(e@)),
            None => match (q.code, q.state) {
                (None, _) => r matches Err(AppError::BadRequest(m)) && m@
                    == "Missing authorization code"@,
                (Some(_), None) => r matches Err(AppError::BadRequest(m)) && m@
                    == "Missing state parameter"@,
                (Some(c), Some(s)) => r matches Ok(CallbackStep::Exchange { code, state }) && code@
                    == c@ && state@ == s@,
            },
        },
{
    match &q.error {
        Some(e) => {
            let u = concat_chars(&chars_of("/auth/error?error="), &chars_of(url_encode(e.as_str()).as_str()));
            return Ok(CallbackStep::ShowError(string_of(&u)));
        },
        None => {},
    }
    let code = match &q.code {
        Some(c) => c.clone(),
        None => return Err(AppError::BadRequest("Missing authorization code".to_owned())),
    };
    let state = match &q.state {
        Some(s) => s.clone(),
        None => return Err(AppError::BadRequest("Missing state parameter".to_owned())),
    };
    Ok(CallbackStep::Exchange { code, state })
}

/// The text that URL-safe base64 `s` carries, if it carries UTF-8 text.
pub open spec fn base64_text(s: Seq<char>) -> Option<Seq<char>> {
    match base64_url_bytes(s) {
        Some(b) => if vstd::utf8::valid_utf8(b) {
            Some(vstd::utf8::decode_utf8(b))
        } else {
            None
        },
        None => None,
    }
}

/// The text that URL-safe unpadded base64 `s` carries, if any.
pub fn decode_base64_text(s: &str) -> (r: Option<String>)
    ensures
        match base64_text(s@) {
            Some(t) => r matches Some(x) && x@ == t,
            None => r is None,
        },
{
    match base64_url_decode(s) {
        Some(b) => utf8_text(b),
        None => None,
    }
}

/// The JSON text of the flow's state, from the callback's `state`.
pub fn decode_state(encoded: &str) -> (r: Result<String, AppError>)
    ensures
        match base64_text(encoded@) {
            Some(t) => r matches Ok(x) && x@ == t,
            None => r matches Err(AppError::BadRequest(m)) && m@ == "Invalid state parameter"@,
        },
{
    match decode_base64_text(encoded) {
        Some(t) => Ok(t),
        None => Err(AppError::BadRequest("Invalid state parameter".to_owned())),
    }
}

/// The JSON text of the claims of a Google ID token: the token must have
/// three `.`-separated parts, and the second must be URL-safe base64 of
/// UTF-8 text.
pub fn id_token_payload(id_token: &str) -> (r: Result<String, AppError>)
    ensures
        split_on(id_token@, '.').len() != 3 ==> (r matches Err(AppError::BadRequest(m)) && m@
            == "Invalid ID token format"@),
        split_on(id_token@, '.').len() == 3 ==> match base64_text(split_on(id_token@, '.')[1]) {
            Some(t) => r matches Ok(x) && x@ == t,
            None => r matches Err(AppError::BadRequest(m)) && m@
                == "Failed to decode token payload"@,
        },
{
    let parts = split_chars(&chars_of(id_token), '.');
    if parts.len() != 3 {
        assert(parts@.map_values(|p: Vec<char>| p@).len() == parts@.len());
        return Err(AppError::BadRequest("Invalid ID token format".to_owned()));
    }
    assert(parts@.map_values(|p: Vec<char>| p@)[1] == parts@[1]@);
    let middle = string_of(&parts[1]);
    match decode_base64_text(middle.as_str()) {
        Some(t) => Ok(t),
        None => Err(AppError::BadRequest("Failed to decode token payload".to_owned())),
    }
}

/// The token must be meant for this app.
pub fn check_audience(aud: &str, client_id: &str) -> (r: Result<(), AppError>)
    ensures
        r is Ok <==> aud@ == client_id@,
        r is Err ==> (r matches Err(AppError::AuthError(m)) && m@ == "Invalid token audience"@),
{
    if !chars_eq(&chars_of(aud), &chars_of(client_id)) {
        return Err(AppError::AuthError("Invalid token audience".to_owned()));
    }
    Ok(())
}

/// The email of the token's claims, which Google must provide.
pub fn claims_email(email: &Option<String>) -> (r: Result<String, AppError>)
    ensures
        match email {
            Some(e) => r matches Ok(x) && x@ == e@,
            None => r matches Err(AppError::BadRequest(m)) && m@ == "Email not provided by Google"@,
        },
{
    match email {
        Some(e) => Ok(e.clone()),
        None => Err(AppError::BadRequest("Email not provided by Google".to_owned())),
    }
}

/// How a Google sign-in is carried out in a tenant.
#[derive(Clone, Copy, Debug, PartialEq, Eq, Structural)]
pub enum GoogleAccountAction {
    /// The Google identity is known: sign its user in.
    SignInIdentityUser,
    /// A user has the email: link the Google identity to that user and mark
    /// the email verified.
    LinkToEmailUser,
    /// Create a user with a verified email and the Google identity.
    CreateUser,
}

/// The way a Google sign-in goes, from what the store holds: the known
/// identity first, then a user with the email, else a new user.
pub fn google_account_action(identity_known: bool, email_user_exists: bool) -> (a: GoogleAccountAction)
    ensures
        identity_known ==> a == GoogleAccountAction::SignInIdentityUser,
        !identity_known && email_user_exists ==> a == GoogleAccountAction::LinkToEmailUser,
        !identity_known && !email_user_exists ==> a == GoogleAccountAction::CreateUser,
{
    if identity_known {
        GoogleAccountAction::SignInIdentityUser
    } else if email_user_exists {
        GoogleAccountAction::LinkToEmailUser
    } else {
        GoogleAccountAction::CreateUser
    }
}

/// A Google identity of a user: the account's subject.
#[derive(Clone, Debug, PartialEq, Eq)]
pub struct GoogleIdentity {
    pub user_id: u128,
    pub subject: String,
}

/// A user created by a Google sign-in, whose email Google has verified.
#[derive(Clone, Debug, PartialEq, Eq)]
pub struct GoogleNewUser {
    pub user_id: u128,
    pub tenant_id: u128,
    pub email: String,
    pub display_name: Option<String>,
    pub email_verified: bool,
}

/// What a Google ID-token sign-in writes.
#[derive(Clone, Debug, PartialEq, Eq)]
pub enum GoogleSignInWrites {
    /// The identity is known: nothing; sign in its user.
    KnownIdentity,
    /// Link the identity to the user with the email, and mark that user's
    /// email verified.
    LinkAndVerify { identity: GoogleIdentity },
    /// Create the user and its identity.
    Create { user: GoogleNewUser, identity: GoogleIdentity },
}

/// The writes of an ID-token sign-in in `tenant_id` for the Google account
/// `subject` with `email` and `name`, given the user of the known identity
/// (`identity_user`) and the user with the email (`email_user`): the known
/// identity first, then the email's user, else a new user (under a new
/// random id) with a verified email. Gives the writes, the user signed in,
/// and whether it is new.
pub fn google_sign_in_writes(
    tenant_id: u128,
    identity_user: Option<u128>,
    email_user: Option<u128>,
    subject: &str,
    email: String,
    name: Option<String>,
) -> (r: (GoogleSignInWrites, u128, bool))
    ensures
        match identity_user {
            Some(u) => r.0 == GoogleSignInWrites::KnownIdentity && r.1 == u && !r.2,
            None => match email_user {
                Some(u) => r.0 matches GoogleSignInWrites::LinkAndVerify { identity } && identity.user_id == u
                    && identity.subject@ == subject@ && r.1 == u && !r.2,
                None => r.0 matches GoogleSignInWrites::Create { user, identity } && is_random_uuid(user.user_id)
                    && user.tenant_id == tenant_id && user.email == email && user.display_name == name
                    && user.email_verified && identity.user_id == user.user_id && identity.subject@ == subject@
                    && r.1 == user.user_id && r.2,
            },
        },
{
    match identity_user {
        Some(u) => (GoogleSignInWrites::KnownIdentity, u, false),
        None => match email_user {
            Some(u) => (
                GoogleSignInWrites::LinkAndVerify { identity: GoogleIdentity { user_id: u, subject: subject.to_owned() } },
                u,
                false,
            ),
            None => {
                let id = new_id();
                (
                    GoogleSignInWrites::Create {
                        user: GoogleNewUser { user_id: id, tenant_id, email, display_name: name, email_verified: true },
                        identity: GoogleIdentity { user_id: id, subject: subject.to_owned() },
                    },
                    id,
                    true,
                )
            },
        },
    }
}

/// Whether the sign-in created the user.
pub open spec fn is_new_user(a: GoogleAccountAction) -> bool {
    a == GoogleAccountAction::CreateUser
}

/// The text of a boolean as `Display` writes it.
pub open spec fn bool_text(b: bool) -> Seq<char> {
    if b {
        "true"@
    } else {
        "false"@
    }
}

/// Where the user is sent after a sign-in: the requested URI (by default
/// `/`) with the tokens (percent-encoded), the user id and whether the user
/// is new.
pub fn signed_in_redirect(
    redirect_uri: Option<&str>,
    access_token: &str,
    refresh_token: &str,
    user_id: &str,
    new_user: bool,
) -> (u: String)
    ensures
        u@ == (match redirect_uri {
            Some(r) => r@,
            None => "/"@,
        }) + "?access_token="@ + percent_encoded(access_token.spec_bytes()) + "&refresh_token="@
            + percent_encoded(refresh_token.spec_bytes()) + "&user_id="@ + user_id@
            + "&is_new_user="@ + bool_text(new_user),
{
    let base = match redirect_uri {
        Some(r) => chars_of(r),
        None => chars_of("/"),
    };
    let flag = if new_user {
        chars_of("true")
    } else {
        chars_of("false")
    };
    let r = concat_chars(&base, &chars_of("?access_token="));
    let r = concat_chars(&r, &chars_of(url_encode(access_token).as_str()));
    let r = concat_chars(&r, &chars_of("&refresh_token="));
    let r = concat_chars(&r, &chars_of(url_encode(refresh_token).as_str()));
    let r = concat_chars(&r, &chars_of("&user_id="));
    let r = concat_chars(&r, &chars_of(user_id));
    let r = concat_chars(&r, &chars_of("&is_new_user="));
    let r = concat_chars(&r, &flag);
    string_of(&r)
}

/// The flow's state must come back as it was stored in the cookie.
pub fn check_oauth_state(stored: Option<&str>, received: &str) -> (r: Result<(), AppError>)
    ensures
        r is Ok <==> (stored matches Some(s) && s@ == received@),
        r is Err ==> (r matches Err(AppError::BadRequest(m)) && m@ == "Invalid OAuth state"@),
{
    match stored {
        Some(s) => {
            if chars_eq(&chars_of(s), &chars_of(received)) {
                Ok(())
            } else {
                Err(AppError::BadRequest("Invalid OAuth state".to_owned()))
            }
        },
        None => Err(AppError::BadRequest("Invalid OAuth state".to_owned())),
    }
}

/// The PKCE verifier kept in the cookie, which the callback requires.
pub fn code_verifier_of(cookie: Option<&str>) -> (r: Result<String, AppError>)
    ensures
        match cookie {
            Some(v) => r matches Ok(x) && x@ == v@,
            None => r matches Err(AppError::BadRequest(m)) && m@ == "Missing code verifier"@,
        },
{
    match cookie {
        Some(v) => Ok(v.to_owned()),
        None => Err(AppError::BadRequest("Missing code verifier".to_owned())),
    }
}

/// Google's authorization URL for the PKCE flow (values as given).
pub fn pkce_authorization_url(client_id: &str, redirect_uri: &str, state: &str, challenge: &str) -> (u:
    String)
    ensures
        u@ == "https://accounts.google.com/o/oauth2/v2/auth?client_id="@ + client_id@
            + "&redirect_uri="@ + redirect_uri@
            + "&response_type=code&scope=openid%20email%20profile&state="@ + state@
            + "&code_challenge="@ + challenge@ + "&code_challenge_method=S256"@,
{
    let r = concat_chars(&chars_of("https://accounts.google.com/o/oauth2/v2/auth?client_id="), &chars_of(client_id));
    let r = concat_chars(&r, &chars_of("&redirect_uri="));
    let r = concat_chars(&r, &chars_of(redirect_uri));
    let r = concat_chars(&r, &chars_of("&response_type=code&scope=openid%20email%20profile&state="));
    let r = concat_chars(&r, &chars_of(state));
    let r = concat_chars(&r, &chars_of("&code_challenge="));
    let r = concat_chars(&r, &chars_of(challenge));
    let r = concat_chars(&r, &chars_of("&code_challenge_method=S256"));
    string_of(&r)
}

/// Google must have verified the account's email.
pub fn check_email_verified(verified: bool) -> (r: Result<(), AppError>)
    ensures
        r is Ok <==> verified,
        r is Err ==> (r matches Err(AppError::BadRequest(m)) && m@
            == "Google account email not verified"@),
{
    if !verified {
        return Err(AppError::BadRequest("Google account email not verified".to_owned()));
    }
    Ok(())
}

/// The frontend page that receives the tokens of a PKCE sign-in.
pub fn frontend_redirect(frontend_url: &str, access_token: &str, refresh_token: &str) -> (u: String)
    ensures
        u@ == frontend_url@ + "?access_token="@ + access_token@ + "&refresh_token="@ + refresh_token@,
{
    let r = concat_chars(&chars_of(frontend_url), &chars_of("?access_token="));
    let r = concat_chars(&r, &chars_of(access_token));
    let r = concat_chars(&r, &chars_of("&refresh_token="));
    let r = concat_chars(&r, &chars_of(refresh_token));
    string_of(&r)
}

/// What Google reports of the signed-in account.
#[derive(Clone, Debug, PartialEq, Eq)]
pub struct GoogleUserInfo {
    pub id: String,
    pub email: String,
    pub verified_email: bool,
    pub name: Option<String>,
}

/// A user as the Google sign-in reads and writes it.
#[derive(Clone, Debug, PartialEq, Eq)]
pub struct SocialUser {
    pub email: String,
    pub name: Option<String>,
    pub google_id: Option<String>,
    pub verified: bool,
}

/// What a Google sign-in writes to the user with the account's email.
#[derive(Clone, Debug, PartialEq, Eq)]
pub enum GoogleUserWrite {
    /// The user exists and is linked to a Google account already: no write.
    Keep,
    /// The user exists without a Google account: link this one.
    SetGoogleId(String),
    /// No user has the email: insert this one.
    Insert(SocialUser),
}

/// The write of a Google sign-in, given the user with the account's email
/// (`None` when there is none): refused when Google has not verified the
/// email; an existing user gets the Google id only when it has none; a new
/// user is created with the email, the name, the Google id, and a verified
/// email.
pub fn google_user_write(existing: Option<&SocialUser>, info: &GoogleUserInfo) -> (r: Result<
    GoogleUserWrite,
    AppError,
>)
    ensures
        !info.verified_email ==> (r matches Err(AppError::BadRequest(m)) && m@
            == "Google account email not verified"@),
        info.verified_email ==> match existing {
            Some(u) => if u.google_id is None {
                r matches Ok(GoogleUserWrite::SetGoogleId(g)) && g@ == info.id@
            } else {
                r == Ok::<GoogleUserWrite, AppError>(GoogleUserWrite::Keep)
            },
            None => r matches Ok(GoogleUserWrite::Insert(n)) && n.email@ == info.email@ && n.name
                == info.name && (n.google_id matches Some(g) && g@ == info.id@) && n.verified,
        },
{
    match check_email_verified(info.verified_email) {
        Err(e) => return Err(e),
        Ok(()) => {},
    }
    match existing {
        Some(u) => {
            if u.google_id.is_none() {
                Ok(GoogleUserWrite::SetGoogleId(info.id.clone()))
            } else {
                Ok(GoogleUserWrite::Keep)
            }
        },
        None => Ok(
            GoogleUserWrite::Insert(
                SocialUser {
                    email: info.email.clone(),
                    name: info.name.clone(),
                    google_id: Some(info.id.clone()),
                    verified: true,
                },
            ),
        ),
    }
}

/// The cookies of the flow, removed once the sign-in is done: the state and
/// the PKCE verifier.
pub fn finished_flow_cookies() -> (v: Vec<String>)
    ensures
        v@.len() == 2,
        v@[0]@ == "oauth_state"@,
        v@[1]@ == "code_verifier"@,
{
    let mut v: Vec<String> = Vec::new();
    v.push("oauth_state".to_owned());
    v.push("code_verifier".to_owned());
    v
}

} // verus!
