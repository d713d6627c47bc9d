//! Invitations to join a tenant: their state over time, the checks made when
//! one is created or accepted, and the links that carry them.
//!
//! An invitation is found by the SHA-256 digest of its token; it is pending
//! until accepted or until its expiry passes. Times are seconds since the
//! Unix epoch.
use vstd::prelude::*;

use vstd::utf8::encode_utf8;

use crate::digest::{hex_lower, sha256_hex, sha256_of};
use crate::error::AppError;
use crate::grants::OrgAssignment;
use crate::ids::{is_random_uuid, new_id, new_id_text, uuid_hyphenated};
use crate::password::{accepts, hashable};
use crate::user_auth::{issue_session, new_user_with_password, NewUser, PasswordIdentity, RefreshSession};
use crate::text::{chars_of, concat_chars, string_of, utf8_len};

verus! {

broadcast use vstd::string::group_string_axioms;

/// Hours for which an invitation made through the REST endpoint is valid,
/// unless the request says otherwise (7 days).
pub const DEFAULT_EXPIRY_HOURS: i64 = 168;

/// Hours for which an invitation made through the RPC endpoint is valid,
/// unless the request says otherwise (3 days).
pub const RPC_DEFAULT_EXPIRY_HOURS: i32 = 72;

/// An invitation as stored.
#[derive(Clone, Debug, PartialEq, Eq)]
pub struct InvitationRecord {
    pub invitation_id: u128,
    pub tenant_id: u128,
    pub email: String,
    pub org_node_id: u128,
    pub role_id: u128,
    pub token_hash: String,
    pub expiry_utc: i64,
    pub created_utc: i64,
    pub accepted_utc: Option<i64>,
    pub created_by_user_id: u128,
}

/// Where an invitation stands.
#[derive(Clone, Copy, Debug, PartialEq, Eq, Structural)]
pub enum InvitationStatus {
    Pending,
    Accepted,
    Expired,
}

/// The state of `inv` at `now`: accepted once accepted, expired once its
/// expiry has passed, pending before.
pub open spec fn status_at(inv: InvitationRecord, now: i64) -> InvitationStatus {
    if inv.accepted_utc is Some {
        InvitationStatus::Accepted
    } else if inv.expiry_utc < now {
        InvitationStatus::Expired
    } else {
        InvitationStatus::Pending
    }
}

impl InvitationRecord {
    /// The state of the invitation at `now`.
    pub fn status(&self, now: i64) -> (s: InvitationStatus)
        ensures
            s == status_at(*self, now),
            self.accepted_utc is Some ==> s == InvitationStatus::Accepted,
            self.accepted_utc is None && now <= self.expiry_utc ==> s == InvitationStatus::Pending,
            self.accepted_utc is None && now > self.expiry_utc ==> s == InvitationStatus::Expired,
    {
        if self.accepted_utc.is_some() {
            InvitationStatus::Accepted
        } else if self.expiry_utc < now {
            InvitationStatus::Expired
        } else {
            InvitationStatus::Pending
        }
    }

    /// Whether the invitation can still be accepted at `now`.
    pub fn is_valid(&self, now: i64) -> (b: bool)
        ensures
            b == (status_at(*self, now) == InvitationStatus::Pending),
            b == (self.accepted_utc is None && now <= self.expiry_utc),
    {
        self.accepted_utc.is_none() && !(self.expiry_utc < now)
    }
}

/// A new invitation token (the text of a random UUID) and the digest under
/// which the invitation is stored: SHA-256 of the token's bytes in lowercase
/// hexadecimal. Only the digest is kept; the token goes to the invitee.
pub fn new_invitation_token() -> (r: (String, String))
    ensures
        exists|v: u128| is_random_uuid(v) && r.0@ == uuid_hyphenated(v),
        r.1@ == hex_lower(sha256_of(encode_utf8(r.0@))),
{
    let token = new_id_text();
    let digest = sha256_hex(token.as_str());
    (token, digest)
}

/// The expiry of an invitation made at `now` for `hours` hours (a span of
/// hours is bounded as the time library bounds it, by `i64::MAX`
/// milliseconds either way).
pub fn expiry_after(now: i64, hours: i64) -> (t: i64)
    requires
        -i64::MAX <= hours * 3_600_000 <= i64::MAX,
        i64::MIN <= now + hours * 3600 <= i64::MAX,
    ensures
        t == now + hours * 3600,
{
    now + hours * 3600
}

/// The expiry of an invitation made at `now` through the REST endpoint,
/// valid for the requested hours or for the default.
pub fn rest_invitation_expiry(now: i64, requested_hours: Option<i64>) -> (t: i64)
    requires
        match requested_hours {
            Some(h) => -i64::MAX <= h * 3_600_000 <= i64::MAX && i64::MIN <= now + h * 3600
                <= i64::MAX,
            None => now + DEFAULT_EXPIRY_HOURS * 3600 <= i64::MAX,
        },
    ensures
        t == now + (match requested_hours {
            Some(h) => h,
            None => DEFAULT_EXPIRY_HOURS,
        }) * 3600,
{
    let h = match requested_hours {
        Some(h) => h,
        None => DEFAULT_EXPIRY_HOURS,
    };
    expiry_after(now, h)
}

/// The expiry of an invitation made at `now` through the RPC endpoint,
/// valid for the requested hours or for the default.
pub fn rpc_invitation_expiry(now: i64, requested_hours: Option<i32>) -> (t: i64)
    requires
        match requested_hours {
            Some(h) => i64::MIN <= now + h * 3600 <= i64::MAX,
            None => now + RPC_DEFAULT_EXPIRY_HOURS * 3600 <= i64::MAX,
        },
    ensures
        t == now + (match requested_hours {
            Some(h) => h,
            None => RPC_DEFAULT_EXPIRY_HOURS,
        }) * 3600,
{
    let h = match requested_hours {
        Some(h) => h,
        None => RPC_DEFAULT_EXPIRY_HOURS,
    };
    expiry_after(now, h as i64)
}

/// The checks of a REST invitation against what the store holds: the org
/// node and the role must belong to the tenant, and no user of the tenant
/// may have the email already.
pub fn check_new_invitation(
    tenant_id: u128,
    org_node_tenant_id: u128,
    role_tenant_id: u128,
    email_taken: bool,
) -> (r: Result<(), AppError>)
    ensures
        org_node_tenant_id != tenant_id ==> (r matches Err(AppError::BadRequest(m)) && m@
            == "Org node does not belong to specified tenant"@),
        org_node_tenant_id == tenant_id && role_tenant_id != tenant_id ==> (r matches Err(
            AppError::BadRequest(m),
        ) && m@ == "Role does not belong to specified tenant"@),
        org_node_tenant_id == tenant_id && role_tenant_id == tenant_id && email_taken ==> (r matches Err(
            AppError::Conflict(m),
        ) && m@ == "User with this email already exists in tenant"@),
        r is Ok <==> (org_node_tenant_id == tenant_id && role_tenant_id == tenant_id && !email_taken),
{
    if org_node_tenant_id != tenant_id {
        return Err(AppError::BadRequest("Org node does not belong to specified tenant".to_owned()));
    }
    if role_tenant_id != tenant_id {
        return Err(AppError::BadRequest("Role does not belong to specified tenant".to_owned()));
    }
    if email_taken {
        return Err(AppError::Conflict("User with this email already exists in tenant".to_owned()));
    }
    Ok(())
}

/// The link that carries an invitation's token: the base URL (by default
/// `http://localhost:9005`), `/auth/invitations/` and the token.
pub fn invite_url(base_url: Option<&str>, token: &str) -> (u: String)
    ensures
        u@ == (match base_url {
            Some(b) => b@,
            None => "http://localhost:9005"@,
        }) + "/auth/invitations/"@ + token@,
{
    let base = match base_url {
        Some(b) => chars_of(b),
        None => chars_of("http://localhost:9005"),
    };
    string_of(&concat_chars(&concat_chars(&base, &chars_of("/auth/invitations/")), &chars_of(token)))
}

/// Answer of a REST invitation creation: the token, shown only once, and
/// the URL that carries it.
#[derive(Clone, Debug, PartialEq, Eq)]
pub struct CreateInvitationResponse {
    pub invitation_id: u128,
    pub invite_token: String,
    pub invite_url: String,
}

/// A new invitation made through the REST endpoint at `now`: a new token,
/// of which only the digest is stored; expiry after the requested hours or
/// the default; made by the system (the nil user id); not yet accepted.
/// Gives the record to store and the answer.
pub fn new_invitation(
    tenant_id: u128,
    email: String,
    org_node_id: u128,
    role_id: u128,
    expires_in_hours: Option<i64>,
    now: i64,
    base_url: Option<&str>,
) -> (r: (InvitationRecord, CreateInvitationResponse))
    requires
        match expires_in_hours {
            Some(h) => -i64::MAX <= h * 3_600_000 <= i64::MAX && i64::MIN <= now + h * 3600
                <= i64::MAX,
            None => now + DEFAULT_EXPIRY_HOURS * 3600 <= i64::MAX,
        },
    ensures
        is_random_uuid(r.0.invitation_id),
        r.0.tenant_id == tenant_id,
        r.0.email == email,
        r.0.org_node_id == org_node_id,
        r.0.role_id == role_id,
        r.0.token_hash@ == hex_lower(sha256_of(encode_utf8(r.1.invite_token@))),
        r.0.expiry_utc == now + (match expires_in_hours {
            Some(h) => h,
            None => DEFAULT_EXPIRY_HOURS,
        }) * 3600,
        r.0.created_utc == now,
        r.0.accepted_utc is None,
        r.0.created_by_user_id == 0,
        r.1.invitation_id == r.0.invitation_id,
        exists|v: u128| is_random_uuid(v) && r.1.invite_token@ == uuid_hyphenated(v),
        r.1.invite_url@ == (match base_url {
            Some(b) => b@,
            None => "http://localhost:9005"@,
        }) + "/auth/invitations/"@ + r.1.invite_token@,
{
    let (token, digest) = new_invitation_token();
    let expiry = rest_invitation_expiry(now, expires_in_hours);
    let id = new_id();
    let url = invite_url(base_url, token.as_str());
    let record = InvitationRecord {
        invitation_id: id,
        tenant_id,
        email,
        org_node_id,
        role_id,
        token_hash: digest,
        expiry_utc: expiry,
        created_utc: now,
        accepted_utc: None,
        created_by_user_id: 0,
    };
    (record, CreateInvitationResponse { invitation_id: id, invite_token: token, invite_url: url })
}

/// Accept an invitation via its URL token: the new user's password and name.
#[derive(Clone, Debug, PartialEq, Eq)]
pub struct AcceptByTokenRequest {
    pub password: String,
    pub display_name: Option<String>,
}

/// Why a REST acceptance is refused at `now`, if it is.
pub open spec fn rest_accept_refusal(inv: InvitationRecord, password: Seq<char>, now: i64) -> Option<
    Seq<char>,
> {
    if status_at(inv, now) != InvitationStatus::Pending {
        Some("Invitation has expired or already been accepted"@)
    } else if utf8_len(password) < 8 {
        Some("Password must be at least 8 characters"@)
    } else {
        None
    }
}

/// The checks of a REST acceptance of `inv` at `now`.
pub fn check_rest_accept(inv: &InvitationRecord, req: &AcceptByTokenRequest, now: i64) -> (r: Result<
    (),
    AppError,
>)
    ensures
        match rest_accept_refusal(*inv, req.password@, now) {
            None => r is Ok,
            Some(m) => r matches Err(AppError::BadRequest(e)) && e@ == m,
        },
        r is Ok <==> (inv.accepted_utc is None && now <= inv.expiry_utc && utf8_len(req.password@) >= 8),
{
    if !inv.is_valid(now) {
        return Err(AppError::BadRequest("Invitation has expired or already been accepted".to_owned()));
    }
    if req.password.as_str().as_bytes().len() < 8 {
        return Err(AppError::BadRequest("Password must be at least 8 characters".to_owned()));
    }
    Ok(())
}

/// What an accepted invitation creates, and the invitation as it is then
/// stored.
#[derive(Clone, Debug, PartialEq, Eq)]
pub struct AcceptedInvitation {
    pub user: NewUser,
    pub identity: PasswordIdentity,
    pub assignment: OrgAssignment,
    pub invitation: InvitationRecord,
}

/// The records of an invitation `inv` accepted at `now` with `password` and
/// `display_name`: a new user of the invitation's tenant with its email, the
/// user's password identity, an assignment of the user to the invited org
/// node and role from `now` on, and the invitation marked accepted at `now`.
/// `None` when hashing the password fails.
pub fn accept_records(inv: &InvitationRecord, password: &str, display_name: Option<String>, now: i64) -> (r:
    Option<AcceptedInvitation>)
    ensures
        hashable(password@) ==> r is Some,
        r matches Some(a) ==> {
            &&& is_random_uuid(a.user.user_id)
            &&& a.user.tenant_id == inv.tenant_id
            &&& a.user.email@ == inv.email@
            &&& a.user.display_name == display_name
            &&& a.identity.user_id == a.user.user_id
            &&& accepts(encode_utf8(password@), a.identity.password_hash@)
            &&& is_random_uuid(a.assignment.assignment_id)
            &&& a.assignment.tenant_id == inv.tenant_id
            &&& a.assignment.user_id == a.user.user_id
            &&& a.assignment.org_node_id == inv.org_node_id
            &&& a.assignment.role_id == inv.role_id
            &&& a.assignment.start_utc == now
            &&& a.assignment.end_utc is None
            &&& a.invitation.accepted_utc == Some(now)
            &&& a.invitation.invitation_id == inv.invitation_id
            &&& a.invitation.tenant_id == inv.tenant_id
            &&& a.invitation.email@ == inv.email@
            &&& a.invitation.org_node_id == inv.org_node_id
            &&& a.invitation.role_id == inv.role_id
            &&& a.invitation.token_hash@ == inv.token_hash@
            &&& a.invitation.expiry_utc == inv.expiry_utc
            &&& a.invitation.created_utc == inv.created_utc
            &&& a.invitation.created_by_user_id == inv.created_by_user_id
        },
{
    let (user, identity) = match new_user_with_password(inv.tenant_id, inv.email.clone(), display_name, password) {
        Some(x) => x,
        None => return None,
    };
    let assignment = OrgAssignment {
        assignment_id: new_id(),
        tenant_id: inv.tenant_id,
        user_id: user.user_id,
        org_node_id: inv.org_node_id,
        role_id: inv.role_id,
        start_utc: now,
        end_utc: None,
    };
    let invitation = InvitationRecord {
        invitation_id: inv.invitation_id,
        tenant_id: inv.tenant_id,
        email: inv.email.clone(),
        org_node_id: inv.org_node_id,
        role_id: inv.role_id,
        token_hash: inv.token_hash.clone(),
        expiry_utc: inv.expiry_utc,
        created_utc: inv.created_utc,
        accepted_utc: Some(now),
        created_by_user_id: inv.created_by_user_id,
    };
    Some(AcceptedInvitation { user, identity, assignment, invitation })
}

/// A REST acceptance of the invitation `inv` found for the token (`None`
/// when no invitation has the token's digest) at `now`: refused when none
/// is found, when the invitation is no longer pending or the password is
/// too short; otherwise the records that the acceptance creates (`Ok(None)`
/// when hashing the password fails).
pub fn accept_invitation_by_token(
    inv: Option<&InvitationRecord>,
    req: &AcceptByTokenRequest,
    now: i64,
) -> (r: Result<Option<AcceptedInvitation>, AppError>)
    ensures
        inv is None ==> (r matches Err(AppError::NotFound(m)) && m@ == "Invitation not found or already used"@),
        inv matches Some(i) ==> (r is Ok <==> (i.accepted_utc is None && now <= i.expiry_utc && utf8_len(req.password@) >= 8)),
        inv matches Some(i) ==> match rest_accept_refusal(*i, req.password@, now) {
            Some(m) => r matches Err(AppError::BadRequest(e)) && e@ == m,
            None => r matches Ok(x) && (hashable(req.password@) ==> x is Some) && (x matches Some(a) ==> a.invitation.accepted_utc == Some(now)
                && a.user.tenant_id == i.tenant_id && a.user.email@ == i.email@
                && a.user.display_name == req.display_name
                && accepts(encode_utf8(req.password@), a.identity.password_hash@)
                && a.identity.user_id == a.user.user_id && a.assignment.user_id == a.user.user_id
                && a.assignment.org_node_id == i.org_node_id && a.assignment.role_id == i.role_id
                && a.assignment.tenant_id == i.tenant_id && a.invitation.invitation_id == i.invitation_id),
        },
{
    let i = match inv {
        None => return Err(AppError::NotFound("Invitation not found or already used".to_owned())),
        Some(i) => i,
    };
    match check_rest_accept(i, req, now) {
        Err(e) => Err(e),
        Ok(()) => Ok(accept_records(i, req.password.as_str(), req.display_name.clone(), now)),
    }
}

/// An accepted invitation is not accepted again: once the records of an
/// acceptance are written, the invitation's token is refused at every later
/// time.
pub proof fn law_accepted_token_refused(inv: InvitationRecord, password: Seq<char>, now: i64, later: i64)
    requires
        inv.accepted_utc is Some,
    ensures
        rest_accept_refusal(inv, password, later) == Some("Invitation has expired or already been accepted"@),
        status_at(inv, later) == InvitationStatus::Accepted,
{
}

/// How an RPC refuses an acceptance.
#[derive(Clone, Debug, PartialEq, Eq)]
pub enum AcceptRefusal {
    /// No invitation has the token.
    NotFound(String),
    /// The invitation is no longer pending.
    FailedPrecondition(String),
    /// The request itself is not acceptable.
    InvalidArgument(String),
}

/// Checks an RPC acceptance of `inv` at `now`, with the new user's password.
pub fn check_rpc_accept(inv: &InvitationRecord, password: &str, now: i64) -> (r: Result<(), AcceptRefusal>)
    ensures
        r is Ok <==> (inv.accepted_utc is None && now <= inv.expiry_utc && utf8_len(password@) >= 8),
        status_at(*inv, now) == InvitationStatus::Accepted ==> (r matches Err(
            AcceptRefusal::FailedPrecondition(m),
        ) && m@ == "Invitation already accepted"@),
        status_at(*inv, now) == InvitationStatus::Expired ==> (r matches Err(
            AcceptRefusal::FailedPrecondition(m),
        ) && m@ == "Invitation has expired"@),
        status_at(*inv, now) == InvitationStatus::Pending ==> (if utf8_len(password@) < 8 {
            r matches Err(AcceptRefusal::InvalidArgument(m)) && m@
                == "Password must be at least 8 characters"@
        } else {
            r is Ok
        }),
{
    if inv.accepted_utc.is_some() {
        return Err(AcceptRefusal::FailedPrecondition("Invitation already accepted".to_owned()));
    }
    if inv.expiry_utc < now {
        return Err(AcceptRefusal::FailedPrecondition("Invitation has expired".to_owned()));
    }
    if password.as_bytes().len() < 8 {
        return Err(AcceptRefusal::InvalidArgument("Password must be at least 8 characters".to_owned()));
    }
    Ok(())
}

/// An invitation is accepted at most once: once accepted it stays so, and
/// every later acceptance is refused.
pub proof fn law_accepted_invitation_stays_accepted(inv: InvitationRecord, now: i64, later: i64)
    requires
        status_at(inv, now) == InvitationStatus::Accepted,
    ensures
        status_at(inv, later) == InvitationStatus::Accepted,
        rest_accept_refusal(inv, Seq::empty(), later) is Some,
{
}

/// An unaccepted invitation that has expired stays expired.
pub proof fn law_expiry_is_final(inv: InvitationRecord, now: i64, later: i64)
    requires
        status_at(inv, now) == InvitationStatus::Expired,
        now <= later,
    ensures
        status_at(inv, later) == InvitationStatus::Expired,
{
}

/// An RPC acceptance at `now` of the invitation `inv` found for the token
/// (`None` when no invitation has the token's digest), with the new user's
/// password and name: refused when none is found, then as
/// `check_rpc_accept` refuses; otherwise the records that the acceptance
/// creates, which a password Argon2 can hash always gets.
pub fn accept_invitation_rpc(
    inv: Option<&InvitationRecord>,
    password: &str,
    display_name: Option<String>,
    now: i64,
) -> (r: Result<Option<AcceptedInvitation>, AcceptRefusal>)
    ensures
        match inv {
            None => r matches Err(AcceptRefusal::NotFound(m)) && m@ == "Invitation not found"@,
            Some(i) => {
                &&& status_at(*i, now) == InvitationStatus::Accepted ==> (r matches Err(
                    AcceptRefusal::FailedPrecondition(m),
                ) && m@ == "Invitation already accepted"@)
                &&& status_at(*i, now) == InvitationStatus::Expired ==> (r matches Err(
                    AcceptRefusal::FailedPrecondition(m),
                ) && m@ == "Invitation has expired"@)
                &&& status_at(*i, now) == InvitationStatus::Pending ==> (if utf8_len(password@) < 8 {
                    r matches Err(AcceptRefusal::InvalidArgument(m)) && m@
                        == "Password must be at least 8 characters"@
                } else {
                    r matches Ok(x) && (hashable(password@) ==> x is Some) && (x matches Some(a) ==> a.invitation.accepted_utc == Some(now)
                        && a.user.tenant_id == i.tenant_id && a.user.email@ == i.email@
                        && a.user.display_name == display_name
                        && accepts(encode_utf8(password@), a.identity.password_hash@)
                        && a.identity.user_id == a.user.user_id && a.assignment.user_id == a.user.user_id
                        && a.assignment.org_node_id == i.org_node_id && a.assignment.role_id == i.role_id
                        && a.assignment.tenant_id == i.tenant_id && a.invitation.invitation_id == i.invitation_id)
                })
            },
        },
{
    let i = match inv {
        None => return Err(AcceptRefusal::NotFound("Invitation not found".to_owned())),
        Some(i) => i,
    };
    match check_rpc_accept(i, password, now) {
        Err(e) => Err(e),
        Ok(()) => Ok(accept_records(i, password, display_name, now)),
    }
}

/// Answer of a REST invitation acceptance: the new user's id and tokens.
#[derive(Clone, Debug, PartialEq, Eq)]
pub struct AcceptInvitationResponse {
    pub user_id: u128,
    pub access_token: String,
    pub refresh_token: String,
    pub token_type: String,
    pub expires_in: i64,
}

/// The sign-in that ends an acceptance: the refresh session of the new
/// user for `refresh_token`, issued at `now` for `expiry_days` days, and the
/// REST answer with bearer tokens.
pub fn accepted_sign_in(
    a: &AcceptedInvitation,
    access_token: String,
    refresh_token: String,
    expires_in: i64,
    now: i64,
    expiry_days: i64,
) -> (r: (RefreshSession, AcceptInvitationResponse))
    requires
        i64::MIN <= expiry_days * 86400 <= i64::MAX,
        i64::MIN <= now + expiry_days * 86400 <= i64::MAX,
    ensures
        r.0.user_id == a.user.user_id,
        r.0.token_hash@ == hex_lower(sha256_of(encode_utf8(refresh_token@))),
        r.0.expiry_utc == now + expiry_days * 86400,
        !r.0.revoked,
        r.1.user_id == a.user.user_id,
        r.1.access_token == access_token,
        r.1.refresh_token == refresh_token,
        r.1.token_type@ == "Bearer"@,
        r.1.expires_in == expires_in,
{
    let session = issue_session(a.user.user_id, refresh_token.as_str(), now, expiry_days);
    (
        session,
        AcceptInvitationResponse {
            user_id: a.user.user_id,
            access_token,
            refresh_token,
            token_type: "Bearer".to_owned(),
            expires_in,
        },
    )
}

/// An invitation that has not been accepted is open at every time up to
/// and including its expiry, and only then: it is pending exactly while
/// `now <= expiry_utc`, whenever it was made and however long it was made
/// for; an accepted one is accepted at every time.
pub proof fn law_invitation_open_until_expiry(inv: InvitationRecord, now: i64)
    ensures
        inv.accepted_utc is None ==> (status_at(inv, now) == InvitationStatus::Pending <==> now
            <= inv.expiry_utc),
        inv.accepted_utc is None && now > inv.expiry_utc ==> status_at(inv, now)
            == InvitationStatus::Expired,
        inv.accepted_utc is Some ==> status_at(inv, now) == InvitationStatus::Accepted,
{
}

/// An unaccepted invitation is accepted, through either endpoint, at any
/// time up to and including its expiry with a password of at least 8
/// bytes: no refusal is given then.
pub proof fn law_open_invitation_accepts(inv: InvitationRecord, password: Seq<char>, now: i64)
    requires
        inv.accepted_utc is None,
        now <= inv.expiry_utc,
        utf8_len(password) >= 8,
    ensures
        rest_accept_refusal(inv, password, now) is None,
        status_at(inv, now) == InvitationStatus::Pending,
{
}

/// An invitation made at `now` for `hours` hours (as `expiry_after` makes
/// it) stays open for the whole of them: at every time from `now` to
/// `now + hours * 3600` it is pending while unaccepted.
pub proof fn law_invitation_lasts_requested_hours(inv: InvitationRecord, now: i64, hours: i64, t: i64)
    requires
        inv.accepted_utc is None,
        inv.expiry_utc == now + hours * 3600,
        now <= t <= now + hours * 3600,
    ensures
        status_at(inv, t) == InvitationStatus::Pending,
{
}

} // verus!
