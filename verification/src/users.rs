//! The signed-in user's own account: profile changes and password change.
use vstd::prelude::*;

use vstd::string::StringSliceAdditionalSpecFns;

use crate::error::AppError;
use crate::password::{accepts, hash_password, hashable, password_matches};
use crate::user_auth::RefreshSession;
use crate::validation::{
    checked, email_accepted, finish, is_email, length_ok, length_within, step, FieldError,
};

verus! {

broadcast use vstd::string::group_string_axioms;

/// Request to change the signed-in user's password.
#[derive(Clone, Debug, PartialEq, Eq)]
pub struct ChangePasswordRequest {
    pub current_password: String,
    pub new_password: String,
}

impl ChangePasswordRequest {
    /// The checks of the body: a new password of at least 8 characters.
    pub open spec fn checks(self) -> Seq<(bool, Seq<char>, Seq<char>)> {
        seq![(length_within(self.new_password@.len(), Some(8u64), None), "new_password"@, "New password must be at least 8 characters"@)]
    }

    /// Checks the body; the failed field when it is refused.
    pub fn validate(&self) -> (r: Result<(), Vec<FieldError>>)
        ensures
            checked(r, self.checks()),
    {
        let mut errs: Vec<FieldError> = Vec::new();
        let ghost c = self.checks();
        step(&mut errs, length_ok(self.new_password.as_str(), Some(8), None), "new_password", "New password must be at least 8 characters", Ghost(Seq::empty()));
        assert(Seq::<(bool, Seq<char>, Seq<char>)>::empty().push(c[0]) =~= c);
        finish(errs, Ghost(c))
    }
}

/// Request to update the signed-in user's profile.
#[derive(Clone, Debug, PartialEq, Eq)]
pub struct UpdateUserRequest {
    pub name: Option<String>,
    pub email: Option<String>,
}

impl UpdateUserRequest {
    /// The checks of the body: an email address, when one is given, must be
    /// valid.
    pub open spec fn checks(self) -> Seq<(bool, Seq<char>, Seq<char>)> {
        seq![(match self.email {
            Some(e) => email_accepted(e@),
            None => true,
        }, "email"@, "Invalid email format"@)]
    }

    /// Checks the body; the failed field when it is refused.
    pub fn validate(&self) -> (r: Result<(), Vec<FieldError>>)
        ensures
            checked(r, self.checks()),
    {
        let mut errs: Vec<FieldError> = Vec::new();
        let ghost c = self.checks();
        let ok = match &self.email {
            Some(e) => is_email(e.as_str()),
            None => true,
        };
        step(&mut errs, ok, "email", "Invalid email format", Ghost(Seq::empty()));
        assert(Seq::<(bool, Seq<char>, Seq<char>)>::empty().push(c[0]) =~= c);
        finish(errs, Ghost(c))
    }
}

/// The changes that a profile update makes.
#[derive(Clone, Debug, PartialEq, Eq)]
pub struct ProfileChanges {
    /// The new email (then to be verified anew), if it changes.
    pub new_email: Option<String>,
    /// The new display name, if one is given.
    pub new_name: Option<String>,
    /// `Some(false)` when the email changes: the new address is not yet
    /// verified.
    pub email_verified: Option<bool>,
}

/// Whether a requested email differs from the current one.
pub open spec fn email_changes(req: UpdateUserRequest, current_email: Seq<char>) -> bool {
    req.email matches Some(e) && e@ != current_email
}

/// The changes of a profile update for a user whose email is
/// `current_email`: a different email must not be in use by another
/// account (`email_in_use` is consulted only then).
pub fn profile_changes(req: &UpdateUserRequest, current_email: &str, email_in_use: bool) -> (r: Result<
    ProfileChanges,
    AppError,
>)
    ensures
        email_changes(*req, current_email@) && email_in_use ==> (r matches Err(AppError::Conflict(m))
            && m@ == "Email already in use"@),
        !(email_changes(*req, current_email@) && email_in_use) ==> (r matches Ok(c) && (match c.new_email {
            Some(e) => email_changes(*req, current_email@) && (req.email matches Some(x) && e@ == x@),
            None => !email_changes(*req, current_email@),
        }) && (match (c.new_name, req.name) {
            (Some(a), Some(b)) => a@ == b@,
            (None, None) => true,
            _ => false,
        }) && c.email_verified == (if email_changes(*req, current_email@) {
            Some(false)
        } else {
            None::<bool>
        })),
{
    let mut new_email: Option<String> = None;
    match &req.email {
        Some(e) => {
            if !crate::text::chars_eq(
                &crate::text::chars_of(e.as_str()),
                &crate::text::chars_of(current_email),
            ) {
                if email_in_use {
                    return Err(AppError::Conflict("Email already in use".to_owned()));
                }
                new_email = Some(e.clone());
            }
        },
        None => {},
    }
    let new_name = match &req.name {
        Some(n) => Some(n.clone()),
        None => None,
    };
    let email_verified = if new_email.is_some() {
        Some(false)
    } else {
        None
    };
    Ok(ProfileChanges { new_email, new_name, email_verified })
}

/// The profile fields of a user that an update can change.
#[derive(Clone, Debug, PartialEq, Eq)]
pub struct UserProfile {
    pub email: String,
    pub name: Option<String>,
    pub email_verified: bool,
}

impl ProfileChanges {
    /// Whether the update writes anything: when not, the user is answered
    /// as stored.
    pub fn is_empty(&self) -> (b: bool)
        ensures
            b == (self.new_email is None && self.new_name is None && self.email_verified is None),
    {
        self.new_email.is_none() && self.new_name.is_none() && self.email_verified.is_none()
    }

    /// The profile after the update: each field given changes, the others
    /// are kept.
    pub fn apply(&self, p: &UserProfile) -> (r: UserProfile)
        ensures
            r.email@ == (match self.new_email {
                Some(e) => e@,
                None => p.email@,
            }),
            r.name == (match self.new_name {
                Some(n) => Some(n),
                None => p.name,
            }),
            r.email_verified == (match self.email_verified {
                Some(v) => v,
                None => p.email_verified,
            }),
    {
        UserProfile {
            email: match &self.new_email {
                Some(e) => e.clone(),
                None => p.email.clone(),
            },
            name: match &self.new_name {
                Some(n) => Some(n.clone()),
                None => p.name.clone(),
            },
            email_verified: match self.email_verified {
                Some(v) => v,
                None => p.email_verified,
            },
        }
    }
}

/// A profile update that changes the email leaves the address unverified;
/// one that keeps it keeps its verification.
pub proof fn law_changed_email_unverified(
    req: UpdateUserRequest,
    current_email: Seq<char>,
    c: ProfileChanges,
    p: UserProfile,
    r: UserProfile,
)
    requires
        c.email_verified == (if email_changes(req, current_email) { Some(false) } else { None::<bool> }),
        r.email_verified == (match c.email_verified {
            Some(v) => v,
            None => p.email_verified,
        }),
    ensures
        email_changes(req, current_email) ==> !r.email_verified,
        !email_changes(req, current_email) ==> r.email_verified == p.email_verified,
{
}

/// A password change must be authorized by the current password.
pub fn check_current_password(current_password: &str, stored_hash: &str) -> (r: Result<(), AppError>)
    ensures
        r is Ok <==> accepts(current_password.spec_bytes(), stored_hash@),
        r is Err ==> (r matches Err(AppError::AuthError(m)) && m@ == "Incorrect current password"@),
{
    if !password_matches(current_password, stored_hash) {
        return Err(AppError::AuthError("Incorrect current password".to_owned()));
    }
    Ok(())
}

/// A password change of the user whose password is stored as `stored_hash`
/// and whose refresh sessions are `sessions`: refused when the current
/// password is wrong, nothing changed; otherwise the Argon2 hash of the new
/// password, to be stored, and every session of the user revoked.
pub fn change_password(req: &ChangePasswordRequest, stored_hash: &str, sessions: &mut Vec<RefreshSession>) -> (r:
    Result<String, AppError>)
    ensures
        !accepts(vstd::utf8::encode_utf8(req.current_password@), stored_hash@) ==> (r matches Err(AppError::AuthError(m))
            && m@ == "Incorrect current password"@ && final(sessions)@ == old(sessions)@),
        accepts(vstd::utf8::encode_utf8(req.current_password@), stored_hash@) && hashable(req.new_password@) ==> r is Ok,
        r matches Ok(h) ==> {
            &&& accepts(vstd::utf8::encode_utf8(req.new_password@), h@)
            &&& final(sessions)@.len() == old(sessions)@.len()
            &&& forall|i: int| 0 <= i < old(sessions)@.len() ==> {
                &&& (#[trigger] final(sessions)@[i]).revoked
                &&& final(sessions)@[i].session_id == old(sessions)@[i].session_id
                &&& final(sessions)@[i].user_id == old(sessions)@[i].user_id
                &&& final(sessions)@[i].token_hash == old(sessions)@[i].token_hash
                &&& final(sessions)@[i].expiry_utc == old(sessions)@[i].expiry_utc
            }
        },
        r is Err ==> final(sessions)@ == old(sessions)@,
{
    match check_current_password(req.current_password.as_str(), stored_hash) {
        Err(e) => return Err(e),
        Ok(()) => {},
    }
    let h = match hash_password(req.new_password.as_str()) {
        Some(h) => h,
        None => return Err(AppError::InternalError("Password hashing failed".to_owned())),
    };
    let ghost old_s = sessions@;
    let n = sessions.len();
    let mut i: usize = 0;
    while i < n
        invariant
            n == old_s.len(),
            sessions@.len() == n,
            i <= n,
            forall|j: int| 0 <= j < i ==> {
                &&& (#[trigger] sessions@[j]).revoked
                &&& sessions@[j].session_id == old_s[j].session_id
                &&& sessions@[j].user_id == old_s[j].user_id
                &&& sessions@[j].token_hash == old_s[j].token_hash
                &&& sessions@[j].expiry_utc == old_s[j].expiry_utc
            },
            forall|j: int| i <= j < n ==> #[trigger] sessions@[j] == old_s[j],
        decreases n - i,
    {
        let s = RefreshSession {
            session_id: sessions[i].session_id,
            user_id: sessions[i].user_id,
            token_hash: sessions[i].token_hash.clone(),
            expiry_utc: sessions[i].expiry_utc,
            revoked: true,
        };
        sessions.set(i, s);
        i = i + 1;
    }
    Ok(h)
}

/// The answer to a password change, after which every other session is
/// signed out.
pub fn password_changed_message() -> (m: String)
    ensures
        m@ == "Password changed successfully. All other sessions have been logged out."@,
{
    "Password changed successfully. All other sessions have been logged out.".to_owned()
}

} // verus!
