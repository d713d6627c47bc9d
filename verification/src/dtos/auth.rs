//! Bodies of the authentication endpoints.
use vstd::prelude::*;

use crate::validation::{
    checked, email_accepted, finish, is_email, length_ok, length_within, step, FieldError,
};

verus! {

broadcast use vstd::string::group_string_axioms;

/// Registration request.
#[derive(Clone, Debug, PartialEq, Eq)]
pub struct RegisterRequest {
    pub email: String,
    pub password: String,
    pub name: Option<String>,
}

impl RegisterRequest {
    /// The checks of the body: a valid email address, and a password of at
    /// least 8 characters.
    pub open spec fn checks(self) -> Seq<(bool, Seq<char>, Seq<char>)> {
        seq![
            (email_accepted(self.email@), "email"@, "Invalid email format"@),
            (length_within(self.password@.len(), Some(8u64), None), "password"@, "Password must be at least 8 characters"@),
        ]
    }

    /// Checks the body; the failed fields, in order, when it is refused.
    pub fn validate(&self) -> (r: Result<(), Vec<FieldError>>)
        ensures
            checked(r, self.checks()),
    {
        let mut errs: Vec<FieldError> = Vec::new();
        let ghost c = self.checks();
        step(&mut errs, is_email(self.email.as_str()), "email", "Invalid email format", Ghost(Seq::empty()));
        assert(Seq::<(bool, Seq<char>, Seq<char>)>::empty().push(c[0]) =~= c.subrange(0, 1));
        step(&mut errs, length_ok(self.password.as_str(), Some(8), None), "password", "Password must be at least 8 characters", Ghost(c.subrange(0, 1)));
        assert(c.subrange(0, 1).push(c[1]) =~= c);
        finish(errs, Ghost(c))
    }
}

/// Response after registration.
#[derive(Clone, Debug, PartialEq, Eq)]
pub struct RegisterResponse {
    pub user_id: String,
    pub message: String,
}

/// Email verification request.
#[derive(Clone, Debug, PartialEq, Eq)]
pub struct VerifyRequest {
    pub token: String,
}

impl VerifyRequest {
    /// The checks of the body: a token of at least one character.
    pub open spec fn checks(self) -> Seq<(bool, Seq<char>, Seq<char>)> {
        seq![(length_within(self.token@.len(), Some(1u64), None), "token"@, "Token is required"@)]
    }

    /// Checks the body; the failed field when it is refused.
    pub fn validate(&self) -> (r: Result<(), Vec<FieldError>>)
        ensures
            checked(r, self.checks()),
    {
        let mut errs: Vec<FieldError> = Vec::new();
        let ghost c = self.checks();
        step(&mut errs, length_ok(self.token.as_str(), Some(1), None), "token", "Token is required", Ghost(Seq::empty()));
        assert(Seq::<(bool, Seq<char>, Seq<char>)>::empty().push(c[0]) =~= c);
        finish(errs, Ghost(c))
    }
}

/// Response after email verification.
#[derive(Clone, Debug, PartialEq, Eq)]
pub struct VerifyResponse {
    pub message: String,
}

/// Login request.
#[derive(Clone, Debug, PartialEq, Eq)]
pub struct LoginRequest {
    pub email: String,
    pub password: String,
}

impl LoginRequest {
    /// The checks of the body: a valid email address and a non-empty password.
    pub open spec fn checks(self) -> Seq<(bool, Seq<char>, Seq<char>)> {
        seq![
            (email_accepted(self.email@), "email"@, "Invalid email format"@),
            (length_within(self.password@.len(), Some(1u64), None), "password"@, "Password is required"@),
        ]
    }

    /// Checks the body; the failed fields, in order, when it is refused.
    pub fn validate(&self) -> (r: Result<(), Vec<FieldError>>)
        ensures
            checked(r, self.checks()),
    {
        let mut errs: Vec<FieldError> = Vec::new();
        let ghost c = self.checks();
        step(&mut errs, is_email(self.email.as_str()), "email", "Invalid email format", Ghost(Seq::empty()));
        assert(Seq::<(bool, Seq<char>, Seq<char>)>::empty().push(c[0]) =~= c.subrange(0, 1));
        step(&mut errs, length_ok(self.password.as_str(), Some(1), None), "password", "Password is required", Ghost(c.subrange(0, 1)));
        assert(c.subrange(0, 1).push(c[1]) =~= c);
        finish(errs, Ghost(c))
    }
}

/// Logout request.
#[derive(Clone, Debug, PartialEq, Eq)]
pub struct LogoutRequest {
    pub refresh_token: String,
}

/// Token refresh request.
#[derive(Clone, Debug, PartialEq, Eq)]
pub struct RefreshRequest {
    pub refresh_token: String,
}

/// Token introspection request.
#[derive(Clone, Debug, PartialEq, Eq)]
pub struct IntrospectRequest {
    pub token: String,
}

/// Token introspection response: the claims of an active token.
#[derive(Clone, Debug, PartialEq, Eq)]
pub struct IntrospectResponse {
    pub active: bool,
    pub sub: Option<String>,
    pub email: Option<String>,
    pub exp: Option<i64>,
    pub iat: Option<i64>,
    pub jti: Option<String>,
}

impl IntrospectResponse {
    /// The answer for a token that is not active: no claims.
    pub fn inactive() -> (r: Self)
        ensures
            !r.active,
            r.sub is None,
            r.email is None,
            r.exp is None,
            r.iat is None,
            r.jti is None,
    {
        IntrospectResponse { active: false, sub: None, email: None, exp: None, iat: None, jti: None }
    }
}

/// Password reset request.
#[derive(Clone, Debug, PartialEq, Eq)]
pub struct PasswordResetRequest {
    pub email: String,
}

impl PasswordResetRequest {
    /// The checks of the body: a valid email address.
    pub open spec fn checks(self) -> Seq<(bool, Seq<char>, Seq<char>)> {
        seq![(email_accepted(self.email@), "email"@, "Invalid email format"@)]
    }

    /// Checks the body; the failed field when it is refused.
    pub fn validate(&self) -> (r: Result<(), Vec<FieldError>>)
        ensures
            checked(r, self.checks()),
    {
        let mut errs: Vec<FieldError> = Vec::new();
        let ghost c = self.checks();
        step(&mut errs, is_email(self.email.as_str()), "email", "Invalid email format", Ghost(Seq::empty()));
        assert(Seq::<(bool, Seq<char>, Seq<char>)>::empty().push(c[0]) =~= c);
        finish(errs, Ghost(c))
    }
}

/// Password reset confirmation.
#[derive(Clone, Debug, PartialEq, Eq)]
pub struct PasswordResetConfirm {
    pub token: String,
    pub new_password: String,
}

impl PasswordResetConfirm {
    /// The checks of the body: a new password of at least 8 characters.
    pub open spec fn checks(self) -> Seq<(bool, Seq<char>, Seq<char>)> {
        seq![(length_within(self.new_password@.len(), Some(8u64), None), "new_password"@, "Password must be at least 8 characters"@)]
    }

    /// Checks the body; the failed field when it is refused.
    pub fn validate(&self) -> (r: Result<(), Vec<FieldError>>)
        ensures
            checked(r, self.checks()),
    {
        let mut errs: Vec<FieldError> = Vec::new();
        let ghost c = self.checks();
        step(&mut errs, length_ok(self.new_password.as_str(), Some(8), None), "new_password", "Password must be at least 8 characters", Ghost(Seq::empty()));
        assert(Seq::<(bool, Seq<char>, Seq<char>)>::empty().push(c[0]) =~= c);
        finish(errs, Ghost(c))
    }
}

/// Query of the Google sign-in callback.
#[derive(Clone, Debug, PartialEq, Eq)]
pub struct GoogleCallbackQuery {
    pub code: String,
    pub state: String,
}

} // verus!
