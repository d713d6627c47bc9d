//! Bodies of the administration endpoints.
use vstd::prelude::*;

use crate::validation::{checked, finish, length_ok, length_within, step, FieldError};

verus! {

broadcast use vstd::string::group_string_axioms;

/// Request to register a service account.
#[derive(Clone, Debug, PartialEq, Eq)]
pub struct CreateServiceAccountRequest {
    pub service_name: String,
    pub scopes: Vec<String>,
}

impl CreateServiceAccountRequest {
    /// The checks of the body: a service name of at least one character.
    pub open spec fn checks(self) -> Seq<(bool, Seq<char>, Seq<char>)> {
        seq![(length_within(self.service_name@.len(), Some(1u64), None), "service_name"@, "Service name is required"@)]
    }

    /// Checks the body; the failed field when it is refused.
    pub fn validate(&self) -> (r: Result<(), Vec<FieldError>>)
        ensures
            checked(r, self.checks()),
    {
        let mut errs: Vec<FieldError> = Vec::new();
        let ghost c = self.checks();
        step(&mut errs, length_ok(self.service_name.as_str(), Some(1), None), "service_name", "Service name is required", Ghost(Seq::empty()));
        assert(Seq::<(bool, Seq<char>, Seq<char>)>::empty().push(c[0]) =~= c);
        finish(errs, Ghost(c))
    }
}

/// Credentials of a new service account (the key is shown only once).
#[derive(Clone, Debug, PartialEq, Eq)]
pub struct CreateServiceAccountResponse {
    pub service_id: String,
    pub api_key: String,
    pub service_name: String,
    pub scopes: Vec<String>,
}

/// Request to register a client app, of the kind `T`.
#[derive(Clone, Debug, PartialEq, Eq)]
pub struct CreateClientRequest<T> {
    pub app_name: String,
    pub app_type: T,
    /// Requests per minute; 0 for no limit.
    pub rate_limit_per_min: u32,
    pub allowed_origins: Vec<String>,
}

impl<T> CreateClientRequest<T> {
    /// The checks of the body: an app name of at least one character.
    pub open spec fn checks(self) -> Seq<(bool, Seq<char>, Seq<char>)> {
        seq![(length_within(self.app_name@.len(), Some(1u64), None), "app_name"@, "App name is required"@)]
    }

    /// Checks the body; the failed field when it is refused.
    pub fn validate(&self) -> (r: Result<(), Vec<FieldError>>)
        ensures
            checked(r, self.checks()),
    {
        let mut errs: Vec<FieldError> = Vec::new();
        let ghost c = self.checks();
        step(&mut errs, length_ok(self.app_name.as_str(), Some(1), None), "app_name", "App name is required", Ghost(Seq::empty()));
        assert(Seq::<(bool, Seq<char>, Seq<char>)>::empty().push(c[0]) =~= c);
        finish(errs, Ghost(c))
    }
}

/// Credentials of a new client app (the secrets are shown only once).
#[derive(Clone, Debug, PartialEq, Eq)]
pub struct CreateClientResponse<T> {
    pub client_id: String,
    pub client_secret: String,
    pub signing_secret: String,
    pub app_name: String,
    pub app_type: T,
}

/// The new secrets of a client after a rotation, and until when the old
/// secret is still accepted (seconds since the Unix epoch).
#[derive(Clone, Debug, PartialEq, Eq)]
pub struct RotateSecretResponse {
    pub client_id: String,
    pub new_client_secret: String,
    pub new_signing_secret: String,
    pub previous_secret_expiry: i64,
}

/// The new key of a service account after a rotation, and until when the
/// old key is still accepted (seconds since the Unix epoch).
#[derive(Clone, Debug, PartialEq, Eq)]
pub struct RotateServiceKeyResponse {
    pub service_id: String,
    pub new_api_key: String,
    pub previous_key_expiry: i64,
}

/// Whether an organization name has between 1 and 100 characters.
pub open spec fn org_name_ok(name: Seq<char>) -> bool {
    length_within(name.len(), Some(1u64), Some(100u64))
}

/// Request to create an organization under the calling app, with optional
/// settings `S` and auth policy `P`.
#[derive(Clone, Debug, PartialEq, Eq)]
pub struct CreateOrganizationRequest<S, P> {
    pub name: String,
    pub settings: Option<S>,
    pub auth_policy: Option<P>,
}

impl<S, P> CreateOrganizationRequest<S, P> {
    /// The checks of the body: a name of 1 to 100 characters.
    pub open spec fn checks(self) -> Seq<(bool, Seq<char>, Seq<char>)> {
        seq![(org_name_ok(self.name@), "name"@, "Name must be 1-100 characters"@)]
    }

    /// Checks the body; the failed field when it is refused.
    pub fn validate(&self) -> (r: Result<(), Vec<FieldError>>)
        ensures
            checked(r, self.checks()),
    {
        let mut errs: Vec<FieldError> = Vec::new();
        let ghost c = self.checks();
        step(&mut errs, length_ok(self.name.as_str(), Some(1), Some(100)), "name", "Name must be 1-100 characters", Ghost(Seq::empty()));
        assert(Seq::<(bool, Seq<char>, Seq<char>)>::empty().push(c[0]) =~= c);
        finish(errs, Ghost(c))
    }
}

/// Response after creating an organization.
#[derive(Clone, Debug, PartialEq, Eq)]
pub struct CreateOrganizationResponse {
    pub org_id: String,
    pub app_id: String,
    pub name: String,
    pub created_at: i64,
}

/// Request to update an organization: each field given replaces the
/// stored one.
#[derive(Clone, Debug, PartialEq, Eq)]
pub struct UpdateOrganizationRequest<S> {
    pub name: Option<String>,
    pub settings: Option<S>,
    pub enabled: Option<bool>,
}

impl<S> UpdateOrganizationRequest<S> {
    /// The checks of the body: a name, when one is given, of 1 to 100
    /// characters.
    pub open spec fn checks(self) -> Seq<(bool, Seq<char>, Seq<char>)> {
        seq![(match self.name {
            Some(n) => org_name_ok(n@),
            None => true,
        }, "name"@, "Name must be 1-100 characters"@)]
    }

    /// Checks the body; the failed field when it is refused.
    pub fn validate(&self) -> (r: Result<(), Vec<FieldError>>)
        ensures
            checked(r, self.checks()),
    {
        let mut errs: Vec<FieldError> = Vec::new();
        let ghost c = self.checks();
        let ok = match &self.name {
            Some(n) => length_ok(n.as_str(), Some(1), Some(100)),
            None => true,
        };
        step(&mut errs, ok, "name", "Name must be 1-100 characters", Ghost(Seq::empty()));
        assert(Seq::<(bool, Seq<char>, Seq<char>)>::empty().push(c[0]) =~= c);
        finish(errs, Ghost(c))
    }
}

/// The organizations of an app, of the answer form `O`.
#[derive(Clone, Debug, PartialEq, Eq)]
pub struct ListOrganizationsResponse<O> {
    pub organizations: Vec<O>,
    pub total: usize,
}

impl<O> ListOrganizationsResponse<O> {
    /// The answer listing `organizations`, with their number.
    pub fn new(organizations: Vec<O>) -> (r: Self)
        ensures
            r.organizations@ == organizations@,
            r.total == organizations@.len(),
    {
        let total = organizations.len();
        ListOrganizationsResponse { organizations, total }
    }
}

/// Request to replace an organization's auth policy `P`.
#[derive(Clone, Debug, PartialEq, Eq)]
pub struct UpdateAuthPolicyRequest<P> {
    pub auth_policy: P,
}

} // verus!
