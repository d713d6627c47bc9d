//! Request context: the tenant a request acts for, and the identities that
//! the authentication layers attach to a request.
use vstd::prelude::*;

use crate::error::AppError;
use crate::text::{chars_of, concat_chars, string_of};

verus! {

broadcast use vstd::string::group_string_axioms;

/// Claims of a validated user access token.
#[derive(Clone, Debug, PartialEq, Eq)]
pub struct AccessTokenClaims {
    pub sub: String,
    pub app_id: String,
    pub org_id: String,
    pub email: String,
    pub jti: String,
    pub exp: i64,
}

/// Claims of a validated app (client) token.
#[derive(Clone, Debug, PartialEq, Eq)]
pub struct AppTokenClaims {
    pub client_id: String,
    pub rate_limit_per_min: u32,
}

/// Tenant context extracted from the request.
/// Available in handlers via State or Extension.
#[derive(Clone, Debug, PartialEq, Eq)]
pub struct TenantContext {
    /// Application ID (maps to Client.client_id)
    pub app_id: String,
    /// Organization ID (optional for app-level operations)
    pub org_id: Option<String>,
}

/// Errors related to tenant context extraction.
#[derive(Clone, Debug, PartialEq, Eq)]
pub enum TenantError {
    /// No tenant context found in request.
    Missing,
    /// Organization ID is required but not provided.
    OrgIdRequired,
    /// Invalid tenant context.
    Invalid(String),
}

/// The org that a context requires: its org id, or the refusal when it has
/// none.
pub open spec fn required_org(c: TenantContext) -> Result<Seq<char>, TenantError> {
    match c.org_id {
        Some(o) => Ok(o@),
        None => Err(TenantError::OrgIdRequired),
    }
}

/// A context made with an org gives that org back; one made for the app
/// alone requires an org in vain.
pub proof fn law_required_org_roundtrip(app_id: String, org_id: String)
    ensures
        required_org(TenantContext { app_id, org_id: Some(org_id) }) == Ok::<Seq<char>, TenantError>(
            org_id@,
        ),
        required_org(TenantContext { app_id, org_id: None }) == Err::<Seq<char>, TenantError>(
            TenantError::OrgIdRequired,
        ),
{
}

impl TenantContext {
    /// Create a new tenant context with both app and org.
    pub fn new(app_id: String, org_id: String) -> (r: Self)
        ensures
            r.app_id == app_id,
            r.org_id == Some(org_id),
    {
        TenantContext { app_id, org_id: Some(org_id) }
    }

    /// Create a tenant context with only app (for app-level operations).
    pub fn app_only(app_id: String) -> (r: Self)
        ensures
            r.app_id == app_id,
            r.org_id is None,
    {
        TenantContext { app_id, org_id: None }
    }

    /// Get org_id or return an error if not set.
    pub fn require_org_id(&self) -> (r: Result<&str, TenantError>)
        ensures
            match required_org(*self) {
                Ok(o) => r matches Ok(s) && s@ == o,
                Err(e) => r == Err::<&str, TenantError>(e),
            },
    {
        match &self.org_id {
            Some(o) => Ok(o.as_str()),
            None => Err(TenantError::OrgIdRequired),
        }
    }

    /// The tenant context of an authenticated user: the app and org of the
    /// user's access token.
    pub fn from_claims(claims: &AccessTokenClaims) -> (r: Self)
        ensures
            r.app_id == claims.app_id,
            r.org_id == Some(claims.org_id),
    {
        TenantContext::new(claims.app_id.clone(), claims.org_id.clone())
    }

    /// The tenant context of a client app: the app alone, without an org.
    pub fn from_app_claims(claims: &AppTokenClaims) -> (r: Self)
        ensures
            r.app_id == claims.client_id,
            r.org_id is None,
    {
        TenantContext::app_only(claims.client_id.clone())
    }

    /// The tenant context that the middleware attaches to a request: from
    /// the user's access token when there is one, else from the app token
    /// (the app alone), else none, the request going on unchanged.
    pub fn for_request(access: Option<&AccessTokenClaims>, app: Option<&AppTokenClaims>) -> (r: Option<Self>)
        ensures
            match access {
                Some(c) => r == Some(TenantContext { app_id: c.app_id, org_id: Some(c.org_id) }),
                None => match app {
                    Some(a) => r == Some(TenantContext { app_id: a.client_id, org_id: None }),
                    None => r is None,
                },
            },
    {
        match access {
            Some(c) => Some(TenantContext::from_claims(c)),
            None => match app {
                Some(a) => Some(TenantContext::from_app_claims(a)),
                None => None,
            },
        }
    }

    /// The tenant context attached to a request, or the refusal when there is none.
    pub fn from_extension(ctx: Option<&TenantContext>) -> (r: Result<TenantContext, AppError>)
        ensures
            match ctx {
                Some(c) => r == Ok::<TenantContext, AppError>(*c),
                None => r matches Err(AppError::AuthError(m)) && m@ == "Tenant context not found"@,
            },
    {
        match ctx {
            Some(c) => Ok(TenantContext { app_id: c.app_id.clone(), org_id: c.org_id.clone() }),
            None => Err(AppError::AuthError("Tenant context not found".to_owned())),
        }
    }
}

/// The text of a tenant error.
pub open spec fn tenant_error_text(e: TenantError) -> Seq<char> {
    match e {
        TenantError::Missing => "Tenant context not found"@,
        TenantError::OrgIdRequired => "Organization ID is required"@,
        TenantError::Invalid(msg) => "Invalid tenant context: "@ + msg@,
    }
}

impl TenantError {
    /// The text of the error.
    pub fn message(&self) -> (m: String)
        ensures
            m@ == tenant_error_text(*self),
    {
        match self {
            TenantError::Missing => "Tenant context not found".to_owned(),
            TenantError::OrgIdRequired => "Organization ID is required".to_owned(),
            TenantError::Invalid(msg) => {
                let a = chars_of("Invalid tenant context: ");
                let b = chars_of(msg.as_str());
                string_of(&concat_chars(&a, &b))
            },
        }
    }
}

/// Extractor of the authenticated user's claims.
pub struct AuthUser(pub AccessTokenClaims);

/// Extractor of the authenticated app's claims.
pub struct CurrentApp(pub AppTokenClaims);

/// Identity of an authenticated service account.
#[derive(Clone, Debug, PartialEq, Eq)]
pub struct ServiceContext {
    pub service_id: String,
    pub service_name: String,
    pub scopes: Vec<String>,
}

/// Extractor of the authenticated service account's context.
pub struct ServiceAuth(pub ServiceContext);

impl AuthUser {
    /// The user claims attached to a request, or the failure when the
    /// authentication layer attached none.
    pub fn from_extension(claims: Option<&AccessTokenClaims>) -> (r: Result<AuthUser, AppError>)
        ensures
            match claims {
                Some(c) => r matches Ok(u) && u.0 == *c,
                None => r matches Err(AppError::InternalError(m))
                    && m@ == "Auth claims missing from request extensions"@,
            },
    {
        match claims {
            Some(c) => Ok(
                AuthUser(
                    AccessTokenClaims {
                        sub: c.sub.clone(),
                        app_id: c.app_id.clone(),
                        org_id: c.org_id.clone(),
                        email: c.email.clone(),
                        jti: c.jti.clone(),
                        exp: c.exp,
                    },
                ),
            ),
            None => Err(AppError::InternalError("Auth claims missing from request extensions".to_owned())),
        }
    }
}

impl CurrentApp {
    /// The app claims attached to a request, or the failure when the app
    /// authentication layer attached none.
    pub fn from_extension(claims: Option<&AppTokenClaims>) -> (r: Result<CurrentApp, AppError>)
        ensures
            match claims {
                Some(c) => r matches Ok(a) && a.0 == *c,
                None => r matches Err(AppError::InternalError(m))
                    && m@ == "App claims missing from request extensions"@,
            },
    {
        match claims {
            Some(c) => Ok(
                CurrentApp(
                    AppTokenClaims {
                        client_id: c.client_id.clone(),
                        rate_limit_per_min: c.rate_limit_per_min,
                    },
                ),
            ),
            None => Err(AppError::InternalError("App claims missing from request extensions".to_owned())),
        }
    }
}

impl ServiceAuth {
    /// The service context attached to a request, or the failure when the
    /// service authentication layer attached none.
    pub fn from_extension(ctx: Option<&ServiceContext>) -> (r: Result<ServiceAuth, AppError>)
        ensures
            match ctx {
                Some(c) => r matches Ok(a) && a.0.service_id == c.service_id && a.0.service_name
                    == c.service_name && a.0.scopes@ == c.scopes@,
                None => r matches Err(AppError::InternalError(m))
                    && m@ == "Service context missing from request extensions"@,
            },
    {
        match ctx {
            Some(c) => Ok(
                ServiceAuth(
                    ServiceContext {
                        service_id: c.service_id.clone(),
                        service_name: c.service_name.clone(),
                        scopes: c.scopes.clone(),
                    },
                ),
            ),
            None => Err(
                AppError::InternalError("Service context missing from request extensions".to_owned()),
            ),
        }
    }
}

} // verus!
