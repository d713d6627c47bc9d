//! The error kinds that the service answers requests with.
use vstd::prelude::*;

verus! {

/// An error answered to a request, with its message.
#[derive(Clone, Debug, PartialEq, Eq)]
pub enum AppError {
    /// 401: the caller could not be authenticated.
    AuthError(String),
    /// 401: missing or wrong credentials for a protected operation.
    Unauthorized(String),
    /// 403: the caller is authenticated but not allowed.
    Forbidden(String),
    /// 400: the request is malformed or not acceptable.
    BadRequest(String),
    /// 404: a referenced entity does not exist.
    NotFound(String),
    /// 409: the request conflicts with existing state.
    Conflict(String),
    /// 429: too many requests; the seconds to wait, when known.
    TooManyRequests(String, Option<u64>),
    /// 500: an internal failure.
    InternalError(String),
    /// 502: an upstream service failed.
    BadGateway(String),
    /// 500: the configuration is invalid.
    ConfigError(String),
}

/// The message that `e` carries.
pub open spec fn error_text(e: AppError) -> Seq<char> {
    match e {
        AppError::AuthError(m) => m@,
        AppError::Unauthorized(m) => m@,
        AppError::Forbidden(m) => m@,
        AppError::BadRequest(m) => m@,
        AppError::NotFound(m) => m@,
        AppError::Conflict(m) => m@,
        AppError::TooManyRequests(m, _) => m@,
        AppError::InternalError(m) => m@,
        AppError::BadGateway(m) => m@,
        AppError::ConfigError(m) => m@,
    }
}

impl AppError {
    /// The message of the error.
    pub fn message(&self) -> (m: String)
        ensures
            m@ == error_text(*self),
    {
        match self {
            AppError::AuthError(m) => m.clone(),
            AppError::Unauthorized(m) => m.clone(),
            AppError::Forbidden(m) => m.clone(),
            AppError::BadRequest(m) => m.clone(),
            AppError::NotFound(m) => m.clone(),
            AppError::Conflict(m) => m.clone(),
            AppError::TooManyRequests(m, _) => m.clone(),
            AppError::InternalError(m) => m.clone(),
            AppError::BadGateway(m) => m.clone(),
            AppError::ConfigError(m) => m.clone(),
        }
    }

    /// The HTTP status code that answers the error.
    pub fn status_code(&self) -> (c: u16)
        ensures
            c == match *self {
                AppError::AuthError(_) => 401u16,
                AppError::Unauthorized(_) => 401u16,
                AppError::Forbidden(_) => 403u16,
                AppError::BadRequest(_) => 400u16,
                AppError::NotFound(_) => 404u16,
                AppError::Conflict(_) => 409u16,
                AppError::TooManyRequests(_, _) => 429u16,
                AppError::InternalError(_) => 500u16,
                AppError::BadGateway(_) => 502u16,
                AppError::ConfigError(_) => 500u16,
            },
    {
        match self {
            AppError::AuthError(_) => 401,
            AppError::Unauthorized(_) => 401,
            AppError::Forbidden(_) => 403,
            AppError::BadRequest(_) => 400,
            AppError::NotFound(_) => 404,
            AppError::Conflict(_) => 409,
            AppError::TooManyRequests(_, _) => 429,
            AppError::InternalError(_) => 500,
            AppError::BadGateway(_) => 502,
            AppError::ConfigError(_) => 500,
        }
    }
}

/// The refusal of an RPC, by its status code, with its message.
#[derive(Clone, Debug, PartialEq, Eq)]
pub enum RpcRefusal {
    InvalidArgument(String),
    Unauthenticated(String),
    PermissionDenied(String),
    NotFound(String),
    AlreadyExists(String),
    FailedPrecondition(String),
    Internal(String),
}

} // verus!
