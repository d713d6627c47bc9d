//! Request and response bodies of the REST surface.
use vstd::prelude::*;

pub mod admin;
pub mod auth;

verus! {

/// Error body of a refused request.
#[derive(Clone, Debug, PartialEq, Eq)]
pub struct ErrorResponse {
    pub error: String,
}

} // verus!
