//! Time-bounded grants: role assignments of users at org nodes, and
//! cross-org visibility grants.
//!
//! Both are immutable once made, but for their end: ending or revoking one
//! sets its end to the present. A grant is in force from its start until its
//! end, if it has one. Times are seconds since the Unix epoch.
use vstd::prelude::*;

use crate::error::{AppError, RpcRefusal};

verus! {

/// The span of a grant.
pub open spec fn in_force(start: i64, end: Option<i64>, now: i64) -> bool {
    start <= now && match end {
        Some(e) => now < e,
        None => true,
    }
}

/// A role assignment as stored.
#[derive(Clone, Debug, PartialEq, Eq)]
pub struct OrgAssignment {
    pub assignment_id: u128,
    pub tenant_id: u128,
    pub user_id: u128,
    pub org_node_id: u128,
    pub role_id: u128,
    pub start_utc: i64,
    pub end_utc: Option<i64>,
}

/// Request to create an org assignment.
#[derive(Clone, Debug, PartialEq, Eq)]
pub struct CreateAssignmentRequest {
    pub tenant_id: u128,
    pub user_id: u128,
    pub role_id: u128,
    pub org_node_id: u128,
    pub start_utc: Option<i64>,
}

/// Org assignment response.
#[derive(Clone, Debug, PartialEq, Eq)]
pub struct AssignmentResponse {
    pub assignment_id: u128,
    pub tenant_id: u128,
    pub user_id: u128,
    pub role_id: u128,
    pub org_node_id: u128,
    pub start_utc: i64,
    pub end_utc: Option<i64>,
    pub is_active: bool,
}

impl OrgAssignment {
    /// A new assignment of `req`, with the id `assignment_id`, starting at
    /// the requested time or at `now`, without end.
    pub fn new(assignment_id: u128, req: &CreateAssignmentRequest, now: i64) -> (a: Self)
        ensures
            a.assignment_id == assignment_id,
            a.tenant_id == req.tenant_id,
            a.user_id == req.user_id,
            a.org_node_id == req.org_node_id,
            a.role_id == req.role_id,
            a.start_utc == (match req.start_utc {
                Some(s) => s,
                None => now,
            }),
            a.end_utc is None,
    {
        OrgAssignment {
            assignment_id,
            tenant_id: req.tenant_id,
            user_id: req.user_id,
            org_node_id: req.org_node_id,
            role_id: req.role_id,
            start_utc: match req.start_utc {
                Some(s) => s,
                None => now,
            },
            end_utc: None,
        }
    }

    /// Whether the assignment is in force at `now`.
    pub fn is_active(&self, now: i64) -> (b: bool)
        ensures
            b == in_force(self.start_utc, self.end_utc, now),
    {
        self.start_utc <= now && match self.end_utc {
            Some(e) => now < e,
            None => true,
        }
    }

    /// The assignment ended at `now`.
    pub fn ended(&self, now: i64) -> (a: Self)
        ensures
            a.assignment_id == self.assignment_id,
            a.tenant_id == self.tenant_id,
            a.user_id == self.user_id,
            a.org_node_id == self.org_node_id,
            a.role_id == self.role_id,
            a.start_utc == self.start_utc,
            a.end_utc == Some(now),
    {
        OrgAssignment { end_utc: Some(now), ..*self }
    }

    /// The response describing the assignment at `now`.
    pub fn to_response(&self, now: i64) -> (r: AssignmentResponse)
        ensures
            r.assignment_id == self.assignment_id,
            r.tenant_id == self.tenant_id,
            r.user_id == self.user_id,
            r.role_id == self.role_id,
            r.org_node_id == self.org_node_id,
            r.start_utc == self.start_utc,
            r.end_utc == self.end_utc,
            r.is_active == in_force(self.start_utc, self.end_utc, now),
    {
        AssignmentResponse {
            assignment_id: self.assignment_id,
            tenant_id: self.tenant_id,
            user_id: self.user_id,
            role_id: self.role_id,
            org_node_id: self.org_node_id,
            start_utc: self.start_utc,
            end_utc: self.end_utc,
            is_active: self.is_active(now),
        }
    }
}

/// The checks of a new assignment: the role and the org node must belong to
/// the same tenant, and that tenant must be the request's.
pub fn check_assignment_tenants(req_tenant: u128, role_tenant: u128, org_node_tenant: u128) -> (r:
    Result<(), AppError>)
    ensures
        role_tenant != org_node_tenant ==> (r matches Err(AppError::BadRequest(m)) && m@
            == "Role and org node must belong to the same tenant"@),
        role_tenant == org_node_tenant && role_tenant != req_tenant ==> (r matches Err(
            AppError::BadRequest(m),
        ) && m@ == "Tenant ID does not match role's tenant"@),
        r is Ok <==> (role_tenant == org_node_tenant && role_tenant == req_tenant),
{
    if role_tenant != org_node_tenant {
        return Err(AppError::BadRequest("Role and org node must belong to the same tenant".to_owned()));
    }
    if role_tenant != req_tenant {
        return Err(AppError::BadRequest("Tenant ID does not match role's tenant".to_owned()));
    }
    Ok(())
}

/// An ended assignment is out of force from its end on.
pub proof fn law_ended_assignment_inactive(a: OrgAssignment, ended_at: i64, later: i64)
    requires
        ended_at <= later,
    ensures
        !in_force(a.start_utc, Some(ended_at), later),
{
}

/// A cross-org visibility grant as stored.
#[derive(Clone, Debug, PartialEq, Eq)]
pub struct VisibilityGrant {
    pub grant_id: u128,
    pub tenant_id: u128,
    pub user_id: u128,
    pub org_node_id: u128,
    pub access_scope_code: String,
    pub start_utc: i64,
    pub end_utc: Option<i64>,
}

/// Query params for listing grants.
#[derive(Clone, Debug, PartialEq, Eq)]
pub struct ListGrantsQuery {
    /// If true, only return active grants (within time bounds)
    pub active: Option<bool>,
}

/// Response after creating a grant.
#[derive(Clone, Debug, PartialEq, Eq)]
pub struct CreateGrantResponse {
    pub grant_id: u128,
}

impl ListGrantsQuery {
    /// Whether only the grants in force are listed (not unless asked).
    pub fn active_only(&self) -> (b: bool)
        ensures
            b == (self.active == Some(true)),
    {
        match self.active {
            Some(b) => b,
            None => false,
        }
    }
}

/// The checks of a visibility grant made over RPC against the store: its
/// user, then its org node, must exist.
pub fn check_rpc_grant_targets(user_found: bool, org_node_found: bool) -> (r: Result<(), RpcRefusal>)
    ensures
        !user_found ==> (r matches Err(RpcRefusal::NotFound(m)) && m@ == "User not found"@),
        user_found && !org_node_found ==> (r matches Err(RpcRefusal::NotFound(m)) && m@
            == "Org node not found"@),
        r is Ok <==> (user_found && org_node_found),
{
    if !user_found {
        return Err(RpcRefusal::NotFound("User not found".to_owned()));
    }
    if !org_node_found {
        return Err(RpcRefusal::NotFound("Org node not found".to_owned()));
    }
    Ok(())
}

/// The checks of a new visibility grant: its user and org node must belong
/// to its tenant, and an end must come after the start.
pub fn check_visibility_grant(
    tenant: u128,
    user_tenant: u128,
    org_node_tenant: u128,
    start_utc: Option<i64>,
    end_utc: Option<i64>,
) -> (r: Result<(), AppError>)
    ensures
        user_tenant != tenant ==> (r matches Err(AppError::BadRequest(m)) && m@
            == "User does not belong to specified tenant"@),
        user_tenant == tenant && org_node_tenant != tenant ==> (r matches Err(AppError::BadRequest(m))
            && m@ == "Org node does not belong to specified tenant"@),
        user_tenant == tenant && org_node_tenant == tenant && (start_utc matches Some(s) && end_utc matches Some(
            e,
        ) && e <= s) ==> (r matches Err(AppError::BadRequest(m)) && m@
            == "end_utc must be after start_utc"@),
        r is Ok <==> (user_tenant == tenant && org_node_tenant == tenant && !(start_utc matches Some(
            s,
        ) && end_utc matches Some(e) && e <= s)),
{
    if user_tenant != tenant {
        return Err(AppError::BadRequest("User does not belong to specified tenant".to_owned()));
    }
    if org_node_tenant != tenant {
        return Err(AppError::BadRequest("Org node does not belong to specified tenant".to_owned()));
    }
    match (start_utc, end_utc) {
        (Some(s), Some(e)) => {
            if e <= s {
                return Err(AppError::BadRequest("end_utc must be after start_utc".to_owned()));
            }
        },
        _ => {},
    }
    Ok(())
}

impl VisibilityGrant {
    /// Whether the grant is in force at `now`.
    pub fn is_active(&self, now: i64) -> (b: bool)
        ensures
            b == in_force(self.start_utc, self.end_utc, now),
    {
        self.start_utc <= now && match self.end_utc {
            Some(e) => now < e,
            None => true,
        }
    }

    /// Whether the grant is reported revoked at `now`: its end has come.
    pub fn is_revoked(&self, now: i64) -> (b: bool)
        ensures
            b == (self.end_utc matches Some(e) && e <= now),
    {
        match self.end_utc {
            Some(e) => e <= now,
            None => false,
        }
    }
}

/// A grant can be revoked only while it is in force.
pub fn check_revocable(grant: &VisibilityGrant, now: i64) -> (r: Result<(), AppError>)
    ensures
        r is Ok <==> in_force(grant.start_utc, grant.end_utc, now),
        r is Err ==> (r matches Err(AppError::BadRequest(m)) && m@
            == "Grant is already inactive or expired"@),
{
    if !grant.is_active(now) {
        return Err(AppError::BadRequest("Grant is already inactive or expired".to_owned()));
    }
    Ok(())
}

/// A grant reported revoked is out of force.
pub proof fn law_revoked_not_in_force(g: VisibilityGrant, now: i64)
    requires
        g.end_utc matches Some(e) && e <= now,
    ensures
        !in_force(g.start_utc, g.end_utc, now),
{
}

} // verus!
