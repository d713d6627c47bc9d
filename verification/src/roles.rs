//! Roles and capabilities: the requests and responses of their endpoints,
//! the tenant check made before a role is created, and the registration of
//! the capabilities that services declare.
use vstd::prelude::*;

use crate::error::AppError;

verus! {

broadcast use vstd::string::group_string_axioms;

/// Request to create a new role.
#[derive(Clone, Debug, PartialEq, Eq)]
pub struct CreateRoleRequest {
    pub tenant_id: u128,
    pub role_label: String,
}

/// Request to assign capability to role.
#[derive(Clone, Debug, PartialEq, Eq)]
pub struct AssignCapabilityRequest {
    pub capability_key: String,
}

/// Role response (times in seconds since the Unix epoch).
#[derive(Clone, Debug, PartialEq, Eq)]
pub struct RoleResponse {
    pub role_id: u128,
    pub tenant_id: u128,
    pub role_label: String,
    pub created_utc: i64,
}

/// Role with capabilities response.
#[derive(Clone, Debug, PartialEq, Eq)]
pub struct RoleWithCapabilitiesResponse {
    pub role: RoleResponse,
    pub capabilities: Vec<String>,
}

/// Capability response.
#[derive(Clone, Debug, PartialEq, Eq)]
pub struct CapabilityResponse {
    pub cap_id: u128,
    pub cap_key: String,
    pub created_utc: i64,
}

/// A role can be created only in an existing, active tenant (`None` when
/// the tenant is not found).
pub fn check_role_tenant(tenant_active: Option<bool>) -> (r: Result<(), AppError>)
    ensures
        tenant_active is None ==> (r matches Err(AppError::NotFound(m)) && m@ == "Tenant not found"@),
        tenant_active == Some(false) ==> (r matches Err(AppError::BadRequest(m)) && m@
            == "Tenant is suspended"@),
        r is Ok <==> tenant_active == Some(true),
{
    match tenant_active {
        None => Err(AppError::NotFound("Tenant not found".to_owned())),
        Some(false) => Err(AppError::BadRequest("Tenant is suspended".to_owned())),
        Some(true) => Ok(()),
    }
}

/// The keys of `keys` that are registered, in order: all but the empty ones.
pub open spec fn registrable(keys: Seq<String>) -> Seq<Seq<char>>
    decreases keys.len(),
{
    if keys.len() == 0 {
        Seq::empty()
    } else if keys.last()@.len() == 0 {
        registrable(keys.drop_last())
    } else {
        registrable(keys.drop_last()).push(keys.last()@)
    }
}

/// The capability keys to register, in order, skipping empty ones.
pub fn registrable_keys(keys: &Vec<String>) -> (r: Vec<String>)
    ensures
        r@.map_values(|s: String| s@) == registrable(keys@),
{
    let mut r: Vec<String> = Vec::new();
    let mut i: usize = 0;
    while i < keys.len()
        invariant
            i <= keys.len(),
            r@.map_values(|s: String| s@) == registrable(keys@.subrange(0, i as int)),
        decreases keys.len() - i,
    {
        assert(keys@.subrange(0, i + 1).drop_last() =~= keys@.subrange(0, i as int));
        if !keys[i].as_str().is_empty() {
            let ghost before = r@;
            r.push(keys[i].clone());
            assert(r@.map_values(|s: String| s@) =~= before.map_values(|s: String| s@).push(
                keys@[i as int]@,
            ));
        }
        i = i + 1;
    }
    assert(keys@.subrange(0, keys.len() as int) =~= keys@);
    r
}

/// The tally of a registration of capabilities: how many were new and how
/// many existed already.
#[derive(Clone, Copy, Debug, PartialEq, Eq)]
pub struct EnsureTally {
    pub created: i32,
    pub existing: i32,
}

impl EnsureTally {
    /// The tally before any key.
    pub fn new() -> (t: Self)
        ensures
            t.created == 0,
            t.existing == 0,
    {
        EnsureTally { created: 0, existing: 0 }
    }

    /// Counts one key: found in the store already, or created.
    pub fn record(&mut self, found: bool)
        requires
            old(self).created < i32::MAX,
            old(self).existing < i32::MAX,
        ensures
            found ==> final(self).existing == old(self).existing + 1 && final(self).created == old(
                self,
            ).created,
            !found ==> final(self).created == old(self).created + 1 && final(self).existing == old(
                self,
            ).existing,
            final(self).created + final(self).existing == old(self).created + old(self).existing
                + 1,
    {
        if found {
            self.existing = self.existing + 1;
        } else {
            self.created = self.created + 1;
        }
    }
}

} // verus!
