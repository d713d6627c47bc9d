//! Creating a tenant: the checks of the request, and the records that make
//! a new tenant (its root org node, its admin role and capabilities, its
//! first admin user and that user's assignment).
//!
//! Two paths create tenants: the bootstrap of the first tenant, with a
//! `Superadmin` role holding `*`, and self-service creation, with an `Admin`
//! role holding every capability but `*`. The store writes the records; the
//! decisions and the records' contents are made here.
use vstd::prelude::*;

use vstd::utf8::encode_utf8;

use crate::digest::{hex_lower, sha256_of};
use crate::ids::{is_random_uuid, new_id};
use crate::user_auth::{issue_session, RefreshSession};
use crate::text::{chars_eq, chars_of, concat_chars, has_prefix, has_suffix, string_of, utf8_len};

verus! {

broadcast use vstd::string::group_string_axioms;

/// A request to create a tenant with its first admin user (both the
/// bootstrap request and the self-service request have these fields).
#[derive(Clone, Debug, PartialEq, Eq)]
pub struct CreateTenantRequest {
    pub tenant_slug: String,
    pub tenant_label: String,
    pub admin_email: String,
    pub admin_password: String,
    pub admin_display_name: Option<String>,
}

/// Why a bootstrap request is refused, if it is: the first check (in order)
/// that fails.
pub open spec fn bootstrap_refusal(req: CreateTenantRequest) -> Option<Seq<char>> {
    if req.tenant_slug@.len() == 0 {
        Some("tenant_slug is required"@)
    } else if req.tenant_label@.len() == 0 {
        Some("tenant_label is required"@)
    } else if req.admin_email@.len() == 0 {
        Some("admin_email is required"@)
    } else if utf8_len(req.admin_password@) < 8 {
        Some("admin_password must be at least 8 characters"@)
    } else {
        None
    }
}

/// A character allowed in a tenant slug.
pub open spec fn slug_char(c: char) -> bool {
    ||| 97 <= (c as int) <= 122
    ||| 48 <= (c as int) <= 57
    ||| c == '-'
}

/// Why a self-service request is refused, if it is: the slug must be 3 to
/// 63 bytes of lowercase letters, digits and hyphens, neither starting nor
/// ending with a hyphen; then a label, an email address with `@`, and a
/// password of at least 8 bytes are required.
pub open spec fn create_tenant_refusal(req: CreateTenantRequest) -> Option<Seq<char>> {
    let slug = req.tenant_slug@;
    let n = utf8_len(slug);
    if n < 3 || n > 63 {
        Some("tenant_slug must be 3-63 characters"@)
    } else if !(forall|i: int| 0 <= i < slug.len() ==> slug_char(#[trigger] slug[i])) {
        Some("tenant_slug must contain only lowercase letters, digits, and hyphens"@)
    } else if has_prefix(slug, "-"@) || has_suffix(slug, "-"@) {
        Some("tenant_slug must not start or end with a hyphen"@)
    } else if req.tenant_label@.len() == 0 {
        Some("tenant_label is required"@)
    } else if !req.admin_email@.contains('@') {
        Some("admin_email must be a valid email address"@)
    } else if utf8_len(req.admin_password@) < 8 {
        Some("admin_password must be at least 8 characters"@)
    } else {
        None
    }
}

/// The result of a check whose refusal is `refusal`.
pub open spec fn answers(r: Result<(), String>, refusal: Option<Seq<char>>) -> bool {
    match refusal {
        None => r is Ok,
        Some(m) => r matches Err(e) && e@ == m,
    }
}

/// Checks a bootstrap request.
pub fn validate_bootstrap(req: &CreateTenantRequest) -> (r: Result<(), String>)
    ensures
        answers(r, bootstrap_refusal(*req)),
{
    if req.tenant_slug.as_str().is_empty() {
        return Err("tenant_slug is required".to_owned());
    }
    if req.tenant_label.as_str().is_empty() {
        return Err("tenant_label is required".to_owned());
    }
    if req.admin_email.as_str().is_empty() {
        return Err("admin_email is required".to_owned());
    }
    if req.admin_password.as_str().as_bytes().len() < 8 {
        return Err("admin_password must be at least 8 characters".to_owned());
    }
    Ok(())
}

/// Checks a self-service tenant creation request.
pub fn validate_create_tenant(req: &CreateTenantRequest) -> (r: Result<(), String>)
    ensures
        answers(r, create_tenant_refusal(*req)),
{
    let n = req.tenant_slug.as_str().as_bytes().len();
    if n < 3 || n > 63 {
        return Err("tenant_slug must be 3-63 characters".to_owned());
    }
    let slug = chars_of(req.tenant_slug.as_str());
    let mut i: usize = 0;
    while i < slug.len()
        invariant
            i <= slug.len(),
            slug@ == req.tenant_slug@,
            n == utf8_len(req.tenant_slug@),
            3 <= n <= 63,
            forall|j: int| 0 <= j < i ==> slug_char(#[trigger] slug@[j]),
        decreases slug.len() - i,
    {
        let c = slug[i];
        if !(('a' <= c && c <= 'z') || ('0' <= c && c <= '9') || c == '-') {
            assert(!slug_char(req.tenant_slug@[i as int]));

            return Err(
                "tenant_slug must contain only lowercase letters, digits, and hyphens".to_owned(),
            );
        }
        i = i + 1;
    }
    let hy = chars_of("-");
    if crate::text::starts_with(&slug, &hy) || crate::text::ends_with(&slug, &hy) {
        return Err("tenant_slug must not start or end with a hyphen".to_owned());
    }
    if req.tenant_label.as_str().is_empty() {
        return Err("tenant_label is required".to_owned());
    }
    if !crate::text::contains_char(&chars_of(req.admin_email.as_str()), '@') {
        return Err("admin_email must be a valid email address".to_owned());
    }
    if req.admin_password.as_str().as_bytes().len() < 8 {
        return Err("admin_password must be at least 8 characters".to_owned());
    }
    Ok(())
}

/// The refusal when the slug is taken already.
pub fn check_slug_free(taken: bool) -> (r: Result<(), String>)
    ensures
        r is Ok <==> !taken,
        r matches Err(e) ==> e@ == "Tenant slug already exists"@,
{
    if taken {
        Err("Tenant slug already exists".to_owned())
    } else {
        Ok(())
    }
}

/// The label of a tenant's root org node: the tenant's label and ` Root`.
pub fn root_node_label(tenant_label: &str) -> (s: String)
    ensures
        s@ == tenant_label@ + " Root"@,
{
    string_of(&concat_chars(&chars_of(tenant_label), &chars_of(" Root")))
}

/// The display name of the first admin: the one given, or `Admin`.
pub fn admin_display_name(given: &Option<String>) -> (s: String)
    ensures
        match given {
            Some(d) => s@ == d@,
            None => s@ == "Admin"@,
        },
{
    match given {
        Some(d) => d.clone(),
        None => "Admin".to_owned(),
    }
}

/// A capability as stored: its id and its key.
#[derive(Clone, Debug, PartialEq, Eq)]
pub struct CapabilityRow {
    pub cap_id: u128,
    pub cap_key: String,
}

/// The ids of the capabilities in `caps` whose key is not `*`, in order.
pub open spec fn grantable_ids(caps: Seq<CapabilityRow>) -> Seq<u128>
    decreases caps.len(),
{
    if caps.len() == 0 {
        Seq::empty()
    } else if caps.last().cap_key@ == "*"@ {
        grantable_ids(caps.drop_last())
    } else {
        grantable_ids(caps.drop_last()).push(caps.last().cap_id)
    }
}

/// The capabilities that a self-service tenant's admin role receives: all
/// but the superadmin capability `*`.
pub fn grantable_cap_ids(caps: &Vec<CapabilityRow>) -> (ids: Vec<u128>)
    ensures
        ids@ == grantable_ids(caps@),
{
    let star = chars_of("*");
    let mut ids: Vec<u128> = Vec::new();
    let mut i: usize = 0;
    while i < caps.len()
        invariant
            i <= caps.len(),
            star@ == "*"@,
            ids@ == grantable_ids(caps@.subrange(0, i as int)),
        decreases caps.len() - i,
    {
        assert(caps@.subrange(0, i + 1).drop_last() =~= caps@.subrange(0, i as int));
        if !chars_eq(&chars_of(caps[i].cap_key.as_str()), &star) {
            ids.push(caps[i].cap_id);
        }
        i = i + 1;
    }
    assert(caps@.subrange(0, caps.len() as int) =~= caps@);
    ids
}

/// The identifiers drawn for the records of a new tenant.
#[derive(Clone, Copy, Debug, PartialEq, Eq)]
pub struct NewTenantIds {
    pub tenant_id: u128,
    pub root_org_node_id: u128,
    pub role_id: u128,
    pub admin_user_id: u128,
    pub assignment_id: u128,
}

/// The records that make a new tenant.
#[derive(Clone, Debug, PartialEq, Eq)]
pub struct TenantSetupPlan {
    pub ids: NewTenantIds,
    pub tenant_slug: String,
    pub tenant_label: String,
    /// The root org node: of type `org`, labelled `<label> Root`, no parent.
    pub root_node_type: String,
    pub root_node_label: String,
    /// The admin role and the capabilities it receives.
    pub role_name: String,
    pub role_cap_ids: Vec<u128>,
    /// The first admin user, with the password's Argon2 hash.
    pub admin_email: String,
    pub admin_display_name: String,
    pub admin_password_hash: String,
}

/// `p` is the plan for the tenant of `req`, with the given identifiers,
/// admin role name and capabilities.
pub open spec fn plans(
    p: TenantSetupPlan,
    req: CreateTenantRequest,
    ids: NewTenantIds,
    role_name: Seq<char>,
    cap_ids: Seq<u128>,
    password_hash: Seq<char>,
) -> bool {
    &&& p.ids == ids
    &&& p.tenant_slug@ == req.tenant_slug@
    &&& p.tenant_label@ == req.tenant_label@
    &&& p.root_node_type@ == "org"@
    &&& p.root_node_label@ == req.tenant_label@ + " Root"@
    &&& p.role_name@ == role_name
    &&& p.role_cap_ids@ == cap_ids
    &&& p.admin_email@ == req.admin_email@
    &&& p.admin_display_name@ == (match req.admin_display_name {
        Some(d) => d@,
        None => "Admin"@,
    })
    &&& p.admin_password_hash@ == password_hash
}

fn make_plan(
    req: &CreateTenantRequest,
    ids: NewTenantIds,
    role_name: String,
    cap_ids: Vec<u128>,
    password_hash: String,
) -> (p: TenantSetupPlan)
    ensures
        plans(p, *req, ids, role_name@, cap_ids@, password_hash@),
{
    TenantSetupPlan {
        ids,
        tenant_slug: req.tenant_slug.clone(),
        tenant_label: req.tenant_label.clone(),
        root_node_type: "org".to_owned(),
        root_node_label: root_node_label(req.tenant_label.as_str()),
        role_name,
        role_cap_ids: cap_ids,
        admin_email: req.admin_email.clone(),
        admin_display_name: admin_display_name(&req.admin_display_name),
        admin_password_hash: password_hash,
    }
}

/// The records of a self-service tenant: an `Admin` role with every stored
/// capability but `*`.
pub fn plan_tenant(
    req: &CreateTenantRequest,
    ids: NewTenantIds,
    all_caps: &Vec<CapabilityRow>,
    password_hash: String,
) -> (p: TenantSetupPlan)
    ensures
        plans(p, *req, ids, "Admin"@, grantable_ids(all_caps@), password_hash@),
{
    make_plan(req, ids, "Admin".to_owned(), grantable_cap_ids(all_caps), password_hash)
}

/// The records of the bootstrap tenant: a `Superadmin` role holding the
/// capability `*` (whose id is `star_cap_id`).
pub fn plan_bootstrap(
    req: &CreateTenantRequest,
    ids: NewTenantIds,
    star_cap_id: u128,
    password_hash: String,
) -> (p: TenantSetupPlan)
    ensures
        plans(p, *req, ids, "Superadmin"@, seq![star_cap_id], password_hash@),
{
    let mut caps: Vec<u128> = Vec::new();
    caps.push(star_cap_id);
    assert(caps@ =~= seq![star_cap_id]);
    make_plan(req, ids, "Superadmin".to_owned(), caps, password_hash)
}

/// The superadmin capability of a bootstrap: the stored `*` capability,
/// or, when there is none (`found` is `None`), a new one, under a new
/// random id, to be inserted. Gives the capability and whether it is new.
pub fn superadmin_capability(found: Option<&CapabilityRow>) -> (r: (CapabilityRow, bool))
    ensures
        match found {
            Some(c) => r.0 == *c && !r.1,
            None => r.0.cap_key@ == "*"@ && is_random_uuid(r.0.cap_id) && r.1,
        },
{
    match found {
        Some(c) => (CapabilityRow { cap_id: c.cap_id, cap_key: c.cap_key.clone() }, false),
        None => (CapabilityRow { cap_id: new_id(), cap_key: "*".to_owned() }, true),
    }
}

/// What the audit log records of a new tenant.
#[derive(Clone, Debug, PartialEq, Eq)]
pub struct TenantCreatedEvent {
    pub tenant_id: u128,
    /// The user the event is recorded for: the tenant's first admin.
    pub actor_user_id: u128,
    pub target_type: String,
    pub target_id: u128,
    /// The detail recorded: the tenant's slug.
    pub tenant_slug: String,
}

/// The records written with a new tenant beside its plan: the first
/// admin's refresh session, found by the digest of the refresh token's id
/// `refresh_token_id`, issued at `now` for `expiry_days` days; and the
/// audit event of the tenant's creation, recorded for that admin, on the
/// tenant, with the tenant's slug.
pub fn tenant_setup_records(plan: &TenantSetupPlan, refresh_token_id: &str, now: i64, expiry_days: i64) -> (r: (
    RefreshSession,
    TenantCreatedEvent,
))
    requires
        i64::MIN <= expiry_days * 86400 <= i64::MAX,
        i64::MIN <= now + expiry_days * 86400 <= i64::MAX,
    ensures
        r.0.user_id == plan.ids.admin_user_id,
        r.0.token_hash@ == hex_lower(sha256_of(encode_utf8(refresh_token_id@))),
        r.0.expiry_utc == now + expiry_days * 86400,
        !r.0.revoked,
        r.1.tenant_id == plan.ids.tenant_id,
        r.1.actor_user_id == plan.ids.admin_user_id,
        r.1.target_type@ == "tenant"@,
        r.1.target_id == plan.ids.tenant_id,
        r.1.tenant_slug@ == plan.tenant_slug@,
{
    let session = issue_session(plan.ids.admin_user_id, refresh_token_id, now, expiry_days);
    let event = TenantCreatedEvent {
        tenant_id: plan.ids.tenant_id,
        actor_user_id: plan.ids.admin_user_id,
        target_type: "tenant".to_owned(),
        target_id: plan.ids.tenant_id,
        tenant_slug: plan.tenant_slug.clone(),
    };
    (session, event)
}

/// A tenant's admin role never receives the superadmin capability.
pub proof fn law_admin_role_never_superadmin(caps: Seq<CapabilityRow>, i: int)
    requires
        0 <= i < grantable_ids(caps).len(),
    ensures
        exists|k: int|
            0 <= k < caps.len() && caps[k].cap_id == grantable_ids(caps)[i] && caps[k].cap_key@
                != "*"@,
    decreases caps.len(),
{
    let init = caps.drop_last();
    if caps.last().cap_key@ == "*"@ {
        law_admin_role_never_superadmin(init, i);
        let k = choose|k: int|
            0 <= k < init.len() && init[k].cap_id == grantable_ids(init)[i] && init[k].cap_key@
                != "*"@;
        assert(caps[k] == init[k]);
    } else if i < grantable_ids(init).len() {
        law_admin_role_never_superadmin(init, i);
        let k = choose|k: int|
            0 <= k < init.len() && init[k].cap_id == grantable_ids(init)[i] && init[k].cap_key@
                != "*"@;
        assert(caps[k] == init[k]);
    } else {
        assert(caps[caps.len() - 1].cap_id == grantable_ids(caps)[i]);
    }
}

} // verus!
