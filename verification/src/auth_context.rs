//! The authorization context of a user: the assignments in force within an
//! org subtree, the union of their roles' capabilities, and the check of one
//! capability at one org node.
use vstd::prelude::*;

use crate::authz::contains_id;
use crate::error::{AppError, RpcRefusal};
use crate::service_account::{bearer_of, bearer_token};

verus! {

broadcast use vstd::string::group_string_axioms;

/// Query params for auth context.
#[derive(Clone, Debug, PartialEq, Eq)]
pub struct AuthContextQuery {
    /// Org node to get context for (optional, returns all if not specified)
    pub org_node_id: Option<u128>,
}

/// Summary of an assignment for context.
#[derive(Clone, Debug, PartialEq, Eq)]
pub struct AssignmentSummary {
    pub assignment_id: u128,
    pub org_node_id: u128,
    pub role_id: u128,
    pub role_label: String,
    pub capabilities: Vec<String>,
}

/// Auth context response.
#[derive(Clone, Debug, PartialEq, Eq)]
pub struct AuthContextResponse {
    pub user_id: u128,
    pub tenant_id: u128,
    pub org_node_id: Option<u128>,
    pub capabilities: Vec<String>,
    pub assignments: Vec<AssignmentSummary>,
}

/// Query of a single capability check.
#[derive(Clone, Debug, PartialEq, Eq)]
pub struct AuthCheckQuery {
    pub org_node_id: u128,
    pub capability: String,
}

/// Answer to a single capability check.
#[derive(Clone, Debug, PartialEq, Eq)]
pub struct AuthCheckResponse {
    pub allowed: bool,
    pub capability: String,
    pub org_node_id: u128,
    pub matched_assignment: Option<u128>,
}

/// An assignment in force, with what its role holds (`role_label` is `None`
/// when the role no longer exists).
#[derive(Clone, Debug, PartialEq, Eq)]
pub struct AssignmentRoleInfo {
    pub assignment_id: u128,
    pub org_node_id: u128,
    pub role_id: u128,
    pub role_label: Option<String>,
    pub capabilities: Vec<String>,
}

/// Whether an assignment at `node` counts for the context of `scope`: every
/// assignment when no node is asked, else those at the node or below it.
pub open spec fn in_scope(node: u128, scope: Option<u128>, descendants: Seq<u128>) -> bool {
    match scope {
        None => true,
        Some(s) => descendants.contains(node) || node == s,
    }
}

/// The assignments of `v` that count for the context, in order, that still
/// have a role.
pub open spec fn summarized(v: Seq<AssignmentRoleInfo>, scope: Option<u128>, descendants: Seq<u128>) -> Seq<
    AssignmentRoleInfo,
>
    decreases v.len(),
{
    if v.len() == 0 {
        Seq::empty()
    } else {
        let rest = summarized(v.drop_last(), scope, descendants);
        let a = v.last();
        if in_scope(a.org_node_id, scope, descendants) && a.role_label is Some {
            rest.push(a)
        } else {
            rest
        }
    }
}

/// `s` summarizes `a`.
pub open spec fn summary_of(s: AssignmentSummary, a: AssignmentRoleInfo) -> bool {
    &&& s.assignment_id == a.assignment_id
    &&& s.org_node_id == a.org_node_id
    &&& s.role_id == a.role_id
    &&& a.role_label matches Some(l) && s.role_label@ == l@
    &&& s.capabilities@ == a.capabilities@
}

/// The texts of `v`.
pub open spec fn texts(v: Seq<String>) -> Set<Seq<char>> {
    Set::new(|c: Seq<char>| exists|k: int| 0 <= k < v.len() && (#[trigger] v[k])@ == c)
}

/// The capabilities held by the roles of `v`.
pub open spec fn granted_set(v: Seq<AssignmentRoleInfo>) -> Set<Seq<char>>
    decreases v.len(),
{
    if v.len() == 0 {
        Set::empty()
    } else {
        granted_set(v.drop_last()).union(texts(v.last().capabilities@))
    }
}

proof fn lemma_texts_push(v: Seq<String>, s: String)
    ensures
        texts(v.push(s)) == texts(v).insert(s@),
{
    assert forall|c: Seq<char>| texts(v.push(s)).contains(c) <==> texts(v).insert(s@).contains(c) by {
        if texts(v.push(s)).contains(c) {
            let k = choose|k: int| 0 <= k < v.push(s).len() && (#[trigger] v.push(s)[k])@ == c;
            if k < v.len() {
                assert(v[k] == v.push(s)[k]);
            }
        }
        if texts(v).contains(c) {
            let k = choose|k: int| 0 <= k < v.len() && (#[trigger] v[k])@ == c;
            assert(v.push(s)[k] == v[k]);
        }
        if c == s@ {
            assert(v.push(s)[v.len() as int] == s);
        }
    }
    assert(texts(v.push(s)) =~= texts(v).insert(s@));
}

fn has_text(v: &Vec<String>, c: &String) -> (b: bool)
    ensures
        b == texts(v@).contains(c@),
{
    let mut k: usize = 0;
    while k < v.len()
        invariant
            k <= v.len(),
            forall|m: int| 0 <= m < k ==> (#[trigger] v@[m])@ != c@,
        decreases v.len() - k,
    {
        if v[k] == *c {
            assert(v@[k as int]@ == c@);
            return true;
        }
        k = k + 1;
    }
    false
}

/// The texts of `v` are all different.
pub open spec fn distinct_texts(v: Seq<String>) -> bool {
    forall|k: int, m: int| 0 <= k < m < v.len() ==> (#[trigger] v[k])@ != (#[trigger] v[m])@
}

/// The context of a user from the assignments in force (with their roles),
/// for the subtree of `scope` (whose nodes below it are `descendants`): the
/// assignments that count and still have a role, in order, and the union of
/// their capabilities, each once.
pub fn build_context(
    user_id: u128,
    tenant_id: u128,
    scope: Option<u128>,
    descendants: &Vec<u128>,
    assignments: &Vec<AssignmentRoleInfo>,
) -> (r: AuthContextResponse)
    ensures
        r.user_id == user_id,
        r.tenant_id == tenant_id,
        r.org_node_id == scope,
        r.assignments@.len() == summarized(assignments@, scope, descendants@).len(),
        forall|i: int|
            0 <= i < r.assignments@.len() ==> summary_of(
                #[trigger] r.assignments@[i],
                summarized(assignments@, scope, descendants@)[i],
            ),
        texts(r.capabilities@) == granted_set(summarized(assignments@, scope, descendants@)),
        distinct_texts(r.capabilities@),
{
    let mut caps: Vec<String> = Vec::new();
    let mut sums: Vec<AssignmentSummary> = Vec::new();
    let ghost kept: Seq<AssignmentRoleInfo> = Seq::empty();
    assert(texts(caps@) =~= Set::<Seq<char>>::empty());
    let mut i: usize = 0;
    while i < assignments.len()
        invariant
            i <= assignments.len(),
            kept == summarized(assignments@.subrange(0, i as int), scope, descendants@),
            sums@.len() == kept.len(),
            forall|x: int| 0 <= x < sums@.len() ==> summary_of(#[trigger] sums@[x], kept[x]),
            texts(caps@) == granted_set(kept),
            distinct_texts(caps@),
        decreases assignments.len() - i,
    {
        let a = &assignments[i];
        assert(assignments@.subrange(0, i + 1).drop_last() =~= assignments@.subrange(0, i as int));
        assert(assignments@.subrange(0, i + 1).last() == *a);
        let counts = match scope {
            None => true,
            Some(s) => contains_id(descendants, a.org_node_id) || a.org_node_id == s,
        };
        match &a.role_label {
            Some(label) => {
                if counts {
                    let ghost old_kept = kept;
                    let mut j: usize = 0;
                    assert(a.capabilities@.subrange(0, 0) =~= Seq::<String>::empty());
                    assert(texts(Seq::<String>::empty()) =~= Set::<Seq<char>>::empty());
                    assert(granted_set(old_kept).union(Set::<Seq<char>>::empty()) =~= granted_set(old_kept));
                    while j < a.capabilities.len()
                        invariant
                            j <= a.capabilities.len(),
                            texts(caps@) == granted_set(old_kept).union(
                                texts(a.capabilities@.subrange(0, j as int)),
                            ),
                            distinct_texts(caps@),
                        decreases a.capabilities.len() - j,
                    {
                        let c = &a.capabilities[j];
                        proof {
                            assert(a.capabilities@.subrange(0, j + 1) =~= a.capabilities@.subrange(0, j as int).push(*c));
                            lemma_texts_push(a.capabilities@.subrange(0, j as int), *c);
                        }
                        if !has_text(&caps, c) {
                            let ghost before = caps@;
                            caps.push(c.clone());
                            proof {
                                lemma_texts_push(before, *c);
                                assert(caps@ == before.push(*c));
                                assert forall|k: int, m: int| 0 <= k < m < caps@.len() implies (#[trigger] caps@[k])@
                                    != (#[trigger] caps@[m])@ by {
                                    assert(caps@[k] == before[k]);
                                    if m < before.len() {
                                        assert(caps@[m] == before[m]);
                                    } else {
                                        assert(texts(before).contains(before[k]@));
                                    }
                                }
                            }
                        }
                        assert(texts(caps@) =~= granted_set(old_kept).union(
                            texts(a.capabilities@.subrange(0, j + 1)),
                        ));
                        j = j + 1;
                    }
                    assert(a.capabilities@.subrange(0, a.capabilities.len() as int) =~= a.capabilities@);
                    proof {
                        kept = kept.push(*a);
                        assert(kept.drop_last() =~= old_kept);
                    }
                    let ghost old_sums = sums@;
                    sums.push(
                        AssignmentSummary {
                            assignment_id: a.assignment_id,
                            org_node_id: a.org_node_id,
                            role_id: a.role_id,
                            role_label: label.clone(),
                            capabilities: a.capabilities.clone(),
                        },
                    );
                    assert forall|x: int| 0 <= x < sums@.len() implies summary_of(#[trigger] sums@[x], kept[x]) by {
                        if x < old_sums.len() {
                            assert(sums@[x] == old_sums[x]);
                        }
                    }
                }
            },
            None => {},
        }
        i = i + 1;
    }
    assert(assignments@.subrange(0, assignments.len() as int) =~= assignments@);
    AuthContextResponse { user_id, tenant_id, org_node_id: scope, capabilities: caps, assignments: sums }
}

/// The first assignment of `v`, in order, at the node `org` whose role holds
/// `cap`, if any.
pub open spec fn first_match(v: Seq<AssignmentRoleInfo>, org: u128, cap: Seq<char>, i: int) -> Option<
    u128,
>
    decreases v.len() - i,
{
    if i < 0 || i >= v.len() {
        None
    } else if v[i].org_node_id == org && texts(v[i].capabilities@).contains(cap) {
        Some(v[i].assignment_id)
    } else {
        first_match(v, org, cap, i + 1)
    }
}

/// An assignment at `org` whose role holds `cap`.
pub open spec fn holds_at(a: AssignmentRoleInfo, org: u128, cap: Seq<char>) -> bool {
    a.org_node_id == org && texts(a.capabilities@).contains(cap)
}

proof fn lemma_first_match(v: Seq<AssignmentRoleInfo>, org: u128, cap: Seq<char>, i: int)
    requires
        0 <= i <= v.len(),
    ensures
        (exists|k: int| i <= k < v.len() && #[trigger] holds_at(v[k], org, cap)) <==> first_match(v, org, cap, i) is Some,
        first_match(v, org, cap, i) matches Some(id) ==> exists|k: int|
            i <= k < v.len() && #[trigger] holds_at(v[k], org, cap) && v[k].assignment_id == id
                && forall|m: int| i <= m < k ==> !holds_at(v[m], org, cap),
    decreases v.len() - i,
{
    if i < v.len() {
        lemma_first_match(v, org, cap, i + 1);
        if holds_at(v[i], org, cap) {
            assert(holds_at(v[i], org, cap));
        } else {
            if exists|k: int| i <= k < v.len() && #[trigger] holds_at(v[k], org, cap) {
                let k = choose|k: int| i <= k < v.len() && #[trigger] holds_at(v[k], org, cap);
                assert(k != i);
                assert(i + 1 <= k);
            }
            if first_match(v, org, cap, i) is Some {
                let k = choose|k: int|
                    i + 1 <= k < v.len() && #[trigger] holds_at(v[k], org, cap)
                        && v[k].assignment_id == first_match(v, org, cap, i)->0
                        && forall|m: int| i + 1 <= m < k ==> !holds_at(v[m], org, cap);
                assert forall|m: int| i <= m < k implies !holds_at(v[m], org, cap) by {
                    if m > i {
                    }
                }
            }
        }
    }
}

/// The check grants a capability at a node exactly when some assignment at
/// that node, at any position, has a role holding it, and it names the
/// first such assignment: an assignment at the node that lacks the
/// capability never stops the search, and the check is refused only when no
/// assignment at the node holds it.
pub proof fn law_capability_check_complete(v: Seq<AssignmentRoleInfo>, org: u128, cap: Seq<char>)
    ensures
        (exists|k: int| 0 <= k < v.len() && #[trigger] holds_at(v[k], org, cap)) <==> first_match(v, org, cap, 0) is Some,
        (exists|k: int|
            0 <= k < v.len() && v[k].org_node_id == org && #[trigger] texts(v[k].capabilities@).contains(
                cap,
            )) <==> first_match(v, org, cap, 0) is Some,
        first_match(v, org, cap, 0) matches Some(id) ==> exists|k: int|
            0 <= k < v.len() && #[trigger] holds_at(v[k], org, cap) && v[k].assignment_id == id
                && forall|m: int| 0 <= m < k ==> !holds_at(v[m], org, cap),
{
    lemma_first_match(v, org, cap, 0);
    if exists|k: int|
        0 <= k < v.len() && v[k].org_node_id == org && #[trigger] texts(v[k].capabilities@).contains(cap) {
        let k = choose|k: int|
            0 <= k < v.len() && v[k].org_node_id == org && #[trigger] texts(v[k].capabilities@).contains(cap);
        assert(holds_at(v[k], org, cap));
    }
}

/// Whether the user whose assignments in force are `v` holds `capability`
/// at the node `org` itself: the first assignment there whose role holds
/// it is named.
pub fn check_capability_at(org: u128, capability: &String, v: &Vec<AssignmentRoleInfo>) -> (r:
    AuthCheckResponse)
    ensures
        r.capability == *capability,
        r.org_node_id == org,
        r.matched_assignment == first_match(v@, org, capability@, 0),
        r.allowed == (first_match(v@, org, capability@, 0) is Some),
        r.allowed <==> exists|k: int|
            0 <= k < v@.len() && v@[k].org_node_id == org && #[trigger] texts(v@[k].capabilities@).contains(
                capability@,
            ),
        r.matched_assignment matches Some(id) ==> exists|k: int|
            0 <= k < v@.len() && v@[k].org_node_id == org && #[trigger] texts(v@[k].capabilities@).contains(
                capability@,
            ) && v@[k].assignment_id == id,
{
    proof {
        law_capability_check_complete(v@, org, capability@);
    }
    let mut i: usize = 0;
    while i < v.len()
        invariant
            i <= v.len(),
            first_match(v@, org, capability@, 0) == first_match(v@, org, capability@, i as int),
        decreases v.len() - i,
    {
        if v[i].org_node_id == org && has_text(&v[i].capabilities, capability) {
            return AuthCheckResponse {
                allowed: true,
                capability: capability.clone(),
                org_node_id: org,
                matched_assignment: Some(v[i].assignment_id),
            };
        }
        i = i + 1;
    }
    AuthCheckResponse {
        allowed: false,
        capability: capability.clone(),
        org_node_id: org,
        matched_assignment: None,
    }
}

/// The bearer token of the context endpoints' `Authorization` header (`None`
/// when it is absent or not text).
pub fn context_bearer(header: Option<&str>) -> (r: Result<String, AppError>)
    ensures
        match header {
            None => r matches Err(AppError::AuthError(m)) && m@ == "Missing authorization header"@,
            Some(h) => match bearer_of(h@) {
                Some(t) => r matches Ok(x) && x@ == t,
                None => r matches Err(AppError::AuthError(m)) && m@
                    == "Invalid authorization header"@,
            },
        },
{
    match header {
        None => Err(AppError::AuthError("Missing authorization header".to_owned())),
        Some(h) => match bearer_token(h) {
            Some(t) => Ok(t),
            None => Err(AppError::AuthError("Invalid authorization header".to_owned())),
        },
    }
}

/// The user and tenant of a validated token's claims (`sub` and `app_id`
/// must be UUIDs).
pub fn claims_ids(sub: &str, app_id: &str) -> (r: Result<(u128, u128), AppError>)
    ensures
        match (crate::ids::uuid_value(sub@), crate::ids::uuid_value(app_id@)) {
            (None, _) => r matches Err(AppError::AuthError(m)) && m@ == "Invalid user ID in token"@,
            (Some(_), None) => r matches Err(AppError::AuthError(m)) && m@
                == "Invalid tenant ID in token"@,
            (Some(u), Some(t)) => r == Ok::<(u128, u128), AppError>((u, t)),
        },
{
    let u = match crate::ids::parse_id(sub) {
        Some(u) => u,
        None => return Err(AppError::AuthError("Invalid user ID in token".to_owned())),
    };
    let t = match crate::ids::parse_id(app_id) {
        Some(t) => t,
        None => return Err(AppError::AuthError("Invalid tenant ID in token".to_owned())),
    };
    Ok((u, t))
}

/// The identity that the front end passes with an RPC.
#[derive(Clone, Copy, Debug, PartialEq, Eq)]
pub struct AuthContext {
    /// User making the request (from x-user-id).
    pub user_id: u128,
    /// Application identity (from x-app-id).
    pub app_id: u128,
}

/// The identity of an RPC from its `x-app-id` and `x-user-id` metadata
/// (`None` when absent or not text): each is required and must be a UUID,
/// the app first.
pub fn extract_auth_context(x_app_id: Option<&str>, x_user_id: Option<&str>) -> (r: Result<
    AuthContext,
    RpcRefusal,
>)
    ensures
        match x_app_id {
            None => r matches Err(RpcRefusal::Unauthenticated(m)) && m@ == "Missing x-app-id header"@,
            Some(a) => match crate::ids::uuid_value(a@) {
                None => r matches Err(RpcRefusal::InvalidArgument(m)) && m@
                    == "x-app-id is not a valid UUID"@,
                Some(aid) => match x_user_id {
                    None => r matches Err(RpcRefusal::Unauthenticated(m)) && m@
                        == "Missing x-user-id header"@,
                    Some(u) => match crate::ids::uuid_value(u@) {
                        None => r matches Err(RpcRefusal::InvalidArgument(m)) && m@
                            == "x-user-id is not a valid UUID"@,
                        Some(uid) => r == Ok::<AuthContext, RpcRefusal>(
                            AuthContext { user_id: uid, app_id: aid },
                        ),
                    },
                },
            },
        },
{
    let a = match x_app_id {
        None => return Err(RpcRefusal::Unauthenticated("Missing x-app-id header".to_owned())),
        Some(a) => a,
    };
    let app_id = match crate::ids::parse_id(a) {
        None => return Err(RpcRefusal::InvalidArgument("x-app-id is not a valid UUID".to_owned())),
        Some(v) => v,
    };
    let u = match x_user_id {
        None => return Err(RpcRefusal::Unauthenticated("Missing x-user-id header".to_owned())),
        Some(u) => u,
    };
    let user_id = match crate::ids::parse_id(u) {
        None => return Err(RpcRefusal::InvalidArgument("x-user-id is not a valid UUID".to_owned())),
        Some(v) => v,
    };
    Ok(AuthContext { user_id, app_id })
}

} // verus!
