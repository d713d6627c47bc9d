//! Capability evaluation: the decision, for each requested capability, of
//! whether a user's role assignments grant it at a target org node.
//!
//! Identifiers (users, assignments, org nodes) are UUIDs held as `u128`.
use vstd::prelude::*;

use crate::text::{
    chars_eq, chars_of, concat_chars, ends_with, has_prefix, has_suffix, split_chars, split_on,
    starts_with,
};

verus! {

broadcast use vstd::string::group_string_axioms;

/// What the decision for one capability rests on.
#[derive(Clone, Copy, Debug, PartialEq, Eq)]
pub enum DecisionReason {
    NotCovered,
    OwnGranted,
    OwnRequiresOwnership,
    SubtreeGranted,
    Granted,
    SubtreeInherited,
    NotFound,
}

/// The text that a decision carries for its reason.
pub open spec fn reason_text(r: DecisionReason) -> Seq<char> {
    match r {
        DecisionReason::NotCovered => "No assignment covers target org node"@,
        DecisionReason::OwnGranted => "Capability granted with own scope"@,
        DecisionReason::OwnRequiresOwnership => "Own scope requires resource ownership"@,
        DecisionReason::SubtreeGranted => "Capability granted with subtree scope"@,
        DecisionReason::Granted => "Capability granted"@,
        DecisionReason::SubtreeInherited => "Capability granted via subtree inheritance"@,
        DecisionReason::NotFound => "Capability not found in any assignment"@,
    }
}

proof fn lemma_reason_text_distinct(r: DecisionReason)
    ensures
        reason_text(r) == reason_text(DecisionReason::NotFound) ==> r == DecisionReason::NotFound,
{
    reveal_strlit("No assignment covers target org node");
    reveal_strlit("Capability granted with own scope");
    reveal_strlit("Own scope requires resource ownership");
    reveal_strlit("Capability granted with subtree scope");
    reveal_strlit("Capability granted");
    reveal_strlit("Capability granted via subtree inheritance");
    reveal_strlit("Capability not found in any assignment");
    if r != DecisionReason::NotFound && reason_text(r) == reason_text(DecisionReason::NotFound) {
        match r {
            DecisionReason::NotCovered => assert(reason_text(r)[0] != reason_text(DecisionReason::NotFound)[0]),
            DecisionReason::OwnRequiresOwnership => assert(reason_text(r)[0] != reason_text(DecisionReason::NotFound)[0]),
            DecisionReason::OwnGranted => assert(reason_text(r)[11] != reason_text(DecisionReason::NotFound)[11]),
            DecisionReason::SubtreeGranted => assert(reason_text(r)[11] != reason_text(DecisionReason::NotFound)[11]),
            DecisionReason::Granted => assert(reason_text(r).len() != reason_text(DecisionReason::NotFound).len()),
            DecisionReason::SubtreeInherited => assert(reason_text(r)[11] != reason_text(DecisionReason::NotFound)[11]),
            DecisionReason::NotFound => {},
        }
    }
}

/// The reason text of `r`.
pub fn reason_message(r: DecisionReason) -> (s: String)
    ensures
        s@ == reason_text(r),
{
    match r {
        DecisionReason::NotCovered => "No assignment covers target org node".to_owned(),
        DecisionReason::OwnGranted => "Capability granted with own scope".to_owned(),
        DecisionReason::OwnRequiresOwnership => "Own scope requires resource ownership".to_owned(),
        DecisionReason::SubtreeGranted => "Capability granted with subtree scope".to_owned(),
        DecisionReason::Granted => "Capability granted".to_owned(),
        DecisionReason::SubtreeInherited => "Capability granted via subtree inheritance".to_owned(),
        DecisionReason::NotFound => "Capability not found in any assignment".to_owned(),
    }
}

/// The scope of a capability key: its third `:`-separated component, if any
/// (`"crm.visit:view:subtree"` has scope `"subtree"`).
pub open spec fn cap_scope(cap: Seq<char>) -> Option<Seq<char>> {
    let parts = split_on(cap, ':');
    if parts.len() >= 3 {
        Some(parts[2])
    } else {
        None
    }
}

/// The base of a capability key: its first two components joined by `:`,
/// or the whole key when it has fewer than two.
pub open spec fn cap_base(cap: Seq<char>) -> Seq<char> {
    let parts = split_on(cap, ':');
    if parts.len() >= 2 {
        parts[0] + seq![':'] + parts[1]
    } else {
        cap
    }
}

/// One role assignment with the capabilities its role carries (model).
pub struct GrantModel {
    pub assignment_id: u128,
    pub org_node_id: u128,
    pub caps: Seq<Seq<char>>,
}

/// The decision for one capability, without its texts.
#[derive(Clone, Copy, Debug, PartialEq, Eq)]
pub struct DecisionModel {
    pub allowed: bool,
    pub reason: DecisionReason,
    pub granted_by_assignment: Option<u128>,
    pub granted_at_org: Option<u128>,
}

pub open spec fn granted(reason: DecisionReason, g: GrantModel) -> DecisionModel {
    DecisionModel {
        allowed: true,
        reason,
        granted_by_assignment: Some(g.assignment_id),
        granted_at_org: Some(g.org_node_id),
    }
}

pub open spec fn denied(reason: DecisionReason) -> DecisionModel {
    DecisionModel { allowed: false, reason, granted_by_assignment: None, granted_at_org: None }
}

fn grant_by(reason: DecisionReason, a: &AssignmentCaps) -> (m: DecisionModel)
    ensures
        m == granted(reason, a@),
{
    DecisionModel {
        allowed: true,
        reason,
        granted_by_assignment: Some(a.assignment_id),
        granted_at_org: Some(a.org_node_id),
    }
}

fn deny_for(reason: DecisionReason) -> (m: DecisionModel)
    ensures
        m == denied(reason),
{
    DecisionModel { allowed: false, reason, granted_by_assignment: None, granted_at_org: None }
}

/// The decision when an assignment holds the requested key itself.
pub open spec fn exact_decision(
    cap: Seq<char>,
    g: GrantModel,
    user_id: u128,
    resource_owner_id: Option<u128>,
) -> DecisionModel {
    if cap_scope(cap) == Some("own"@) {
        if resource_owner_id == Some(user_id) {
            granted(DecisionReason::OwnGranted, g)
        } else {
            denied(DecisionReason::OwnRequiresOwnership)
        }
    } else if cap_scope(cap) == Some("subtree"@) {
        granted(DecisionReason::SubtreeGranted, g)
    } else {
        granted(DecisionReason::Granted, g)
    }
}

/// Some capability in `caps` starts with `base` and has scope `subtree`.
pub open spec fn has_subtree_form(caps: Seq<Seq<char>>, base: Seq<char>) -> bool {
    exists|j: int|
        0 <= j < caps.len() && has_prefix(#[trigger] caps[j], base) && cap_scope(caps[j]) == Some(
            "subtree"@,
        )
}

/// The decision reached by scanning the assignments from index `i` on.
pub open spec fn scan_grants(
    cap: Seq<char>,
    target: u128,
    grants: Seq<GrantModel>,
    user_id: u128,
    resource_owner_id: Option<u128>,
    i: int,
) -> DecisionModel
    decreases grants.len() - i,
{
    if i < 0 || i >= grants.len() {
        denied(DecisionReason::NotFound)
    } else {
        let g = grants[i];
        if g.caps.contains(cap) {
            exact_decision(cap, g, user_id, resource_owner_id)
        } else if g.org_node_id == target && has_subtree_form(g.caps, cap_base(cap)) {
            granted(DecisionReason::SubtreeInherited, g)
        } else {
            scan_grants(cap, target, grants, user_id, resource_owner_id, i + 1)
        }
    }
}

/// The decision for capability `cap` at org node `target`, given the user's
/// assignments (in order) and the set of org nodes they cover.
pub open spec fn decide(
    cap: Seq<char>,
    target: u128,
    grants: Seq<GrantModel>,
    covered: Seq<u128>,
    user_id: u128,
    resource_owner_id: Option<u128>,
) -> DecisionModel {
    if !covered.contains(target) {
        denied(DecisionReason::NotCovered)
    } else {
        scan_grants(cap, target, grants, user_id, resource_owner_id, 0)
    }
}

/// One role assignment of the user, with the capability keys its role carries.
pub struct AssignmentCaps {
    pub assignment_id: u128,
    pub org_node_id: u128,
    pub caps: Vec<String>,
}

pub open spec fn caps_model(caps: Seq<String>) -> Seq<Seq<char>> {
    caps.map_values(|c: String| c@)
}

impl View for AssignmentCaps {
    type V = GrantModel;

    open spec fn view(&self) -> GrantModel {
        GrantModel {
            assignment_id: self.assignment_id,
            org_node_id: self.org_node_id,
            caps: caps_model(self.caps@),
        }
    }
}

pub open spec fn grants_model(v: Seq<AssignmentCaps>) -> Seq<GrantModel> {
    v.map_values(|a: AssignmentCaps| a@)
}

/// Single capability decision.
pub struct CapabilityDecision {
    pub capability: String,
    pub allowed: bool,
    pub reason: String,
    /// The assignment that granted this capability (if allowed)
    pub granted_by_assignment: Option<u128>,
    /// The org node where the capability was granted
    pub granted_at_org: Option<u128>,
}

/// `d` carries the capability `cap` and the decision `m`.
pub open spec fn decision_matches(d: CapabilityDecision, cap: Seq<char>, m: DecisionModel) -> bool {
    &&& d.capability@ == cap
    &&& d.allowed == m.allowed
    &&& d.reason@ == reason_text(m.reason)
    &&& d.granted_by_assignment == m.granted_by_assignment
    &&& d.granted_at_org == m.granted_at_org
}

fn make_decision(cap_key: &str, m: DecisionModel) -> (d: CapabilityDecision)
    requires
        m.allowed == m.granted_by_assignment.is_some(),
    ensures
        decision_matches(d, cap_key@, m),
{
    CapabilityDecision {
        capability: cap_key.to_owned(),
        allowed: m.allowed,
        reason: reason_message(m.reason),
        granted_by_assignment: m.granted_by_assignment,
        granted_at_org: m.granted_at_org,
    }
}

/// Whether `list` holds a string with the characters `key`.
fn holds_key(list: &Vec<String>, key: &Vec<char>) -> (r: bool)
    ensures
        r == caps_model(list@).contains(key@),
{
    let mut i: usize = 0;
    while i < list.len()
        invariant
            i <= list.len(),
            forall|j: int| 0 <= j < i ==> list@[j]@ != key@,
        decreases list.len() - i,
    {
        let c = chars_of(list[i].as_str());
        if chars_eq(&c, key) {
            assert(caps_model(list@)[i as int] == key@);
            return true;
        }
        i = i + 1;
    }
    assert forall|j: int| 0 <= j < caps_model(list@).len() implies caps_model(list@)[j] != key@ by {
        assert(caps_model(list@)[j] == list@[j]@);
    }
    false
}

/// The scope of a capability key, computed.
fn scope_of(cap: &Vec<char>) -> (r: Option<Vec<char>>)
    ensures
        match r {
            Some(v) => cap_scope(cap@) == Some(v@),
            None => cap_scope(cap@) is None,
        },
{
    let parts = split_chars(cap, ':');
    proof {
        assert(parts@.map_values(|p: Vec<char>| p@).len() == parts@.len());
    }
    if parts.len() >= 3 {
        let p = concat_chars(&parts[2], &Vec::new());
        proof {
            assert(parts@.map_values(|p: Vec<char>| p@)[2] == parts@[2]@);
            assert(p@ =~= parts@[2]@);
        }
        Some(p)
    } else {
        None
    }
}

/// The base of a capability key, computed.
fn base_of(cap: &Vec<char>) -> (r: Vec<char>)
    ensures
        r@ == cap_base(cap@),
{
    let parts = split_chars(cap, ':');
    proof {
        assert(parts@.map_values(|p: Vec<char>| p@).len() == parts@.len());
    }
    if parts.len() >= 2 {
        let mut colon: Vec<char> = Vec::new();
        colon.push(':');
        let a = concat_chars(&parts[0], &colon);
        let r = concat_chars(&a, &parts[1]);
        proof {
            assert(parts@.map_values(|p: Vec<char>| p@)[0] == parts@[0]@);
            assert(parts@.map_values(|p: Vec<char>| p@)[1] == parts@[1]@);
            assert(colon@ =~= seq![':']);
        }
        r
    } else {
        concat_chars(cap, &Vec::new())
    }
}

/// Whether the scope of `cap` is exactly `word`.
fn scope_is(cap: &Vec<char>, word: &str) -> (r: bool)
    ensures
        r == (cap_scope(cap@) == Some(word@)),
{
    match scope_of(cap) {
        Some(s) => {
            let w = chars_of(word);
            chars_eq(&s, &w)
        },
        None => false,
    }
}

/// Whether some capability in `caps` starts with `base` and has scope `subtree`.
fn subtree_form_in(caps: &Vec<String>, base: &Vec<char>) -> (r: bool)
    ensures
        r == has_subtree_form(caps_model(caps@), base@),
{
    let mut i: usize = 0;
    while i < caps.len()
        invariant
            i <= caps.len(),
            forall|j: int|
                0 <= j < i ==> !(has_prefix(#[trigger] caps_model(caps@)[j], base@) && cap_scope(
                    caps_model(caps@)[j],
                ) == Some("subtree"@)),
        decreases caps.len() - i,
    {
        let c = chars_of(caps[i].as_str());
        assert(caps_model(caps@)[i as int] == c@);
        if starts_with(&c, base) && scope_is(&c, "subtree") {
            return true;
        }
        i = i + 1;
    }
    false
}

/// Whether `x` occurs in `v`.
pub fn contains_id(v: &Vec<u128>, x: u128) -> (r: bool)
    ensures
        r == v@.contains(x),
{
    let mut i: usize = 0;
    while i < v.len()
        invariant
            i <= v.len(),
            forall|j: int| 0 <= j < i ==> v@[j] != x,
        decreases v.len() - i,
    {
        if v[i] == x {
            assert(v@[i as int] == x);
            return true;
        }
        i = i + 1;
    }
    false
}

/// Evaluate a single capability: whether the assignments `org_caps` grant
/// `cap_key` at `target_org`, where `covered_orgs` are the org nodes that the
/// assignments cover.
pub fn evaluate_capability(
    cap_key: &str,
    target_org: u128,
    org_caps: &Vec<AssignmentCaps>,
    covered_orgs: &Vec<u128>,
    user_id: u128,
    resource_owner_id: Option<u128>,
) -> (d: CapabilityDecision)
    ensures
        decision_matches(
            d,
            cap_key@,
            decide(
                cap_key@,
                target_org,
                grants_model(org_caps@),
                covered_orgs@,
                user_id,
                resource_owner_id,
            ),
        ),
        (covered_orgs@.contains(target_org) && (exists|k: int|
            0 <= k < org_caps@.len() && #[trigger] grants_model(org_caps@)[k].caps.contains(cap_key@))
            && (cap_scope(cap_key@) != Some("own"@) || resource_owner_id == Some(user_id))) ==> d.allowed,
        d.reason@ == reason_text(DecisionReason::NotFound) ==> forall|k: int|
            0 <= k < org_caps@.len() ==> !justifies(#[trigger] grants_model(org_caps@)[k], cap_key@, target_org),
{
    let d = evaluate_in_order(cap_key, target_org, org_caps, covered_orgs, user_id, resource_owner_id);
    proof {
        let g = grants_model(org_caps@);
        if covered_orgs@.contains(target_org) && (exists|k: int|
            0 <= k < org_caps@.len() && #[trigger] g[k].caps.contains(cap_key@))
            && (cap_scope(cap_key@) != Some("own"@) || resource_owner_id == Some(user_id)) {
            let k = choose|k: int| 0 <= k < org_caps@.len() && #[trigger] g[k].caps.contains(cap_key@);
            law_grant_is_complete(cap_key@, target_org, g, covered_orgs@, user_id, resource_owner_id, k);
        }
        let m = decide(cap_key@, target_org, g, covered_orgs@, user_id, resource_owner_id);
        assert(reason_text(m.reason) == reason_text(DecisionReason::NotFound) ==> forall|k: int|
            0 <= k < org_caps@.len() ==> !justifies(#[trigger] g[k], cap_key@, target_org)) by {
            lemma_reason_text_distinct(m.reason);
            if m.reason == DecisionReason::NotFound {
                law_not_found_means_unjustified(cap_key@, target_org, g, covered_orgs@, user_id, resource_owner_id);
            }
        }
    }
    d
}

/// The decision of `evaluate_capability`, reached by scanning the
/// assignments in order.
fn evaluate_in_order(
    cap_key: &str,
    target_org: u128,
    org_caps: &Vec<AssignmentCaps>,
    covered_orgs: &Vec<u128>,
    user_id: u128,
    resource_owner_id: Option<u128>,
) -> (d: CapabilityDecision)
    ensures
        decision_matches(
            d,
            cap_key@,
            decide(
                cap_key@,
                target_org,
                grants_model(org_caps@),
                covered_orgs@,
                user_id,
                resource_owner_id,
            ),
        ),
{
    let ghost grants = grants_model(org_caps@);
    let key = chars_of(cap_key);
    let base = base_of(&key);
    let own = scope_is(&key, "own");
    let subtree = scope_is(&key, "subtree");
    let covered = contains_id(covered_orgs, target_org);
    if !covered {
        return make_decision(cap_key, deny_for(DecisionReason::NotCovered));
    }
    let mut i: usize = 0;
    while i < org_caps.len()
        invariant
            i <= org_caps.len(),
            grants == grants_model(org_caps@),
            covered_orgs@.contains(target_org),
            key@ == cap_key@,
            base@ == cap_base(cap_key@),
            own == (cap_scope(cap_key@) == Some("own"@)),
            subtree == (cap_scope(cap_key@) == Some("subtree"@)),
            scan_grants(cap_key@, target_org, grants, user_id, resource_owner_id, 0)
                == scan_grants(cap_key@, target_org, grants, user_id, resource_owner_id, i as int),
        decreases org_caps.len() - i,
    {
        let a = &org_caps[i];
        assert(grants[i as int] == a@);
        if holds_key(&a.caps, &key) {
            if own {
                if resource_owner_id == Some(user_id) {
                    return make_decision(cap_key, grant_by(DecisionReason::OwnGranted, a));
                } else {
                    return make_decision(cap_key, deny_for(DecisionReason::OwnRequiresOwnership));
                }
            } else if subtree {
                return make_decision(cap_key, grant_by(DecisionReason::SubtreeGranted, a));
            } else {
                return make_decision(cap_key, grant_by(DecisionReason::Granted, a));
            }
        }
        if a.org_node_id == target_org && subtree_form_in(&a.caps, &base) {
            return make_decision(cap_key, grant_by(DecisionReason::SubtreeInherited, a));
        }
        i = i + 1;
    }
    make_decision(cap_key, deny_for(DecisionReason::NotFound))
}

/// A role assignment of the user as fetched for an evaluation: the
/// capabilities of its role and the descendants of its org node.
pub struct AssignmentGrant {
    pub assignment_id: u128,
    pub org_node_id: u128,
    pub role_caps: Vec<String>,
    pub descendants: Vec<u128>,
}

/// Model of an `AssignmentGrant`.
pub struct AssignmentGrantModel {
    pub assignment_id: u128,
    pub org_node_id: u128,
    pub caps: Seq<Seq<char>>,
    pub descendants: Seq<u128>,
}

impl View for AssignmentGrant {
    type V = AssignmentGrantModel;

    open spec fn view(&self) -> AssignmentGrantModel {
        AssignmentGrantModel {
            assignment_id: self.assignment_id,
            org_node_id: self.org_node_id,
            caps: caps_model(self.role_caps@),
            descendants: self.descendants@,
        }
    }
}

pub open spec fn assignment_grants_model(v: Seq<AssignmentGrant>) -> Seq<AssignmentGrantModel> {
    v.map_values(|a: AssignmentGrant| a@)
}

/// Some capability in `caps` ends with `:subtree`.
pub open spec fn any_subtree_cap(caps: Seq<Seq<char>>) -> bool {
    exists|j: int| 0 <= j < caps.len() && has_suffix(#[trigger] caps[j], ":subtree"@)
}

/// The org nodes covered by the assignments: each assignment's own node, and
/// the descendants of those whose role has a `:subtree` capability.
pub open spec fn covered_orgs_of(gs: Seq<AssignmentGrantModel>) -> Seq<u128>
    decreases gs.len(),
{
    if gs.len() == 0 {
        Seq::<u128>::empty()
    } else {
        let g = gs.last();
        covered_orgs_of(gs.drop_last()) + seq![g.org_node_id] + if any_subtree_cap(g.caps) {
            g.descendants
        } else {
            Seq::<u128>::empty()
        }
    }
}

/// The assignments with their capabilities, in order.
pub open spec fn org_caps_of(gs: Seq<AssignmentGrantModel>) -> Seq<GrantModel> {
    gs.map_values(
        |g: AssignmentGrantModel|
            GrantModel { assignment_id: g.assignment_id, org_node_id: g.org_node_id, caps: g.caps },
    )
}

/// Whether some capability key in `caps` ends with `:subtree` (then the
/// descendants of the assignment's org node are covered too).
pub fn has_subtree_capability(caps: &Vec<String>) -> (r: bool)
    ensures
        r == any_subtree_cap(caps_model(caps@)),
{
    let suffix = chars_of(":subtree");
    let mut i: usize = 0;
    while i < caps.len()
        invariant
            i <= caps.len(),
            suffix@ == ":subtree"@,
            forall|j: int| 0 <= j < i ==> !has_suffix(#[trigger] caps_model(caps@)[j], ":subtree"@),
        decreases caps.len() - i,
    {
        let c = chars_of(caps[i].as_str());
        assert(caps_model(caps@)[i as int] == c@);
        if ends_with(&c, &suffix) {
            return true;
        }
        i = i + 1;
    }
    false
}

fn copy_strings(v: &Vec<String>) -> (r: Vec<String>)
    ensures
        r@ == v@,
{
    let mut r: Vec<String> = Vec::new();
    let mut i: usize = 0;
    while i < v.len()
        invariant
            i <= v.len(),
            r@ == v@.subrange(0, i as int),
        decreases v.len() - i,
    {
        r.push(v[i].clone());
        assert(r@ =~= v@.subrange(0, i + 1));
        i = i + 1;
    }
    assert(v@.subrange(0, v.len() as int) =~= v@);
    r
}

/// The assignments with their capabilities, and the org nodes they cover.
pub fn coverage(grants: &Vec<AssignmentGrant>) -> (r: (Vec<AssignmentCaps>, Vec<u128>))
    ensures
        grants_model(r.0@) == org_caps_of(assignment_grants_model(grants@)),
        r.1@ == covered_orgs_of(assignment_grants_model(grants@)),
{
    let mut org_caps: Vec<AssignmentCaps> = Vec::new();
    let mut covered: Vec<u128> = Vec::new();
    let mut i: usize = 0;
    while i < grants.len()
        invariant
            i <= grants.len(),
            grants_model(org_caps@) == org_caps_of(
                assignment_grants_model(grants@.subrange(0, i as int)),
            ),
            covered@ == covered_orgs_of(assignment_grants_model(grants@.subrange(0, i as int))),
        decreases grants.len() - i,
    {
        let g = &grants[i];
        let ghost prev = assignment_grants_model(grants@.subrange(0, i as int));
        let ghost next = assignment_grants_model(grants@.subrange(0, i + 1));
        assert(next.drop_last() =~= prev);
        assert(next.last() == g@);
        let ghost old_oc = org_caps@;
        assert(grants_model(old_oc).len() == old_oc.len());
        assert(prev.len() == i);
        assert(org_caps_of(prev).len() == prev.len());
        org_caps.push(
            AssignmentCaps {
                assignment_id: g.assignment_id,
                org_node_id: g.org_node_id,
                caps: copy_strings(&g.role_caps),
            },
        );
        assert forall|j: int| 0 <= j < org_caps@.len() implies grants_model(org_caps@)[j]
            == org_caps_of(next)[j] by {
            if j < i {
                assert(org_caps@[j] == old_oc[j]);
                assert(grants_model(old_oc)[j] == org_caps_of(prev)[j]);
            }
        }
        assert(grants_model(org_caps@) =~= org_caps_of(next));
        covered.push(g.org_node_id);
        if has_subtree_capability(&g.role_caps) {
            let mut j: usize = 0;
            let ghost base = covered@;
            while j < g.descendants.len()
                invariant
                    j <= g.descendants.len(),
                    covered@ == base + g.descendants@.subrange(0, j as int),
                decreases g.descendants.len() - j,
            {
                covered.push(g.descendants[j]);
                j = j + 1;
                assert(covered@ =~= base + g.descendants@.subrange(0, j as int));
            }
            assert(g.descendants@.subrange(0, g.descendants.len() as int) =~= g.descendants@);
        }
        assert(covered@ =~= covered_orgs_of(next));
        i = i + 1;
    }
    assert(grants@.subrange(0, grants.len() as int) =~= grants@);
    (org_caps, covered)
}

/// Authorization evaluation request.
pub struct EvaluateRequest {
    /// The org node to check permissions at
    pub org_node_id: u128,
    /// Capabilities to evaluate
    pub capabilities: Vec<String>,
    /// Optional resource ID for "own" scope checks
    pub resource_owner_id: Option<u128>,
}

/// Authorization evaluation response.
pub struct EvaluateResponse {
    pub user_id: u128,
    pub org_node_id: u128,
    pub all_allowed: bool,
    pub decisions: Vec<CapabilityDecision>,
}

/// `resp` answers `req` for `user_id` given the user's assignments `gs`.
pub open spec fn evaluation_of(
    resp: EvaluateResponse,
    user_id: u128,
    req: EvaluateRequest,
    gs: Seq<AssignmentGrantModel>,
) -> bool {
    &&& resp.user_id == user_id
    &&& resp.org_node_id == req.org_node_id
    &&& resp.decisions@.len() == req.capabilities@.len()
    &&& forall|i: int|
        0 <= i < resp.decisions@.len() ==> decision_matches(
            #[trigger] resp.decisions@[i],
            req.capabilities@[i]@,
            decide(
                req.capabilities@[i]@,
                req.org_node_id,
                org_caps_of(gs),
                covered_orgs_of(gs),
                user_id,
                req.resource_owner_id,
            ),
        )
    &&& resp.all_allowed == forall|i: int|
        0 <= i < resp.decisions@.len() ==> (#[trigger] resp.decisions@[i]).allowed
}

/// Evaluate authorization for the capabilities of `req` at its org node, for
/// the user `user_id` whose active assignments are `grants`.
pub fn evaluate(user_id: u128, req: &EvaluateRequest, grants: &Vec<AssignmentGrant>) -> (resp:
    EvaluateResponse)
    ensures
        evaluation_of(resp, user_id, *req, assignment_grants_model(grants@)),
{
    let (org_caps, covered) = coverage(grants);
    let ghost gs = assignment_grants_model(grants@);
    let mut decisions: Vec<CapabilityDecision> = Vec::new();
    let mut all_allowed = true;
    let mut i: usize = 0;
    while i < req.capabilities.len()
        invariant
            i <= req.capabilities.len(),
            grants_model(org_caps@) == org_caps_of(gs),
            covered@ == covered_orgs_of(gs),
            decisions@.len() == i,
            forall|k: int|
                0 <= k < i ==> decision_matches(
                    #[trigger] decisions@[k],
                    req.capabilities@[k]@,
                    decide(
                        req.capabilities@[k]@,
                        req.org_node_id,
                        org_caps_of(gs),
                        covered_orgs_of(gs),
                        user_id,
                        req.resource_owner_id,
                    ),
                ),
            all_allowed == forall|k: int| 0 <= k < i ==> (#[trigger] decisions@[k]).allowed,
        decreases req.capabilities.len() - i,
    {
        let d = evaluate_capability(
            req.capabilities[i].as_str(),
            req.org_node_id,
            &org_caps,
            &covered,
            user_id,
            req.resource_owner_id,
        );
        let ok = d.allowed;
        let ghost old = decisions@;
        let ghost was = all_allowed;
        decisions.push(d);
        all_allowed = all_allowed && ok;
        proof {
            assert(forall|k: int| 0 <= k < i ==> decisions@[k] == old[k]);
            if all_allowed {
                assert forall|k: int| 0 <= k < i + 1 implies (#[trigger] decisions@[k]).allowed by {
                    if k < i {
                        assert(old[k].allowed);
                    }
                }
            } else if !ok {
                assert(!decisions@[i as int].allowed);
            } else {
                let w = choose|k: int| 0 <= k < i && !(#[trigger] old[k]).allowed;
                assert(!decisions@[w].allowed);
            }
        }
        i = i + 1;
    }
    EvaluateResponse { user_id, org_node_id: req.org_node_id, all_allowed, decisions }
}

/// Batch evaluation request.
pub struct BatchEvaluateRequest {
    pub checks: Vec<EvaluateRequest>,
}

/// Batch evaluation response.
pub struct BatchEvaluateResponse {
    pub results: Vec<EvaluateResponse>,
    pub all_allowed: bool,
}

/// Evaluate every check of `req` for the user `user_id` whose active
/// assignments are `grants`.
pub fn batch_evaluate(
    user_id: u128,
    req: &BatchEvaluateRequest,
    grants: &Vec<AssignmentGrant>,
) -> (resp: BatchEvaluateResponse)
    ensures
        resp.results@.len() == req.checks@.len(),
        forall|i: int|
            0 <= i < resp.results@.len() ==> evaluation_of(
                #[trigger] resp.results@[i],
                user_id,
                req.checks@[i],
                assignment_grants_model(grants@),
            ),
        resp.all_allowed == forall|i: int|
            0 <= i < resp.results@.len() ==> (#[trigger] resp.results@[i]).all_allowed,
{
    let mut results: Vec<EvaluateResponse> = Vec::new();
    let mut all_allowed = true;
    let mut i: usize = 0;
    while i < req.checks.len()
        invariant
            i <= req.checks.len(),
            results@.len() == i,
            forall|k: int|
                0 <= k < i ==> evaluation_of(
                    #[trigger] results@[k],
                    user_id,
                    req.checks@[k],
                    assignment_grants_model(grants@),
                ),
            all_allowed == forall|k: int| 0 <= k < i ==> (#[trigger] results@[k]).all_allowed,
        decreases req.checks.len() - i,
    {
        let r = evaluate(user_id, &req.checks[i], grants);
        let ok = r.all_allowed;
        let ghost old = results@;
        results.push(r);
        all_allowed = all_allowed && ok;
        proof {
            assert(forall|k: int| 0 <= k < i ==> results@[k] == old[k]);
            if all_allowed {
                assert forall|k: int| 0 <= k < i + 1 implies (#[trigger] results@[k]).all_allowed by {
                    if k < i {
                        assert(old[k].all_allowed);
                    }
                }
            } else if !ok {
                assert(!results@[i as int].all_allowed);
            } else {
                let w = choose|k: int| 0 <= k < i && !(#[trigger] old[k]).all_allowed;
                assert(!results@[w].all_allowed);
            }
        }
        i = i + 1;
    }
    assert(all_allowed == forall|k: int|
        0 <= k < results@.len() ==> (#[trigger] results@[k]).all_allowed);
    BatchEvaluateResponse { results, all_allowed }
}


/// A grant of `cap` at `target` that `g` justifies: it holds the key itself,
/// or it sits at `target` and holds the subtree form of the key's base.
pub open spec fn justifies(g: GrantModel, cap: Seq<char>, target: u128) -> bool {
    ||| g.caps.contains(cap)
    ||| (g.org_node_id == target && has_subtree_form(g.caps, cap_base(cap)))
}

/// Nothing is granted at an org node that no assignment covers.
pub proof fn law_uncovered_target_denied(
    cap: Seq<char>,
    target: u128,
    grants: Seq<GrantModel>,
    covered: Seq<u128>,
    user_id: u128,
    resource_owner_id: Option<u128>,
)
    requires
        !covered.contains(target),
    ensures
        decide(cap, target, grants, covered, user_id, resource_owner_id) == denied(
            DecisionReason::NotCovered,
        ),
{
}

/// A user without assignments is granted nothing.
pub proof fn law_no_assignments_nothing_allowed(
    cap: Seq<char>,
    target: u128,
    user_id: u128,
    resource_owner_id: Option<u128>,
)
    ensures
        !decide(
            cap,
            target,
            org_caps_of(Seq::<AssignmentGrantModel>::empty()),
            covered_orgs_of(Seq::<AssignmentGrantModel>::empty()),
            user_id,
            resource_owner_id,
        ).allowed,
{
    assert(covered_orgs_of(Seq::<AssignmentGrantModel>::empty()) =~= Seq::<u128>::empty());
}

proof fn lemma_scan_outcome(
    cap: Seq<char>,
    target: u128,
    grants: Seq<GrantModel>,
    user_id: u128,
    resource_owner_id: Option<u128>,
    i: int,
)
    requires
        0 <= i,
    ensures
        ({
            let d = scan_grants(cap, target, grants, user_id, resource_owner_id, i);
            &&& d.allowed <==> d.granted_by_assignment is Some
            &&& d.allowed <==> d.granted_at_org is Some
            &&& d.allowed ==> exists|k: int|
                i <= k < grants.len() && justifies(#[trigger] grants[k], cap, target)
                    && d.granted_by_assignment == Some(grants[k].assignment_id)
                    && d.granted_at_org == Some(grants[k].org_node_id)
            &&& (d.allowed && cap_scope(cap) == Some("own"@) && d.reason
                != DecisionReason::SubtreeInherited) ==> resource_owner_id == Some(user_id)
        }),
    decreases grants.len() - i,
{
    if i < grants.len() {
        let g = grants[i];
        if !g.caps.contains(cap) && !(g.org_node_id == target && has_subtree_form(
            g.caps,
            cap_base(cap),
        )) {
            lemma_scan_outcome(cap, target, grants, user_id, resource_owner_id, i + 1);
        } else {
            assert(justifies(grants[i], cap, target));
        }
    }
}

/// Every grant names the assignment that justifies it, and every denial
/// names none: an allowed decision comes from an assignment that holds the
/// requested key, or that sits at the target node with the key's subtree form.
pub proof fn law_grant_is_justified(
    cap: Seq<char>,
    target: u128,
    grants: Seq<GrantModel>,
    covered: Seq<u128>,
    user_id: u128,
    resource_owner_id: Option<u128>,
)
    ensures
        ({
            let d = decide(cap, target, grants, covered, user_id, resource_owner_id);
            &&& d.allowed <==> d.granted_by_assignment is Some
            &&& d.allowed <==> d.granted_at_org is Some
            &&& d.allowed ==> covered.contains(target)
            &&& d.allowed ==> exists|k: int|
                0 <= k < grants.len() && justifies(#[trigger] grants[k], cap, target)
                    && d.granted_by_assignment == Some(grants[k].assignment_id)
                    && d.granted_at_org == Some(grants[k].org_node_id)
        }),
{
    lemma_scan_outcome(cap, target, grants, user_id, resource_owner_id, 0);
}

proof fn lemma_scan_complete(
    cap: Seq<char>,
    target: u128,
    grants: Seq<GrantModel>,
    user_id: u128,
    resource_owner_id: Option<u128>,
    i: int,
    k: int,
)
    requires
        0 <= i <= k < grants.len(),
        grants[k].caps.contains(cap),
        cap_scope(cap) != Some("own"@) || resource_owner_id == Some(user_id),
    ensures
        ({
            let d = scan_grants(cap, target, grants, user_id, resource_owner_id, i);
            &&& d.allowed
            &&& d.reason != DecisionReason::NotFound
            &&& exists|j: int|
                i <= j <= k && #[trigger] justifies(grants[j], cap, target)
                    && (forall|m: int| i <= m < j ==> !justifies(grants[m], cap, target))
                    && d.granted_by_assignment == Some(grants[j].assignment_id)
                    && d.granted_at_org == Some(grants[j].org_node_id)
        }),
    decreases k - i,
{
    if justifies(grants[i], cap, target) {
        assert(justifies(grants[i], cap, target));
    } else {
        lemma_scan_complete(cap, target, grants, user_id, resource_owner_id, i + 1, k);
        let d = scan_grants(cap, target, grants, user_id, resource_owner_id, i + 1);
        let j = choose|j: int|
            i + 1 <= j <= k && #[trigger] justifies(grants[j], cap, target)
                && (forall|m: int| i + 1 <= m < j ==> !justifies(grants[m], cap, target))
                && d.granted_by_assignment == Some(grants[j].assignment_id)
                && d.granted_at_org == Some(grants[j].org_node_id);
        assert forall|m: int| i <= m < j implies !justifies(grants[m], cap, target) by {
            if m > i {
            }
        }
    }
}

proof fn lemma_not_found_unjustified(
    cap: Seq<char>,
    target: u128,
    grants: Seq<GrantModel>,
    user_id: u128,
    resource_owner_id: Option<u128>,
    i: int,
)
    requires
        0 <= i,
        scan_grants(cap, target, grants, user_id, resource_owner_id, i).reason == DecisionReason::NotFound,
    ensures
        forall|k: int| i <= k < grants.len() ==> !justifies(#[trigger] grants[k], cap, target),
    decreases grants.len() - i,
{
    if i < grants.len() {
        if justifies(grants[i], cap, target) {
            assert(false);
        } else {
            lemma_not_found_unjustified(cap, target, grants, user_id, resource_owner_id, i + 1);
            assert forall|k: int| i <= k < grants.len() implies !justifies(#[trigger] grants[k], cap, target) by {
                if k > i {
                }
            }
        }
    }
}

/// Grants are complete: at a covered node, when some assignment, at any
/// position, holds the requested key itself (and the key is not of `own`
/// scope, or the resource is the user's), the capability is allowed; the
/// assignment named is the first that justifies the key, at or before that
/// one. An assignment that justifies nothing never stops the search.
pub proof fn law_grant_is_complete(
    cap: Seq<char>,
    target: u128,
    grants: Seq<GrantModel>,
    covered: Seq<u128>,
    user_id: u128,
    resource_owner_id: Option<u128>,
    k: int,
)
    requires
        covered.contains(target),
        0 <= k < grants.len(),
        grants[k].caps.contains(cap),
        cap_scope(cap) != Some("own"@) || resource_owner_id == Some(user_id),
    ensures
        ({
            let d = decide(cap, target, grants, covered, user_id, resource_owner_id);
            &&& d.allowed
            &&& d.reason != DecisionReason::NotFound
            &&& exists|j: int|
                0 <= j <= k && #[trigger] justifies(grants[j], cap, target)
                    && (forall|m: int| 0 <= m < j ==> !justifies(grants[m], cap, target))
                    && d.granted_by_assignment == Some(grants[j].assignment_id)
                    && d.granted_at_org == Some(grants[j].org_node_id)
        }),
{
    lemma_scan_complete(cap, target, grants, user_id, resource_owner_id, 0, k);
}

/// A denial for want of a grant means that no assignment justifies the key
/// at the target: none holds it, and none at the target holds its subtree
/// form.
pub proof fn law_not_found_means_unjustified(
    cap: Seq<char>,
    target: u128,
    grants: Seq<GrantModel>,
    covered: Seq<u128>,
    user_id: u128,
    resource_owner_id: Option<u128>,
)
    requires
        decide(cap, target, grants, covered, user_id, resource_owner_id).reason == DecisionReason::NotFound,
    ensures
        covered.contains(target),
        forall|k: int| 0 <= k < grants.len() ==> !justifies(#[trigger] grants[k], cap, target),
{
    lemma_not_found_unjustified(cap, target, grants, user_id, resource_owner_id, 0);
}

/// A capability of `own` scope held directly is granted only for a resource
/// that the user owns.
pub proof fn law_own_scope_needs_ownership(
    cap: Seq<char>,
    target: u128,
    grants: Seq<GrantModel>,
    covered: Seq<u128>,
    user_id: u128,
    resource_owner_id: Option<u128>,
)
    requires
        cap_scope(cap) == Some("own"@),
        decide(cap, target, grants, covered, user_id, resource_owner_id).allowed,
        decide(cap, target, grants, covered, user_id, resource_owner_id).reason
            != DecisionReason::SubtreeInherited,
    ensures
        resource_owner_id == Some(user_id),
{
    lemma_scan_outcome(cap, target, grants, user_id, resource_owner_id, 0);
}

} // verus!
