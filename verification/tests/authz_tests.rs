use auth_service::authz::{
    batch_evaluate, contains_id, evaluate, evaluate_capability, has_subtree_capability,
    reason_message, AssignmentCaps, AssignmentGrant, BatchEvaluateRequest, DecisionReason,
    EvaluateRequest,
};
use auth_service::scope::{has_scope, insufficient_scopes_message, missing_scope};

fn strings(v: &[&str]) -> Vec<String> {
    v.iter().map(|s| s.to_string()).collect()
}

fn caps(id: u128, org: u128, c: &[&str]) -> AssignmentCaps {
    AssignmentCaps { assignment_id: id, org_node_id: org, caps: strings(c) }
}

#[test]
fn uncovered_target_is_denied() {
    let d = evaluate_capability("crm.visit:view", 9, &vec![caps(1, 2, &["crm.visit:view"])], &vec![2], 7, None);
    assert!(!d.allowed);
    assert_eq!(d.reason, "No assignment covers target org node");
    assert_eq!(d.granted_by_assignment, None);
    assert_eq!(d.granted_at_org, None);
}

#[test]
fn exact_capability_is_granted() {
    let d = evaluate_capability("crm.visit:view", 2, &vec![caps(1, 2, &["crm.visit:view"])], &vec![2], 7, None);
    assert!(d.allowed);
    assert_eq!(d.reason, "Capability granted");
    assert_eq!(d.granted_by_assignment, Some(1));
    assert_eq!(d.granted_at_org, Some(2));
    assert_eq!(d.capability, "crm.visit:view");
}

#[test]
fn own_scope_requires_ownership() {
    let grants = vec![caps(1, 2, &["crm.visit:edit:own"])];
    let d = evaluate_capability("crm.visit:edit:own", 2, &grants, &vec![2], 7, Some(7));
    assert!(d.allowed);
    assert_eq!(d.reason, "Capability granted with own scope");
    let d = evaluate_capability("crm.visit:edit:own", 2, &grants, &vec![2], 7, Some(8));
    assert!(!d.allowed);
    assert_eq!(d.reason, "Own scope requires resource ownership");
    let d = evaluate_capability("crm.visit:edit:own", 2, &grants, &vec![2], 7, None);
    assert!(!d.allowed);
}

#[test]
fn subtree_scope_granted_and_inherited() {
    let grants = vec![caps(1, 2, &["crm.visit:view:subtree"])];
    let d = evaluate_capability("crm.visit:view:subtree", 3, &grants, &vec![2, 3], 7, None);
    assert!(d.allowed);
    assert_eq!(d.reason, "Capability granted with subtree scope");
    let d = evaluate_capability("crm.visit:view", 2, &grants, &vec![2, 3], 7, None);
    assert!(d.allowed);
    assert_eq!(d.reason, "Capability granted via subtree inheritance");
    // inheritance applies at the assignment's own node only
    let d = evaluate_capability("crm.visit:view", 3, &grants, &vec![2, 3], 7, None);
    assert!(!d.allowed);
    assert_eq!(d.reason, "Capability not found in any assignment");
}

#[test]
fn first_matching_assignment_decides() {
    let grants = vec![caps(1, 2, &["a:b"]), caps(5, 2, &["a:b"])];
    let d = evaluate_capability("a:b", 2, &grants, &vec![2], 7, None);
    assert_eq!(d.granted_by_assignment, Some(1));
}

#[test]
fn reason_texts() {
    assert_eq!(reason_message(DecisionReason::Granted), "Capability granted");
    assert_eq!(reason_message(DecisionReason::NotFound), "Capability not found in any assignment");
}

#[test]
fn subtree_capability_detection() {
    assert!(has_subtree_capability(&strings(&["x:y", "a:b:subtree"])));
    assert!(!has_subtree_capability(&strings(&["x:y", "a:b:own"])));
    assert!(!has_subtree_capability(&vec![]));
}

#[test]
fn contains_id_finds_members() {
    assert!(contains_id(&vec![1, 2, 3], 2));
    assert!(!contains_id(&vec![1, 2, 3], 4));
}

fn grant(id: u128, org: u128, c: &[&str], desc: &[u128]) -> AssignmentGrant {
    AssignmentGrant { assignment_id: id, org_node_id: org, role_caps: strings(c), descendants: desc.to_vec() }
}

#[test]
fn evaluate_covers_descendants_of_subtree_roles() {
    let grants = vec![grant(1, 10, &["crm.visit:view:subtree", "crm.visit:edit"], &[11, 12])];
    let req = EvaluateRequest { org_node_id: 11, capabilities: strings(&["crm.visit:view:subtree", "crm.visit:edit"]), resource_owner_id: None };
    let resp = evaluate(99, &req, &grants);
    assert_eq!(resp.user_id, 99);
    assert_eq!(resp.org_node_id, 11);
    assert_eq!(resp.decisions.len(), 2);
    assert!(resp.decisions[0].allowed);
    assert!(resp.decisions[1].allowed);
    assert!(resp.all_allowed);
}

#[test]
fn evaluate_without_subtree_role_does_not_cover_descendants() {
    let grants = vec![grant(1, 10, &["crm.visit:edit"], &[11])];
    let req = EvaluateRequest { org_node_id: 11, capabilities: strings(&["crm.visit:edit"]), resource_owner_id: None };
    let resp = evaluate(99, &req, &grants);
    assert!(!resp.all_allowed);
    assert_eq!(resp.decisions[0].reason, "No assignment covers target org node");
}

#[test]
fn no_assignments_nothing_allowed() {
    let req = EvaluateRequest { org_node_id: 1, capabilities: strings(&["a:b"]), resource_owner_id: None };
    let resp = evaluate(5, &req, &vec![]);
    assert!(!resp.all_allowed);
    assert!(!resp.decisions[0].allowed);
}

#[test]
fn empty_request_is_all_allowed() {
    let req = EvaluateRequest { org_node_id: 1, capabilities: vec![], resource_owner_id: None };
    let resp = evaluate(5, &req, &vec![]);
    assert!(resp.all_allowed);
    assert!(resp.decisions.is_empty());
}

#[test]
fn batch_all_allowed_iff_every_check() {
    let grants = vec![grant(1, 10, &["a:b"], &[])];
    let ok = EvaluateRequest { org_node_id: 10, capabilities: strings(&["a:b"]), resource_owner_id: None };
    let bad = EvaluateRequest { org_node_id: 10, capabilities: strings(&["a:c"]), resource_owner_id: None };
    let r = batch_evaluate(1, &BatchEvaluateRequest { checks: vec![ok] }, &grants);
    assert!(r.all_allowed);
    let ok = EvaluateRequest { org_node_id: 10, capabilities: strings(&["a:b"]), resource_owner_id: None };
    let r = batch_evaluate(1, &BatchEvaluateRequest { checks: vec![ok, bad] }, &grants);
    assert!(!r.all_allowed);
    assert_eq!(r.results.len(), 2);
    assert!(r.results[0].all_allowed);
    assert!(!r.results[1].all_allowed);
}

#[test]
fn scopes_cover_by_wildcard_exact_and_prefix() {
    assert!(has_scope(&strings(&["*"]), "read:payments"));
    assert!(has_scope(&strings(&["read:payments"]), "read:payments"));
    assert!(has_scope(&strings(&["read:*"]), "read:payments"));
    assert!(!has_scope(&strings(&["write:*"]), "read:payments"));
    assert!(!has_scope(&vec![], "read:payments"));
    assert!(has_scope(&strings(&["x", "read*"]), "readers"));
}

#[test]
fn coverage_grows_with_more_scopes() {
    let few = strings(&["a:1"]);
    let more = strings(&["b:*", "a:1"]);
    assert!(has_scope(&few, "a:1") && has_scope(&more, "a:1"));
    assert!(!has_scope(&few, "b:2") && has_scope(&more, "b:2"));
}

#[test]
fn missing_scope_reports_first_uncovered() {
    let granted = strings(&["a:*"]);
    assert_eq!(missing_scope(&granted, &strings(&["a:x", "b:y", "c:z"])), Some("b:y".to_string()));
    assert_eq!(missing_scope(&granted, &strings(&["a:x", "a:y"])), None);
    assert_eq!(missing_scope(&granted, &vec![]), None);
}

#[test]
fn insufficient_scope_message_names_scope() {
    assert_eq!(insufficient_scopes_message("b:y"), "Insufficient scopes. Required: b:y");
}
