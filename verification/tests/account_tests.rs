use auth_service::auth_context::{build_context, check_capability_at, claims_ids, context_bearer, extract_auth_context, AssignmentRoleInfo};
use auth_service::dtos::admin::CreateServiceAccountRequest;
use auth_service::dtos::auth::{LoginRequest, PasswordResetConfirm, RegisterRequest, VerifyRequest};
use auth_service::error::{AppError, RpcRefusal};
use auth_service::org_tree::{build_org_tree, check_new_org_node, CreateOrgNodeRequest, OrgNode};
use auth_service::organizations::{check_new_org_name, check_org_found, check_rename};
use auth_service::roles::{check_role_tenant, registrable_keys, EnsureTally};
use auth_service::service_registry::{check_key_free, check_rotation, check_service_credentials, generate_rest_secret, generate_rpc_secret, hash_secret, old_secret_valid_until, permission_granted_message, rotate_service_secrets, ServiceSecretRecord};
use auth_service::tenant::{AccessTokenClaims, TenantContext, TenantError};
use auth_service::tenant_admin::{admin_display_name, grantable_cap_ids, plan_bootstrap, plan_tenant, root_node_label, validate_bootstrap, validate_create_tenant, CapabilityRow, CreateTenantRequest, NewTenantIds};
use auth_service::user_auth::{check_login_account, check_login_password, check_refresh_session, check_refresh_user, check_signup, default_display_name, logout_message, token_digest, validate_email, validate_password, RefreshSession};
use auth_service::users::{check_current_password, profile_changes, ChangePasswordRequest, UpdateUserRequest};
use auth_service::validation::validation_message;

#[test]
fn tenant_context_org() {
    let c = TenantContext::new("app".into(), "org".into());
    assert_eq!(c.require_org_id(), Ok("org"));
    let c = TenantContext::app_only("app".into());
    assert_eq!(c.require_org_id(), Err(TenantError::OrgIdRequired));
    let claims = AccessTokenClaims { sub: "u".into(), app_id: "a".into(), org_id: "o".into(), email: "e".into(), jti: "j".into(), exp: 0 };
    let c = TenantContext::from_claims(&claims);
    assert_eq!(c.org_id, Some("o".to_string()));
    assert_eq!(TenantContext::from_extension(None), Err(AppError::AuthError("Tenant context not found".into())));
    assert_eq!(TenantError::Invalid("x".into()).message(), "Invalid tenant context: x");
    assert_eq!(TenantError::OrgIdRequired.message(), "Organization ID is required");
}

#[test]
fn error_status_codes() {
    assert_eq!(AppError::NotFound("x".into()).status_code(), 404);
    assert_eq!(AppError::TooManyRequests("x".into(), None).status_code(), 429);
    assert_eq!(AppError::BadGateway("x".into()).status_code(), 502);
    assert_eq!(AppError::Conflict("c".into()).message(), "c");
}

fn node(id: u128, parent: Option<u128>) -> OrgNode {
    OrgNode { org_node_id: id, tenant_id: 1, parent_org_node_id: parent, node_type_code: "org".into(), node_label: format!("n{}", id), active_flag: true, created_utc: 0 }
}

#[test]
fn org_tree_nests_children_in_order() {
    let nodes = vec![node(2, Some(1)), node(1, None), node(3, Some(1)), node(4, Some(2)), node(5, None)];
    let forest = build_org_tree(&nodes);
    assert_eq!(forest.len(), 2);
    assert_eq!(forest[0].node.org_node_id, 1);
    assert_eq!(forest[1].node.org_node_id, 5);
    let kids: Vec<u128> = forest[0].children.iter().map(|c| c.node.org_node_id).collect();
    assert_eq!(kids, vec![2, 3]);
    assert_eq!(forest[0].children[0].children[0].node.org_node_id, 4);
    assert!(forest[0].children[0].children[0].children.is_empty());
    assert!(build_org_tree(&vec![]).is_empty());
    // a deep chain is not cut off
    let chain: Vec<OrgNode> = (1..=6u128).map(|i| node(i, if i == 1 { None } else { Some(i - 1) })).collect();
    let f = build_org_tree(&chain);
    let mut t = &f[0];
    for _ in 0..5 { t = &t.children[0]; }
    assert_eq!(t.node.org_node_id, 6);
}

#[test]
fn org_node_checks() {
    let req = CreateOrgNodeRequest { tenant_id: 1, parent_org_node_id: Some(9), node_type_code: "x".into(), node_label: "y".into() };
    assert_eq!(check_new_org_node(&req, None, None), Err(AppError::NotFound("Tenant not found".into())));
    assert_eq!(check_new_org_node(&req, Some(false), None), Err(AppError::BadRequest("Tenant is suspended".into())));
    assert_eq!(check_new_org_node(&req, Some(true), None), Err(AppError::NotFound("Parent org node not found".into())));
    assert_eq!(check_new_org_node(&req, Some(true), Some(2)), Err(AppError::BadRequest("Parent org node belongs to different tenant".into())));
    assert!(check_new_org_node(&req, Some(true), Some(1)).is_ok());
}

fn tenant_req(slug: &str, email: &str, pw: &str) -> CreateTenantRequest {
    CreateTenantRequest { tenant_slug: slug.into(), tenant_label: "Acme".into(), admin_email: email.into(), admin_password: pw.into(), admin_display_name: None }
}

#[test]
fn tenant_creation_checks() {
    assert!(validate_create_tenant(&tenant_req("acme-1", "a@b", "password1")).is_ok());
    assert_eq!(validate_create_tenant(&tenant_req("ab", "a@b", "password1")), Err("tenant_slug must be 3-63 characters".to_string()));
    assert_eq!(validate_create_tenant(&tenant_req(&"a".repeat(64), "a@b", "password1")), Err("tenant_slug must be 3-63 characters".to_string()));
    assert_eq!(validate_create_tenant(&tenant_req("Acme", "a@b", "password1")), Err("tenant_slug must contain only lowercase letters, digits, and hyphens".to_string()));
    assert_eq!(validate_create_tenant(&tenant_req("-acme", "a@b", "password1")), Err("tenant_slug must not start or end with a hyphen".to_string()));
    assert_eq!(validate_create_tenant(&tenant_req("acme", "ab", "password1")), Err("admin_email must be a valid email address".to_string()));
    assert_eq!(validate_create_tenant(&tenant_req("acme", "a@b", "short")), Err("admin_password must be at least 8 characters".to_string()));
    assert_eq!(validate_bootstrap(&tenant_req("", "a@b", "password1")), Err("tenant_slug is required".to_string()));
    assert_eq!(validate_bootstrap(&tenant_req("A B", "", "password1")), Err("admin_email is required".to_string()));
    assert!(validate_bootstrap(&tenant_req("A B", "x", "password1")).is_ok());
}

#[test]
fn tenant_setup_plans() {
    assert_eq!(root_node_label("Acme"), "Acme Root");
    assert_eq!(admin_display_name(&None), "Admin");
    assert_eq!(admin_display_name(&Some("Bo".into())), "Bo");
    let caps = vec![CapabilityRow { cap_id: 1, cap_key: "*".into() }, CapabilityRow { cap_id: 2, cap_key: "a:b".into() }, CapabilityRow { cap_id: 3, cap_key: "c:d".into() }];
    assert_eq!(grantable_cap_ids(&caps), vec![2, 3]);
    let ids = NewTenantIds { tenant_id: 1, root_org_node_id: 2, role_id: 3, admin_user_id: 4, assignment_id: 5 };
    let p = plan_tenant(&tenant_req("acme", "a@b", "password1"), ids, &caps, "hash".into());
    assert_eq!(p.role_name, "Admin");
    assert_eq!(p.role_cap_ids, vec![2, 3]);
    assert_eq!(p.root_node_type, "org");
    assert_eq!(p.root_node_label, "Acme Root");
    let b = plan_bootstrap(&tenant_req("acme", "a@b", "password1"), ids, 1, "hash".into());
    assert_eq!(b.role_name, "Superadmin");
    assert_eq!(b.role_cap_ids, vec![1]);
}

#[test]
fn signup_and_signin_checks() {
    assert_eq!(validate_email(""), Err(AppError::BadRequest("Email is required".into())));
    assert_eq!(validate_email("ab.c"), Err(AppError::BadRequest("Invalid email format".into())));
    assert_eq!(validate_email(&format!("a@{}.c", "b".repeat(260))), Err(AppError::BadRequest("Email too long".into())));
    assert!(validate_email("a@b.c").is_ok());
    assert_eq!(validate_password("1234567"), Err(AppError::BadRequest("Password must be at least 8 characters".into())));
    assert_eq!(validate_password(&"x".repeat(129)), Err(AppError::BadRequest("Password too long".into())));
    assert!(validate_password("12345678").is_ok());
    assert_eq!(default_display_name(&None, "jane@x.io"), "jane");
    assert_eq!(default_display_name(&None, "plain"), "plain");
    assert_eq!(check_signup(None, false), Err(AppError::NotFound("Tenant not found".into())));
    assert_eq!(check_signup(Some(false), false), Err(AppError::BadRequest("Tenant is suspended".into())));
    assert_eq!(check_signup(Some(true), true), Err(AppError::Conflict("Email already registered".into())));
    let invalid = Err(AppError::AuthError("Invalid credentials".into()));
    assert_eq!(check_login_account(None, None), invalid);
    assert_eq!(check_login_account(Some(true), None), invalid);
    assert_eq!(check_login_account(Some(true), Some(false)), Err(AppError::AuthError("Account is disabled".into())));
    let h = auth_service::password::hash_password("password1").unwrap();
    assert!(check_login_password("password1", Some(&h)).is_ok());
    assert_eq!(check_login_password("password2", Some(&h)), invalid);
    assert_eq!(check_login_password("password1", None), invalid);
    assert!(matches!(check_login_password("password1", Some("garbage")), Err(AppError::InternalError(m)) if m.starts_with("Invalid password hash: ")));
}

#[test]
fn refresh_sessions() {
    let s = RefreshSession::new(1, 2, token_digest("tok"), 100, 7);
    assert_eq!(s.expiry_utc, 100 + 7 * 86400);
    assert!(s.is_valid(100));
    assert!(check_refresh_session(Some(&s), 2, 200).is_ok());
    assert_eq!(check_refresh_session(None, 2, 200), Err(AppError::AuthError("Session not found".into())));
    assert_eq!(check_refresh_session(Some(&s), 3, 200), Err(AppError::AuthError("Session mismatch".into())));
    assert_eq!(check_refresh_session(Some(&s), 2, s.expiry_utc), Err(AppError::AuthError("Session expired or revoked".into())));
    let mut r = s.clone();
    r.revoked = true;
    assert_eq!(check_refresh_session(Some(&r), 2, 200), Err(AppError::AuthError("Session expired or revoked".into())));
    assert_eq!(check_refresh_user(None), Err(AppError::AuthError("User not found".into())));
    assert_eq!(logout_message().message, "Logged out successfully");
}

#[test]
fn request_body_checks() {
    let r = RegisterRequest { email: "bad".into(), password: "short".into(), name: None };
    let errs = r.validate().unwrap_err();
    assert_eq!(errs.len(), 2);
    assert_eq!(errs[0].field, "email");
    assert_eq!(errs[1].message, "Password must be at least 8 characters");
    assert_eq!(validation_message(&errs), "Validation error: email: Invalid email format\npassword: Password must be at least 8 characters");
    assert!(RegisterRequest { email: "a@b.co".into(), password: "12345678".into(), name: None }.validate().is_ok());
    assert!(LoginRequest { email: "a@b.co".into(), password: "".into() }.validate().is_err());
    assert!(VerifyRequest { token: "".into() }.validate().is_err());
    assert!(PasswordResetConfirm { token: "t".into(), new_password: "1234567".into() }.validate().is_err());
    let e = CreateServiceAccountRequest { service_name: "".into(), scopes: vec![] }.validate().unwrap_err();
    assert_eq!(validation_message(&e), "Validation error: service_name: Service name is required");
    assert!(UpdateUserRequest { name: None, email: None }.validate().is_ok());
    assert!(UpdateUserRequest { name: None, email: Some("nope".into()) }.validate().is_err());
    assert!(ChangePasswordRequest { current_password: "x".into(), new_password: "1234567".into() }.validate().is_err());
}

#[test]
fn profile_and_password_changes() {
    let req = UpdateUserRequest { name: Some("N".into()), email: Some("new@x.io".into()) };
    assert_eq!(profile_changes(&req, "old@x.io", true), Err(AppError::Conflict("Email already in use".into())));
    let c = profile_changes(&req, "old@x.io", false).unwrap();
    assert_eq!(c.new_email, Some("new@x.io".to_string()));
    assert_eq!(c.new_name, Some("N".to_string()));
    let c = profile_changes(&req, "new@x.io", true).unwrap();
    assert_eq!(c.new_email, None);
    let h = auth_service::password::hash_password("current1").unwrap();
    assert!(check_current_password("current1", &h).is_ok());
    assert_eq!(check_current_password("other", &h), Err(AppError::AuthError("Incorrect current password".into())));
}

#[test]
fn roles_and_registry() {
    assert_eq!(check_role_tenant(Some(false)), Err(AppError::BadRequest("Tenant is suspended".into())));
    let keys: Vec<String> = vec!["a".into(), "".into(), "b".into()];
    assert_eq!(registrable_keys(&keys), vec!["a".to_string(), "b".to_string()]);
    let mut t = EnsureTally::new();
    t.record(true);
    t.record(false);
    t.record(false);
    assert_eq!((t.created, t.existing), (2, 1));
    assert_eq!(check_key_free(true), Err(AppError::Conflict("Service key already exists".into())));
    let secret = generate_rest_secret();
    assert_eq!(secret.len(), 48);
    assert_eq!(generate_rpc_secret().len(), 64);
    let stored = hash_secret(&secret);
    let records = vec![ServiceSecretRecord { secret_hash: stored.clone(), valid_until: None }];
    assert!(check_service_credentials(Some(true), &records, &secret, 0).is_ok());
    assert_eq!(check_service_credentials(Some(true), &records, "x", 0), Err(AppError::AuthError("Invalid credentials".into())));
    assert_eq!(check_service_credentials(Some(false), &records, &secret, 0), Err(AppError::AuthError("Service is disabled".into())));
    assert_eq!(check_service_credentials(None, &vec![], &secret, 0), Err(AppError::AuthError("Invalid credentials".into())));
    assert_eq!(check_service_credentials(Some(true), &vec![], &secret, 0), Err(AppError::AuthError("Invalid credentials".into())));
    assert_eq!(check_rotation(true, Some(&stored), "x"), Err(AppError::AuthError("Invalid current secret".into())));
    assert_eq!(check_rotation(true, None, "x"), Err(AppError::AuthError("No valid secret found".into())));
    assert_eq!(check_rotation(false, None, "x"), Err(AppError::NotFound("Service not found".into())));
    assert!(check_rotation(true, Some(&stored), &secret).is_ok());
    assert_eq!(old_secret_valid_until(0), 86400);
    assert_eq!(permission_granted_message("read:x"), "Permission 'read:x' granted to service");
}

#[test]
fn organizations_names() {
    assert_eq!(check_new_org_name("Acme", true), Err(AppError::Conflict("Organization 'Acme' already exists in this app".into())));
    assert!(check_new_org_name("Acme", false).is_ok());
    assert!(check_rename("Acme", Some("Acme"), true).is_ok());
    assert!(check_rename("Acme", None, true).is_ok());
    assert!(check_rename("Acme", Some("Beta"), true).is_err());
    assert_eq!(check_org_found(0), Err(AppError::NotFound("Organization not found".into())));
}

fn info(id: u128, org: u128, label: Option<&str>, caps: &[&str]) -> AssignmentRoleInfo {
    AssignmentRoleInfo { assignment_id: id, org_node_id: org, role_id: 100 + id, role_label: label.map(|s| s.to_string()), capabilities: caps.iter().map(|s| s.to_string()).collect() }
}

#[test]
fn auth_context_and_check() {
    let v = vec![info(1, 10, Some("A"), &["x", "y"]), info(2, 20, Some("B"), &["y", "z"]), info(3, 10, None, &["w"])];
    let all = build_context(7, 8, None, &vec![], &v);
    assert_eq!(all.assignments.len(), 2);
    assert_eq!(all.capabilities, vec!["x", "y", "z"]);
    let sub = build_context(7, 8, Some(10), &vec![11], &v);
    assert_eq!(sub.assignments.len(), 1);
    assert_eq!(sub.assignments[0].role_label, "A");
    let sub = build_context(7, 8, Some(5), &vec![20], &v);
    assert_eq!(sub.capabilities, vec!["y", "z"]);
    let r = check_capability_at(20, &"z".to_string(), &v);
    assert!(r.allowed);
    assert_eq!(r.matched_assignment, Some(2));
    let r = check_capability_at(10, &"z".to_string(), &v);
    assert!(!r.allowed);
    assert_eq!(r.matched_assignment, None);
    assert_eq!(context_bearer(None), Err(AppError::AuthError("Missing authorization header".into())));
    assert_eq!(context_bearer(Some("Token x")), Err(AppError::AuthError("Invalid authorization header".into())));
    assert_eq!(context_bearer(Some("Bearer x")), Ok("x".to_string()));
    assert_eq!(claims_ids("bad", "bad"), Err(AppError::AuthError("Invalid user ID in token".into())));
    let one = "00000000-0000-0000-0000-000000000001";
    assert_eq!(claims_ids(one, "bad"), Err(AppError::AuthError("Invalid tenant ID in token".into())));
    assert_eq!(claims_ids(one, one), Ok((1, 1)));
    assert_eq!(extract_auth_context(None, None), Err(RpcRefusal::Unauthenticated("Missing x-app-id header".into())));
    assert_eq!(extract_auth_context(Some("x"), None), Err(RpcRefusal::InvalidArgument("x-app-id is not a valid UUID".into())));
    assert_eq!(extract_auth_context(Some(one), None), Err(RpcRefusal::Unauthenticated("Missing x-user-id header".into())));
    assert_eq!(extract_auth_context(Some(one), Some(one)).unwrap().user_id, 1);
}

#[test]
fn rotated_service_secret_has_a_day_of_grace() {
    let old_secret = generate_rest_secret();
    let mut records = vec![ServiceSecretRecord { secret_hash: hash_secret(&old_secret), valid_until: None }];
    let now = 1_000_000;
    let new_secret = rotate_service_secrets(&mut records, now);
    assert_eq!(new_secret.len(), 48);
    assert!(new_secret.chars().all(|c| c.is_ascii_alphanumeric()));
    assert_eq!(records.len(), 2);
    assert_eq!(records[0].valid_until, Some(now + 86400));
    assert_eq!(records[1].valid_until, None);
    assert_eq!(records[1].secret_hash, hash_secret(&new_secret));
    assert!(check_service_credentials(Some(true), &records, &old_secret, now + 86399).is_ok());
    assert_eq!(
        check_service_credentials(Some(true), &records, &old_secret, now + 86400),
        Err(AppError::AuthError("Invalid credentials".into()))
    );
    assert!(check_service_credentials(Some(true), &records, &new_secret, now + 10 * 86400).is_ok());
}
