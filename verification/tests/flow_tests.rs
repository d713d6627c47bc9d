use auth_service::audit::{default_limit, optional_id, rest_page, rpc_page};
use auth_service::error::AppError;
use auth_service::grants::{check_assignment_tenants, check_revocable, check_visibility_grant, CreateAssignmentRequest, ListGrantsQuery, OrgAssignment, VisibilityGrant};
use auth_service::ids::{parse_id, parse_id_field};
use auth_service::invitation::{check_new_invitation, check_rest_accept, check_rpc_accept, invite_url, rest_invitation_expiry, rpc_invitation_expiry, AcceptByTokenRequest, AcceptRefusal, InvitationRecord, InvitationStatus};
use auth_service::migration::{default_organization, is_migration_needed, legacy_organization, MigrationResult};
use auth_service::oauth::{authorization_url, check_audience, check_email_verified, check_oauth_state, claims_email, code_verifier_of, decode_state, encode_state, frontend_redirect, google_account_action, id_token_payload, pkce_authorization_url, read_callback, require_setting, signed_in_redirect, CallbackStep, GoogleAccountAction, GoogleCallbackQuery};

#[test]
fn audit_pages() {
    assert_eq!(default_limit(), 100);
    assert_eq!(rest_page(0, -5), (1, 0));
    assert_eq!(rest_page(5000, 7), (1000, 7));
    assert_eq!(rest_page(50, 0), (50, 0));
    assert_eq!(rpc_page(500, 3), (100, 3));
    assert_eq!(rpc_page(-1, -1), (1, 0));
    assert_eq!(optional_id(&None, "Invalid actor_user_id"), Ok(None));
    assert_eq!(optional_id(&Some("x".into()), "Invalid actor_user_id"), Err("Invalid actor_user_id".to_string()));
    assert_eq!(optional_id(&Some("00000000-0000-0000-0000-000000000001".into()), "m"), Ok(Some(1)));
}

#[test]
fn uuid_text() {
    assert_eq!(parse_id("00000000-0000-0000-0000-00000000000a"), Some(10));
    assert_eq!(parse_id("0000000000000000000000000000000a"), Some(10));
    assert_eq!(parse_id("not-a-uuid"), None);
    assert_eq!(parse_id_field("bad", "Invalid tenant_id"), Err("Invalid tenant_id".to_string()));
}

#[test]
fn assignments_in_force() {
    let req = CreateAssignmentRequest { tenant_id: 1, user_id: 2, role_id: 3, org_node_id: 4, start_utc: None };
    let a = OrgAssignment::new(9, &req, 100);
    assert_eq!(a.start_utc, 100);
    assert!(a.is_active(100));
    assert!(!a.is_active(99));
    let e = a.ended(200);
    assert!(e.is_active(199));
    assert!(!e.is_active(200));
    assert!(!e.to_response(300).is_active);
    let req2 = CreateAssignmentRequest { start_utc: Some(50), ..req };
    assert_eq!(OrgAssignment::new(9, &req2, 100).start_utc, 50);
    assert_eq!(check_assignment_tenants(1, 1, 2), Err(AppError::BadRequest("Role and org node must belong to the same tenant".into())));
    assert_eq!(check_assignment_tenants(1, 2, 2), Err(AppError::BadRequest("Tenant ID does not match role's tenant".into())));
    assert!(check_assignment_tenants(1, 1, 1).is_ok());
}

#[test]
fn visibility_grants() {
    assert_eq!(check_visibility_grant(1, 2, 1, None, None), Err(AppError::BadRequest("User does not belong to specified tenant".into())));
    assert_eq!(check_visibility_grant(1, 1, 2, None, None), Err(AppError::BadRequest("Org node does not belong to specified tenant".into())));
    assert_eq!(check_visibility_grant(1, 1, 1, Some(10), Some(10)), Err(AppError::BadRequest("end_utc must be after start_utc".into())));
    assert!(check_visibility_grant(1, 1, 1, Some(10), Some(11)).is_ok());
    assert!(check_visibility_grant(1, 1, 1, None, Some(1)).is_ok());
    let g = VisibilityGrant { grant_id: 1, tenant_id: 1, user_id: 1, org_node_id: 1, access_scope_code: "read".into(), start_utc: 0, end_utc: Some(10) };
    assert!(check_revocable(&g, 5).is_ok());
    assert_eq!(check_revocable(&g, 10), Err(AppError::BadRequest("Grant is already inactive or expired".into())));
    assert!(g.is_revoked(10) && !g.is_revoked(9));
    assert!(!ListGrantsQuery { active: None }.active_only());
    assert!(ListGrantsQuery { active: Some(true) }.active_only());
}

fn invitation(accepted: Option<i64>) -> InvitationRecord {
    InvitationRecord { invitation_id: 1, tenant_id: 2, email: "a@b.c".into(), org_node_id: 3, role_id: 4, token_hash: "h".into(), expiry_utc: 1000, created_utc: 0, accepted_utc: accepted, created_by_user_id: 0 }
}

#[test]
fn invitation_lifecycle() {
    let inv = invitation(None);
    assert_eq!(inv.status(1000), InvitationStatus::Pending);
    assert_eq!(inv.status(1001), InvitationStatus::Expired);
    assert_eq!(invitation(Some(5)).status(0), InvitationStatus::Accepted);
    assert!(inv.is_valid(1000) && !inv.is_valid(1001));
    let pw = |p: &str| AcceptByTokenRequest { password: p.into(), display_name: None };
    assert!(check_rest_accept(&inv, &pw("longpassword"), 10).is_ok());
    assert_eq!(check_rest_accept(&inv, &pw("short"), 10), Err(AppError::BadRequest("Password must be at least 8 characters".into())));
    assert_eq!(check_rest_accept(&inv, &pw("longpassword"), 2000), Err(AppError::BadRequest("Invitation has expired or already been accepted".into())));
    assert_eq!(check_rpc_accept(&invitation(Some(1)), "longpassword", 0), Err(AcceptRefusal::FailedPrecondition("Invitation already accepted".into())));
    assert_eq!(check_rpc_accept(&inv, "longpassword", 2000), Err(AcceptRefusal::FailedPrecondition("Invitation has expired".into())));
    assert_eq!(check_rpc_accept(&inv, "short", 0), Err(AcceptRefusal::InvalidArgument("Password must be at least 8 characters".into())));
    assert!(check_rpc_accept(&inv, "12345678", 0).is_ok());
}

#[test]
fn invitation_creation() {
    assert_eq!(rest_invitation_expiry(0, None), 168 * 3600);
    assert_eq!(rest_invitation_expiry(10, Some(1)), 3610);
    assert_eq!(rpc_invitation_expiry(0, None), 72 * 3600);
    assert_eq!(check_new_invitation(1, 2, 1, false), Err(AppError::BadRequest("Org node does not belong to specified tenant".into())));
    assert_eq!(check_new_invitation(1, 1, 2, false), Err(AppError::BadRequest("Role does not belong to specified tenant".into())));
    assert_eq!(check_new_invitation(1, 1, 1, true), Err(AppError::Conflict("User with this email already exists in tenant".into())));
    assert!(check_new_invitation(1, 1, 1, false).is_ok());
    assert_eq!(invite_url(None, "t"), "http://localhost:9005/auth/invitations/t");
    assert_eq!(invite_url(Some("https://x"), "t"), "https://x/auth/invitations/t");
}

#[test]
fn migration_tally() {
    let mut r = MigrationResult::new();
    r.note_client_processed();
    r.note_organization_created();
    r.note_users_updated(7);
    assert_eq!((r.organizations_created, r.users_updated, r.clients_processed), (1, 7, 1));
    assert!(legacy_organization(true).is_none());
    let o = legacy_organization(false).unwrap();
    assert_eq!(o.name, "Legacy Default");
    assert_eq!(o.app_id, "00000000-0000-0000-0000-000000000000");
    assert!(default_organization("c1", true, "o").is_none());
    let d = default_organization("c1", false, "o1").unwrap();
    assert_eq!((d.id.as_str(), d.app_id.as_str(), d.name.as_str()), ("o1", "c1", "Default"));
    assert!(is_migration_needed(1));
    assert!(!is_migration_needed(0));
}

#[test]
fn google_flow_pieces() {
    assert_eq!(require_setting(None, "GOOGLE_CLIENT_ID"), Err(AppError::ConfigError("GOOGLE_CLIENT_ID not configured".into())));
    assert_eq!(require_setting(Some("x"), "K"), Ok("x".to_string()));
    assert_eq!(encode_state("hello"), "aGVsbG8");
    assert_eq!(decode_state("aGVsbG8"), Ok("hello".to_string()));
    assert_eq!(decode_state("!!"), Err(AppError::BadRequest("Invalid state parameter".into())));
    assert_eq!(authorization_url("id 1", "http://cb", "s"), "https://accounts.google.com/o/oauth2/v2/auth?client_id=id%201&redirect_uri=http%3A%2F%2Fcb&response_type=code&scope=openid%20email%20profile&state=s&prompt=select_account");
    let q = GoogleCallbackQuery { code: None, state: None, error: Some("access denied".into()) };
    assert_eq!(read_callback(&q), Ok(CallbackStep::ShowError("/auth/error?error=access%20denied".into())));
    let q = GoogleCallbackQuery { code: None, state: Some("s".into()), error: None };
    assert_eq!(read_callback(&q), Err(AppError::BadRequest("Missing authorization code".into())));
    let q = GoogleCallbackQuery { code: Some("c".into()), state: None, error: None };
    assert_eq!(read_callback(&q), Err(AppError::BadRequest("Missing state parameter".into())));
    let q = GoogleCallbackQuery { code: Some("c".into()), state: Some("s".into()), error: None };
    assert_eq!(read_callback(&q), Ok(CallbackStep::Exchange { code: "c".into(), state: "s".into() }));
}

#[test]
fn id_token_reading() {
    assert_eq!(id_token_payload("a.eyJzdWIiOiIxIn0.c"), Ok("{\"sub\":\"1\"}".to_string()));
    assert_eq!(id_token_payload("a.b"), Err(AppError::BadRequest("Invalid ID token format".into())));
    assert_eq!(id_token_payload("a.!.c"), Err(AppError::BadRequest("Failed to decode token payload".into())));
    assert_eq!(check_audience("x", "y"), Err(AppError::AuthError("Invalid token audience".into())));
    assert!(check_audience("x", "x").is_ok());
    assert_eq!(claims_email(&None), Err(AppError::BadRequest("Email not provided by Google".into())));
    assert_eq!(google_account_action(true, true), GoogleAccountAction::SignInIdentityUser);
    assert_eq!(google_account_action(false, true), GoogleAccountAction::LinkToEmailUser);
    assert_eq!(google_account_action(false, false), GoogleAccountAction::CreateUser);
    assert_eq!(signed_in_redirect(None, "a b", "r", "u1", true), "/?access_token=a%20b&refresh_token=r&user_id=u1&is_new_user=true");
}

#[test]
fn pkce_flow_pieces() {
    assert!(check_oauth_state(Some("s"), "s").is_ok());
    assert_eq!(check_oauth_state(Some("s"), "t"), Err(AppError::BadRequest("Invalid OAuth state".into())));
    assert_eq!(check_oauth_state(None, "t"), Err(AppError::BadRequest("Invalid OAuth state".into())));
    assert_eq!(code_verifier_of(None), Err(AppError::BadRequest("Missing code verifier".into())));
    assert_eq!(check_email_verified(false), Err(AppError::BadRequest("Google account email not verified".into())));
    assert_eq!(frontend_redirect("https://f", "a", "r"), "https://f?access_token=a&refresh_token=r");
    assert_eq!(pkce_authorization_url("i", "r", "s", "c"), "https://accounts.google.com/o/oauth2/v2/auth?client_id=i&redirect_uri=r&response_type=code&scope=openid%20email%20profile&state=s&code_challenge=c&code_challenge_method=S256");
}
