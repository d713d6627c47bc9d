use auth_service::audit::AuditEventsResponse;
use auth_service::clients::{new_client, rotate_client_credentials, ClientRecord};
use auth_service::dtos::admin::{
    CreateClientRequest, CreateOrganizationRequest, ListOrganizationsResponse,
    UpdateOrganizationRequest,
};
use auth_service::error::AppError;
use auth_service::invitation::{
    accept_invitation_by_token, accept_invitation_rpc, accepted_sign_in, new_invitation,
    AcceptByTokenRequest, AcceptRefusal, InvitationRecord,
};
use auth_service::config::Environment;
use auth_service::digest::sha256_hex;
use auth_service::grants::check_rpc_grant_targets;
use auth_service::error::RpcRefusal;
use auth_service::oauth::{google_sign_in_writes, GoogleSignInWrites};
use auth_service::otp::{check_login_target, try_found_otp_code};
use auth_service::service_account::{rotate_service_key, ServiceAccount};
use auth_service::tenant_admin::{superadmin_capability, CapabilityRow};
use auth_service::users::{change_password, ChangePasswordRequest};
use auth_service::oauth::{finished_flow_cookies, google_user_write, GoogleUserInfo, GoogleUserWrite, SocialUser};
use auth_service::organizations::{update_organization, OrganizationRecord};
use auth_service::otp::{hash_otp, try_otp_code, OtpChannel, OtpPurpose, OtpRecord};
use auth_service::password::password_matches;
use auth_service::tenant::{AccessTokenClaims, AppTokenClaims, TenantContext};
use auth_service::user_auth::{
    auth_response, check_refresh_session, issue_session, rotate_session, signup_records,
    token_digest, RegisterRequest,
};
use auth_service::users::{profile_changes, UpdateUserRequest, UserProfile};

#[test]
fn create_client_request_needs_a_name() {
    let req = CreateClientRequest { app_name: String::new(), app_type: 1u8, rate_limit_per_min: 0, allowed_origins: vec![] };
    let errs = req.validate().unwrap_err();
    assert_eq!(errs.len(), 1);
    let ok = CreateClientRequest { app_name: "BFF".to_string(), app_type: 1u8, rate_limit_per_min: 0, allowed_origins: vec![] };
    assert!(ok.validate().is_ok());
}

#[test]
fn new_client_stores_the_hash_of_its_secret() {
    let req = CreateClientRequest {
        app_name: "BFF".to_string(),
        app_type: 7u8,
        rate_limit_per_min: 30,
        allowed_origins: vec!["http://localhost:3000".to_string()],
    };
    let (c, resp) = new_client(req).unwrap();
    assert_eq!(c.client_id, resp.client_id);
    assert_eq!(resp.client_id.len(), 36);
    assert!(password_matches(&resp.client_secret, &c.client_secret_hash));
    assert_eq!(c.signing_secret, resp.signing_secret);
    assert_eq!(resp.app_type, 7u8);
    assert_eq!(c.rate_limit_per_min, 30);
    assert!(c.enabled);
}

#[test]
fn rotated_client_secret_opens_and_old_is_kept() {
    let client = ClientRecord {
        client_id: "c1".to_string(),
        client_secret_hash: "old-hash".to_string(),
        signing_secret: "s".to_string(),
        app_name: "A".to_string(),
        rate_limit_per_min: 0,
        allowed_origins: vec![],
        enabled: true,
        previous_client_secret_hash: None,
        previous_secret_expiry: None,
    };
    let r = rotate_client_credentials(&client, 1000).unwrap();
    assert!(password_matches(&r.new_client_secret, &r.client.client_secret_hash));
    assert_eq!(r.client.previous_client_secret_hash, Some("old-hash".to_string()));
    assert_eq!(r.client.previous_secret_expiry, Some(1000 + 86400));
    assert_eq!(r.previous_secret_expiry, 1000 + 86400);
    assert_eq!(r.client.signing_secret, r.new_signing_secret);
}

#[test]
fn organization_requests_check_their_names() {
    let long = "x".repeat(101);
    let c: CreateOrganizationRequest<(), ()> = CreateOrganizationRequest { name: long.clone(), settings: None, auth_policy: None };
    assert!(c.validate().is_err());
    let u: UpdateOrganizationRequest<()> = UpdateOrganizationRequest { name: None, settings: None, enabled: Some(false) };
    assert!(u.validate().is_ok());
    let u: UpdateOrganizationRequest<()> = UpdateOrganizationRequest { name: Some(String::new()), settings: None, enabled: None };
    assert!(u.validate().is_err());
    let list = ListOrganizationsResponse::new(vec![1, 2, 3]);
    assert_eq!(list.total, 3);
    let page = AuditEventsResponse::new(vec!["e"], 10, 5000, -3);
    assert_eq!((page.limit, page.offset, page.total), (1000, 0, 10));
}

fn org() -> OrganizationRecord<u8> {
    OrganizationRecord {
        org_id: "o1".to_string(),
        app_id: "a1".to_string(),
        name: "Acme".to_string(),
        settings: 1,
        enabled: true,
        updated_at: 5,
    }
}

#[test]
fn organization_update_changes_only_given_fields() {
    let req = UpdateOrganizationRequest { name: None, settings: Some(9u8), enabled: None };
    let u = update_organization(Some(org()), req, true, 77).unwrap();
    assert_eq!(u.name, "Acme");
    assert_eq!(u.settings, 9);
    assert!(u.enabled);
    assert_eq!(u.updated_at, 77);
    let req = UpdateOrganizationRequest { name: Some("Beta".to_string()), settings: None, enabled: Some(false) };
    assert_eq!(
        update_organization(Some(org()), req, true, 77),
        Err(AppError::Conflict("Organization 'Beta' already exists in this app".into()))
    );
    let req = UpdateOrganizationRequest { name: Some("Beta".to_string()), settings: None, enabled: Some(false) };
    let u = update_organization(Some(org()), req, false, 77).unwrap();
    assert_eq!((u.name.as_str(), u.enabled, u.settings), ("Beta", false, 1));
    let req: UpdateOrganizationRequest<u8> = UpdateOrganizationRequest { name: None, settings: None, enabled: None };
    assert_eq!(update_organization(None, req, false, 77), Err(AppError::NotFound("Organization not found".into())));
}

#[test]
fn changed_email_is_unverified() {
    let profile = UserProfile { email: "old@x.io".to_string(), name: Some("Ann".to_string()), email_verified: true };
    let req = UpdateUserRequest { name: None, email: Some("new@x.io".to_string()) };
    let c = profile_changes(&req, "old@x.io", false).unwrap();
    assert!(!c.is_empty());
    let p = c.apply(&profile);
    assert_eq!(p.email, "new@x.io");
    assert!(!p.email_verified);
    assert_eq!(p.name, Some("Ann".to_string()));
    let req = UpdateUserRequest { name: None, email: Some("old@x.io".to_string()) };
    let c = profile_changes(&req, "old@x.io", false).unwrap();
    assert!(c.is_empty());
    assert!(c.apply(&profile).email_verified);
}

#[test]
fn signup_builds_user_and_response() {
    let req = RegisterRequest {
        tenant_slug: "acme".to_string(),
        email: "bob@acme.io".to_string(),
        password: "correct horse".to_string(),
        display_name: None,
    };
    let (u, i) = signup_records(42, &req).unwrap();
    assert_eq!(u.tenant_id, 42);
    assert_eq!(u.display_name, Some("bob".to_string()));
    assert_eq!(i.user_id, u.user_id);
    assert!(password_matches("correct horse", &i.password_hash));
    let r = auth_response("a".to_string(), "r".to_string(), 900, &u);
    assert_eq!(r.token_type, "Bearer");
    assert_eq!(r.expires_in, 900);
    assert_eq!(r.user.email, "bob@acme.io");
    assert_eq!(r.user.user_id, u.user_id);
}

#[test]
fn refresh_revokes_the_used_session() {
    let s = issue_session(7, "tok-1", 0, 7);
    assert_eq!(s.token_hash, token_digest("tok-1"));
    assert_eq!(s.expiry_utc, 7 * 86400);
    assert!(check_refresh_session(Some(&s), 7, 10).is_ok());
    let (old, new) = rotate_session(&s, "tok-2", 10, 7);
    assert!(old.revoked);
    assert_eq!(old.session_id, s.session_id);
    assert_ne!(new.session_id, s.session_id);
    assert_eq!(
        check_refresh_session(Some(&old), 7, 11),
        Err(AppError::AuthError("Session expired or revoked".into()))
    );
    assert!(check_refresh_session(Some(&new), 7, 11).is_ok());
    assert_eq!(new.token_hash, token_digest("tok-2"));
}

fn invitation(accepted: Option<i64>) -> InvitationRecord {
    InvitationRecord {
        invitation_id: 1,
        tenant_id: 2,
        email: "new@acme.io".to_string(),
        org_node_id: 3,
        role_id: 4,
        token_hash: "h".to_string(),
        expiry_utc: 1000,
        created_utc: 0,
        accepted_utc: accepted,
        created_by_user_id: 0,
    }
}

#[test]
fn accepted_invitation_creates_user_and_assignment() {
    let inv = invitation(None);
    let req = AcceptByTokenRequest { password: "long enough".to_string(), display_name: Some("New".to_string()) };
    let a = accept_invitation_by_token(Some(&inv), &req, 500).unwrap().unwrap();
    assert_eq!(a.user.tenant_id, 2);
    assert_eq!(a.user.email, "new@acme.io");
    assert_eq!(a.user.display_name, Some("New".to_string()));
    assert_eq!((a.assignment.user_id, a.assignment.org_node_id, a.assignment.role_id), (a.user.user_id, 3, 4));
    assert_eq!(a.invitation.accepted_utc, Some(500));
    assert!(password_matches("long enough", &a.identity.password_hash));
    assert_eq!(
        accept_invitation_by_token(Some(&a.invitation), &req, 600),
        Err(AppError::BadRequest("Invitation has expired or already been accepted".into()))
    );
    assert_eq!(
        accept_invitation_by_token(None, &req, 600),
        Err(AppError::NotFound("Invitation not found or already used".into()))
    );
    assert_eq!(
        accept_invitation_rpc(Some(&a.invitation), "long enough", None, 600),
        Err(AcceptRefusal::FailedPrecondition("Invitation already accepted".into()))
    );
    assert!(accept_invitation_rpc(Some(&inv), "long enough", None, 600).unwrap().is_some());
}

#[test]
fn otp_try_counts_then_consumes() {
    let mut otp = OtpRecord {
        otp_id: 1,
        tenant_id: None,
        destination: "a@b.io".to_string(),
        channel: OtpChannel::Email,
        purpose: OtpPurpose::VerifyEmail,
        code_hash: hash_otp("123456"),
        created_utc: 0,
        expiry_utc: 600,
        consumed: false,
        attempt_count: 0,
        attempt_max: 3,
    };
    assert_eq!(try_otp_code(&mut otp, "000000", 10), Err(AppError::AuthError("Invalid OTP code".into())));
    assert_eq!(otp.attempt_count, 1);
    assert!(!otp.consumed);
    assert!(try_otp_code(&mut otp, "123456", 20).is_ok());
    assert_eq!(otp.attempt_count, 2);
    assert!(otp.consumed);
    assert_eq!(try_otp_code(&mut otp, "123456", 30), Err(AppError::BadRequest("OTP has already been used".into())));
    assert_eq!(otp.attempt_count, 2);
}

#[test]
fn google_callback_user_writes() {
    let info = GoogleUserInfo { id: "g1".to_string(), email: "a@b.io".to_string(), verified_email: true, name: Some("A".to_string()) };
    match google_user_write(None, &info).unwrap() {
        GoogleUserWrite::Insert(u) => {
            assert!(u.verified);
            assert_eq!(u.google_id, Some("g1".to_string()));
        }
        other => panic!("unexpected: {:?}", other),
    }
    let linked = SocialUser { email: "a@b.io".to_string(), name: None, google_id: Some("g0".to_string()), verified: true };
    assert_eq!(google_user_write(Some(&linked), &info), Ok(GoogleUserWrite::Keep));
    let unlinked = SocialUser { google_id: None, ..linked };
    assert_eq!(google_user_write(Some(&unlinked), &info), Ok(GoogleUserWrite::SetGoogleId("g1".to_string())));
    let unverified = GoogleUserInfo { verified_email: false, ..info };
    assert_eq!(
        google_user_write(None, &unverified),
        Err(AppError::BadRequest("Google account email not verified".into()))
    );
    assert_eq!(finished_flow_cookies(), vec!["oauth_state".to_string(), "code_verifier".to_string()]);
}

#[test]
fn tenant_context_from_either_token() {
    let access = AccessTokenClaims {
        sub: "u".to_string(),
        app_id: "app".to_string(),
        org_id: "org".to_string(),
        email: "e".to_string(),
        jti: "j".to_string(),
        exp: 0,
    };
    let app = AppTokenClaims { client_id: "client".to_string(), rate_limit_per_min: 0 };
    assert_eq!(TenantContext::for_request(Some(&access), Some(&app)), Some(TenantContext::new("app".into(), "org".into())));
    assert_eq!(TenantContext::for_request(None, Some(&app)), Some(TenantContext::app_only("client".into())));
    assert_eq!(TenantContext::for_request(None, None), None);
}

#[test]
fn rpc_acceptance_of_unknown_token_is_not_found() {
    assert_eq!(
        accept_invitation_rpc(None, "long enough", None, 0),
        Err(AcceptRefusal::NotFound("Invitation not found".into()))
    );
}

#[test]
fn accepted_invitation_signs_in_with_bearer_tokens() {
    let inv = invitation(None);
    let a = accept_invitation_rpc(Some(&inv), "long enough", None, 10).unwrap().unwrap();
    let (session, resp) = accepted_sign_in(&a, "acc".into(), "ref".into(), 900, 10, 7);
    assert_eq!(resp.token_type, "Bearer");
    assert_eq!(resp.user_id, a.user.user_id);
    assert_eq!(session.user_id, a.user.user_id);
    assert_eq!(session.token_hash, sha256_hex("ref"));
}

#[test]
fn new_invitation_stores_the_token_digest() {
    let (rec, resp) = new_invitation(2, "x@y.io".into(), 3, 4, None, 100, None);
    assert_eq!(rec.token_hash, sha256_hex(&resp.invite_token));
    assert_eq!(rec.created_by_user_id, 0);
    assert_eq!(rec.expiry_utc, 100 + 168 * 3600);
    assert_eq!(resp.invitation_id, rec.invitation_id);
    assert_eq!(resp.invite_url, format!("http://localhost:9005/auth/invitations/{}", resp.invite_token));
}

fn account() -> ServiceAccount {
    ServiceAccount {
        service_id: "s1".into(),
        service_name: "svc".into(),
        api_key_hash: "h".into(),
        api_key_lookup_hash: "lh".into(),
        previous_api_key_hash: None,
        previous_api_key_lookup_hash: None,
        previous_key_expiry: None,
        enabled: true,
        scopes: vec![],
    }
}

#[test]
fn service_key_rotation() {
    assert_eq!(
        rotate_service_key(None, Environment::Prod, 0),
        Err(AppError::NotFound("Service account not found".into()))
    );
    let a = account();
    let r = rotate_service_key(Some(&a), Environment::Prod, 100).unwrap();
    assert!(r.new_api_key.starts_with("svc_live_"));
    assert_eq!(r.new_api_key.len(), 52);
    assert!(password_matches(&r.new_api_key, &r.account.api_key_hash));
    assert_eq!(r.account.api_key_lookup_hash, sha256_hex(&r.new_api_key));
    assert_eq!(r.account.previous_api_key_hash, Some("h".to_string()));
    assert_eq!(r.account.previous_key_expiry, Some(100 + 7 * 86400));
    let t = rotate_service_key(Some(&a), Environment::Dev, 100).unwrap();
    assert!(t.new_api_key.starts_with("svc_test_"));
}

#[test]
fn otp_lookup_and_login_target() {
    let mut none: Option<OtpRecord> = None;
    assert_eq!(try_found_otp_code(&mut none, "1", 0), Err(AppError::NotFound("OTP not found".into())));
    assert_eq!(check_login_target(OtpPurpose::Login, OtpChannel::Email, false), Err(AppError::NotFound("User not found".into())));
    assert!(check_login_target(OtpPurpose::Login, OtpChannel::Email, true).is_ok());
    assert!(check_login_target(OtpPurpose::VerifyEmail, OtpChannel::Sms, false).is_ok());
    assert!(matches!(check_login_target(OtpPurpose::Login, OtpChannel::Sms, true), Err(AppError::BadRequest(_))));
}

#[test]
fn bootstrap_star_capability() {
    let (c, new) = superadmin_capability(None);
    assert_eq!(c.cap_key, "*");
    assert!(new);
    let found = CapabilityRow { cap_id: 9, cap_key: "*".into() };
    assert_eq!(superadmin_capability(Some(&found)), (found.clone(), false));
}

#[test]
fn rpc_grant_targets() {
    assert_eq!(check_rpc_grant_targets(false, true), Err(RpcRefusal::NotFound("User not found".into())));
    assert_eq!(check_rpc_grant_targets(true, false), Err(RpcRefusal::NotFound("Org node not found".into())));
    assert!(check_rpc_grant_targets(true, true).is_ok());
}

#[test]
fn google_id_token_sign_in() {
    let (w, u, new) = google_sign_in_writes(1, Some(5), Some(6), "sub", "a@b.io".into(), None);
    assert_eq!((w, u, new), (GoogleSignInWrites::KnownIdentity, 5, false));
    let (w, u, new) = google_sign_in_writes(1, None, Some(6), "sub", "a@b.io".into(), None);
    assert!(matches!(w, GoogleSignInWrites::LinkAndVerify { .. }));
    assert_eq!((u, new), (6, false));
    let (w, u, new) = google_sign_in_writes(1, None, None, "sub", "a@b.io".into(), Some("A".into()));
    match w {
        GoogleSignInWrites::Create { user, identity } => {
            assert!(user.email_verified);
            assert_eq!(user.user_id, u);
            assert_eq!(identity.subject, "sub");
        }
        other => panic!("unexpected: {:?}", other),
    }
    assert!(new);
}

#[test]
fn password_change_revokes_sessions() {
    let old_hash = auth_service::password::hash_password("old password").unwrap();
    let mut sessions = vec![issue_session(7, "t1", 0, 7), issue_session(7, "t2", 0, 7)];
    let bad = ChangePasswordRequest { current_password: "wrong".into(), new_password: "new password".into() };
    assert_eq!(change_password(&bad, &old_hash, &mut sessions), Err(AppError::AuthError("Incorrect current password".into())));
    assert!(sessions.iter().all(|s| !s.revoked));
    let req = ChangePasswordRequest { current_password: "old password".into(), new_password: "new password".into() };
    let h = change_password(&req, &old_hash, &mut sessions).unwrap();
    assert!(password_matches("new password", &h));
    assert!(sessions.iter().all(|s| s.revoked));
}
