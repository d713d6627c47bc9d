use auth_service::clients::{
    app_token_of, app_token_response, check_app_client, check_app_token_request, check_client_found,
    client_blacklist_key, rotate_client_secret, AppTokenRequest, ClientRecord,
};
use auth_service::config::Environment;
use auth_service::error::AppError;
use auth_service::password::{hash_password, password_matches, verify_password};
use auth_service::secrets::{pkce_challenge, random_alnum_secret, random_token_b64, random_token_hex};
use auth_service::service_account::{
    api_key_lookup_hash, api_key_prefix, bearer_token, check_service_key, generate_api_key,
    new_service_account, request_api_key, revocation_cache_keys, rotate_key, service_cache_key,
    ServiceAuthFailure, KEY_GRACE_SECONDS,
};

#[test]
fn argon2_round_trip() {
    let h = hash_password("correct horse").unwrap();
    assert!(h.starts_with("$argon2"));
    assert!(password_matches("correct horse", &h));
    assert!(!password_matches("wrong horse", &h));
    assert_eq!(verify_password("x", &h), Ok(false));
    assert!(verify_password("x", "not a phc string").is_err());
    assert!(!password_matches("x", "not a phc string"));
}

#[test]
fn api_keys_have_environment_prefix() {
    assert_eq!(api_key_prefix(Environment::Prod), "svc_live_");
    assert_eq!(api_key_prefix(Environment::Dev), "svc_test_");
    let k = generate_api_key(Environment::Prod);
    assert!(k.starts_with("svc_live_"));
    assert_eq!(k.len(), "svc_live_".len() + 43);
    let k2 = generate_api_key(Environment::Dev);
    assert!(k2.starts_with("svc_test_"));
    assert_ne!(generate_api_key(Environment::Dev), k2);
}

#[test]
fn lookup_digest_and_cache_key() {
    let h = api_key_lookup_hash("svc_test_abc");
    assert_eq!(h.len(), 64);
    assert_eq!(h, auth_service::digest::sha256_hex("svc_test_abc"));
    assert_eq!(service_cache_key("ff"), "svc_auth:ff");
}

#[test]
fn header_parsing() {
    assert_eq!(bearer_token("Bearer abc"), Some("abc".to_string()));
    assert_eq!(bearer_token("bearer abc"), None);
    assert_eq!(bearer_token("Bearer "), Some(String::new()));
    assert_eq!(request_api_key(None), Err(ServiceAuthFailure::MissingHeader));
    assert_eq!(request_api_key(Some("Basic x")), Err(ServiceAuthFailure::MissingHeader));
    assert_eq!(request_api_key(Some("Bearer key")), Err(ServiceAuthFailure::BadFormat));
    assert_eq!(request_api_key(Some("Bearer svc_live_x")), Ok("svc_live_x".to_string()));
}

#[test]
fn failure_answers() {
    assert_eq!(ServiceAuthFailure::Disabled.to_error(), AppError::Forbidden("Service account is disabled".to_string()));
    assert_eq!(ServiceAuthFailure::MissingHeader.to_error(), AppError::AuthError("Missing or invalid Authorization header".to_string()));
    assert_eq!(ServiceAuthFailure::BadFormat.to_error(), AppError::AuthError("Invalid API key format".to_string()));
    assert_eq!(ServiceAuthFailure::WrongKey.to_error(), AppError::AuthError("Invalid API key".to_string()));
    assert_eq!(ServiceAuthFailure::BadFormat.audit_details(), None);
    assert_eq!(ServiceAuthFailure::UnknownKey.audit_details(), Some("Invalid API key (no account found)".to_string()));
    assert_eq!(ServiceAuthFailure::Disabled.audit_status(), 403);
    assert_eq!(ServiceAuthFailure::WrongKey.audit_status(), 401);
}

#[test]
fn service_key_check_and_rotation_grace() {
    let old_key = "svc_test_old";
    let new_key = "svc_test_new";
    let acct = new_service_account("s1".into(), "Payments".into(), hash_password(old_key).unwrap(), api_key_lookup_hash(old_key), vec!["read:*".into()]);
    let ctx = check_service_key(old_key, Some(&acct), 0).unwrap();
    assert_eq!(ctx.service_id, "s1");
    assert_eq!(ctx.scopes, vec!["read:*".to_string()]);
    assert_eq!(check_service_key(new_key, Some(&acct), 0), Err(ServiceAuthFailure::WrongKey));
    assert_eq!(check_service_key(old_key, None, 0), Err(ServiceAuthFailure::UnknownKey));

    let rotated = rotate_key(&acct, hash_password(new_key).unwrap(), api_key_lookup_hash(new_key), 1000);
    assert_eq!(rotated.previous_key_expiry, Some(1000 + KEY_GRACE_SECONDS));
    assert_eq!(rotated.previous_api_key_lookup_hash, Some(acct.api_key_lookup_hash.clone()));
    assert!(check_service_key(new_key, Some(&rotated), 2000).is_ok());
    assert!(check_service_key(old_key, Some(&rotated), 1000 + KEY_GRACE_SECONDS - 1).is_ok());
    assert_eq!(check_service_key(old_key, Some(&rotated), 1000 + KEY_GRACE_SECONDS), Err(ServiceAuthFailure::WrongKey));

    let mut disabled = rotated.clone();
    disabled.enabled = false;
    assert_eq!(check_service_key(new_key, Some(&disabled), 0), Err(ServiceAuthFailure::Disabled));
    let keys = revocation_cache_keys(&rotated);
    assert_eq!(keys.len(), 2);
    assert_eq!(keys[0], format!("svc_auth:{}", rotated.api_key_lookup_hash));
    assert_eq!(revocation_cache_keys(&acct).len(), 1);
}

fn client(secret: &str) -> ClientRecord {
    ClientRecord {
        client_id: "c1".into(),
        client_secret_hash: hash_password(secret).unwrap(),
        signing_secret: "sign".into(),
        app_name: "App".into(),
        rate_limit_per_min: 10,
        allowed_origins: vec![],
        enabled: true,
        previous_client_secret_hash: None,
        previous_secret_expiry: None,
    }
}

fn req(secret: &str, grant: &str) -> AppTokenRequest {
    AppTokenRequest { client_id: "c1".into(), client_secret: secret.into(), grant_type: grant.into() }
}

#[test]
fn client_credentials_grant() {
    let c = client("s3cret");
    assert!(check_app_token_request(&req("s3cret", "client_credentials"), Some(&c), 0).is_ok());
    assert_eq!(check_app_token_request(&req("s3cret", "password"), Some(&c), 0), Err(AppError::BadRequest("unsupported_grant_type".into())));
    assert_eq!(check_app_token_request(&req("nope", "client_credentials"), Some(&c), 0), Err(AppError::Unauthorized("Invalid client_id or client_secret".into())));
    assert_eq!(check_app_token_request(&req("s3cret", "client_credentials"), None, 0), Err(AppError::Unauthorized("Invalid client_id or client_secret".into())));
    let mut off = client("s3cret");
    off.enabled = false;
    assert_eq!(check_app_token_request(&req("s3cret", "client_credentials"), Some(&off), 0), Err(AppError::Forbidden("Client is disabled".into())));
    let r = app_token_response("tok".into());
    assert_eq!(r.token_type, "Bearer");
    assert_eq!(r.expires_in, 3600);
    assert_eq!(r.refresh_token, "");
}

#[test]
fn client_secret_rotation_grace() {
    let c = client("old");
    let r = rotate_client_secret(&c, hash_password("new").unwrap(), "sign2".into(), 100);
    assert_eq!(r.previous_secret_expiry, Some(100 + 86400));
    assert!(check_app_token_request(&req("new", "client_credentials"), Some(&r), 200).is_ok());
    assert!(check_app_token_request(&req("old", "client_credentials"), Some(&r), 200).is_ok());
    assert!(check_app_token_request(&req("old", "client_credentials"), Some(&r), 100 + 86400).is_err());
}

#[test]
fn app_token_extraction_and_client_checks() {
    assert_eq!(app_token_of(&Some(Some("Bearer t1".into())), &Some(Some("Bearer t2".into()))), Ok("t1".to_string()));
    assert_eq!(app_token_of(&None, &Some(Some("t2".into()))), Ok("t2".to_string()));
    assert_eq!(app_token_of(&Some(None), &Some(Some("t2".into()))), Err(AppError::AuthError("Missing or invalid app token".into())));
    assert_eq!(app_token_of(&None, &None), Err(AppError::AuthError("Missing or invalid app token".into())));
    assert_eq!(check_app_client(true, Some(true)), Err(AppError::AuthError("Client has been revoked".into())));
    assert_eq!(check_app_client(false, None), Err(AppError::AuthError("Client not found".into())));
    assert_eq!(check_app_client(false, Some(false)), Err(AppError::AuthError("Client is disabled".into())));
    assert!(check_app_client(false, Some(true)).is_ok());
    assert_eq!(client_blacklist_key("c1"), "client:c1");
    assert_eq!(check_client_found(0), Err(AppError::NotFound("Client not found".into())));
    assert!(check_client_found(1).is_ok());
}

#[test]
fn random_secrets() {
    let s = random_alnum_secret(48);
    assert_eq!(s.len(), 48);
    assert!(s.chars().all(|c| c.is_ascii_alphanumeric()));
    let h = random_token_hex();
    assert_eq!(h.len(), 64);
    assert!(h.chars().all(|c| c.is_ascii_hexdigit() && !c.is_ascii_uppercase()));
    let b = random_token_b64();
    assert_eq!(b.len(), 43);
    assert!(b.chars().all(|c| c.is_ascii_alphanumeric() || c == '-' || c == '_'));
}

#[test]
fn pkce_challenge_known_value() {
    // RFC 7636 appendix B
    assert_eq!(pkce_challenge("dBjftJeZ4CVP-mB92K27uhbUJU1p1r_wW1gFWFOEjXk"), "E9Melhoa2OwvFrEMTJguCHaoeK1t8URWbuGJSstw-cM");
}
