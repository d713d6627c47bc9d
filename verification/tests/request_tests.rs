use auth_service::bot::{is_blocked, score_request, BotSignals};
use auth_service::error::AppError;
use auth_service::rate_limit::{
    client_quota, create_client_limiter, create_login_rate_limiter,
    create_password_reset_rate_limiter, forwarded_first, limited, quota_for, screen, LimiterKind,
};
use auth_service::signature::{
    check_nonce_unused, check_signature_valid, check_signing_client, check_timestamp,
    extract_signature_data, is_signature_exempt, must_check_signature, nonce_key, text_contains,
    HeaderField, SignatureSources,
};

fn signals(ua: &str, a: bool, l: bool, e: bool) -> BotSignals {
    BotSignals { is_options: false, path: "/auth/login".into(), user_agent: ua.into(), has_accept: a, has_accept_language: l, has_accept_encoding: e }
}

const FIREFOX: &str = "Mozilla/5.0 (X11; Linux x86_64; rv:120.0) Gecko/20100101 Firefox/120.0";

#[test]
fn bot_scores() {
    assert_eq!(score_request(&signals("", true, true, true)), 50);
    assert!(!is_blocked(&signals("", true, true, true)));
    assert_eq!(score_request(&signals(FIREFOX, true, true, true)), 0);
    assert_eq!(score_request(&signals(FIREFOX, true, true, false)), 30);
    assert_eq!(score_request(&signals(FIREFOX, true, false, false)), 70);
    assert_eq!(score_request(&signals(FIREFOX, false, false, false)), 70);
    assert!(!is_blocked(&signals(FIREFOX, false, false, false)));
    assert_eq!(score_request(&signals("curl/8.0", false, false, false)), 100);
    assert!(is_blocked(&signals("Googlebot/2.1", true, true, true)));
    assert!(is_blocked(&signals("Mozilla/5.0 (compatible; Googlebot/2.1)", false, false, false)));
    assert_eq!(score_request(&signals("Mozilla/5.0 (compatible; Googlebot/2.1)", false, false, false)), 170);
}

#[test]
fn bot_exemptions() {
    let mut s = signals("Googlebot", true, true, true);
    s.path = "/health".into();
    assert!(!is_blocked(&s));
    s.path = "/metrics".into();
    assert!(!is_blocked(&s));
    s.path = "/x".into();
    s.is_options = true;
    assert!(!is_blocked(&s));
}

#[test]
fn quotas() {
    let q = quota_for(5, 900);
    assert_eq!((q.burst, q.period_ms), (5, 180000));
    let q = quota_for(0, 60);
    assert_eq!((q.burst, q.period_ms), (1, 60000));
    let q = quota_for(3, 60);
    assert_eq!((q.burst, q.period_ms), (3, 20000));
    assert_eq!(client_quota(0), None);
    let q = client_quota(10).unwrap();
    assert_eq!((q.burst, q.period_ms), (10, 6000));
}

#[test]
fn limiter_answers_and_keys() {
    assert_eq!(limited(LimiterKind::Ip, 4), AppError::TooManyRequests("Too many requests from this IP. Please try again later.".into(), Some(4)));
    assert_eq!(limited(LimiterKind::Client, 1), AppError::TooManyRequests("Client rate limit exceeded".into(), Some(1)));
    assert_eq!(limited(LimiterKind::Global, 0), AppError::TooManyRequests("Too many requests. Please try again later.".into(), Some(0)));
    assert_eq!(forwarded_first(" 10.0.0.1 , 10.0.0.2"), "10.0.0.1");
    assert_eq!(forwarded_first("1.2.3.4"), "1.2.3.4");
}

#[test]
fn signature_scope() {
    assert!(is_signature_exempt("/health"));
    assert!(is_signature_exempt("/auth/verify?token=1"));
    assert!(is_signature_exempt("/auth/google/callback"));
    assert!(!is_signature_exempt("/auth/login"));
    assert!(must_check_signature("/auth/login", true, false, None));
    assert!(!must_check_signature("/auth/login", false, false, None));
    assert!(must_check_signature("/auth/login", false, true, None));
    assert!(must_check_signature("/auth/login", false, false, Some("a=1&signature=x")));
    assert!(!must_check_signature("/health", true, true, None));
    assert!(text_contains("abc", "bc"));
    assert!(text_contains("abc", ""));
    assert!(!text_contains("ab", "abc"));
}

fn sources(h: [HeaderField; 4], q: Option<Result<(Option<String>, Option<String>, Option<String>, Option<String>), ()>>) -> SignatureSources {
    let [c, t, n, s] = h;
    SignatureSources { client_id_header: c, timestamp_header: t, nonce_header: n, signature_header: s, query: q }
}

#[test]
fn signature_data_sources() {
    let t = |s: &str| HeaderField::Text(s.to_string());
    let d = extract_signature_data(&sources([t("c"), t("1"), t("n"), t("s")], None)).unwrap();
    assert_eq!((d.client_id.as_str(), d.timestamp.as_str(), d.nonce.as_str(), d.signature.as_str()), ("c", "1", "n", "s"));
    let e = extract_signature_data(&sources([HeaderField::Absent, t("1"), t("n"), t("s")], None));
    assert_eq!(e, Err(AppError::AuthError("Missing header: X-Client-ID".into())));
    let e = extract_signature_data(&sources([t("c"), HeaderField::Opaque, t("n"), t("s")], None));
    assert_eq!(e, Err(AppError::AuthError("Invalid header format: X-Timestamp".into())));
    let q = Some(Ok((Some("c".to_string()), Some("2".to_string()), Some("n".to_string()), Some("s".to_string()))));
    let d = extract_signature_data(&sources([HeaderField::Absent, HeaderField::Absent, HeaderField::Absent, HeaderField::Absent], q)).unwrap();
    assert_eq!(d.timestamp, "2");
    let e = extract_signature_data(&sources([HeaderField::Absent, HeaderField::Absent, HeaderField::Absent, HeaderField::Absent], Some(Err(()))));
    assert_eq!(e, Err(AppError::AuthError("Invalid query parameters".into())));
    let e = extract_signature_data(&sources([HeaderField::Absent, HeaderField::Absent, HeaderField::Absent, HeaderField::Absent], None));
    assert_eq!(e, Err(AppError::AuthError("Missing signature data (headers or query params)".into())));
}

#[test]
fn signature_freshness_and_replay() {
    assert_eq!(check_timestamp("1000", 1060), Ok(1000));
    assert_eq!(check_timestamp("1000", 940), Ok(1000));
    assert_eq!(check_timestamp("1000", 1061), Err(AppError::AuthError("Request timestamp expired".into())));
    assert_eq!(check_timestamp("1000", 939), Err(AppError::AuthError("Request timestamp expired".into())));
    assert_eq!(check_timestamp("-9223372036854775808", 1000), Err(AppError::AuthError("Request timestamp expired".into())));
    assert_eq!(check_timestamp("abc", 0), Err(AppError::AuthError("Invalid timestamp format".into())));
    assert_eq!(nonce_key("n1"), "nonce:n1");
    assert_eq!(check_nonce_unused(true), Err(AppError::AuthError("Replay detected (nonce used)".into())));
    assert!(check_nonce_unused(false).is_ok());
    assert_eq!(check_signing_client(false), Err(AppError::AuthError("Invalid Client ID".into())));
    assert_eq!(check_signature_valid(false), Err(AppError::AuthError("Invalid signature".into())));
}

#[test]
fn test_rate_limiter_creation() {
    let mut limiter = create_login_rate_limiter(5, 900);
    assert!(screen(&mut limiter, LimiterKind::Global).is_ok());
}

#[test]
fn test_rate_limiter_allows_within_limit() {
    let mut limiter = create_login_rate_limiter(3, 60);

    assert!(screen(&mut limiter, LimiterKind::Global).is_ok());
    assert!(screen(&mut limiter, LimiterKind::Global).is_ok());
    assert!(screen(&mut limiter, LimiterKind::Global).is_ok());

    assert!(screen(&mut limiter, LimiterKind::Global).is_err());
}

#[test]
fn refused_request_names_its_limiter_and_wait() {
    let mut limiter = create_password_reset_rate_limiter(1, 3600);
    assert!(screen(&mut limiter, LimiterKind::Ip).is_ok());
    match screen(&mut limiter, LimiterKind::Ip) {
        Err(AppError::TooManyRequests(m, Some(w))) => {
            assert_eq!(m, "Too many requests from this IP. Please try again later.");
            assert!(w <= 3600);
        }
        other => panic!("unexpected: {:?}", other),
    }
}

#[test]
fn zero_attempts_still_allow_one_request() {
    let mut limiter = create_login_rate_limiter(0, 60);
    assert!(screen(&mut limiter, LimiterKind::Global).is_ok());
    assert!(screen(&mut limiter, LimiterKind::Global).is_err());
}

#[test]
fn unlimited_client_has_no_limiter() {
    assert!(create_client_limiter(0).is_none());
    let mut l = create_client_limiter(2).unwrap();
    assert!(screen(&mut l, LimiterKind::Client).is_ok());
    assert!(screen(&mut l, LimiterKind::Client).is_ok());
    match screen(&mut l, LimiterKind::Client) {
        Err(AppError::TooManyRequests(m, _)) => assert_eq!(m, "Client rate limit exceeded"),
        other => panic!("unexpected: {:?}", other),
    }
}
