use auth_service::error::AppError;
use auth_service::otp::{
    channel_from_proto, check_login_channel, check_otp_code, check_otp_usable, check_send_rate,
    email_subject, generate_otp, hash_otp, otp_follow_up, purpose_code, purpose_from_proto,
    purpose_to_proto, validate_destination, verified_response, OtpChannel, OtpFollowUp, OtpPurpose,
    OtpRecord, OTP_EXPIRY_SECONDS, OTP_LENGTH, OTP_MAX_ATTEMPTS,
};

fn record(purpose: OtpPurpose, tenant: Option<u128>) -> OtpRecord {
    OtpRecord::new(1, tenant, "a@b.co".to_string(), OtpChannel::Email, purpose, hash_otp("123456"), 1000, OTP_EXPIRY_SECONDS, OTP_MAX_ATTEMPTS)
}

#[test]
fn otp_constants() {
    assert_eq!(OTP_LENGTH, 6);
    assert_eq!(OTP_EXPIRY_SECONDS, 300);
    assert_eq!(OTP_MAX_ATTEMPTS, 5);
}

#[test]
fn generated_codes_are_digits() {
    for _ in 0..20 {
        let c = generate_otp(OTP_LENGTH);
        assert_eq!(c.len(), 6);
        assert!(c.chars().all(|ch| ch.is_ascii_digit()));
    }
    assert_eq!(generate_otp(0), "");
}

#[test]
fn code_digest_is_sha256_hex() {
    assert_eq!(hash_otp("123456"), "8d969eef6ecad3c29a3a629280e686cf0c3f5d5a86aff3ca12020c923adc6c92");
    assert_ne!(hash_otp("123456"), "123456");
}

#[test]
fn destinations_by_channel() {
    assert!(validate_destination("a@b.co", OtpChannel::Email).is_ok());
    assert_eq!(validate_destination("ab.co", OtpChannel::Email), Err(AppError::BadRequest("Invalid email format".to_string())));
    assert_eq!(validate_destination("a@bco", OtpChannel::Email), Err(AppError::BadRequest("Invalid email format".to_string())));
    assert!(validate_destination("+123456789", OtpChannel::Sms).is_ok());
    let phone_err = Err(AppError::BadRequest("Invalid phone format. Use E.164 format (+1234567890)".to_string()));
    assert_eq!(validate_destination("+12345678", OtpChannel::Whatsapp), phone_err);
    assert_eq!(validate_destination("1234567890", OtpChannel::Sms), phone_err);
    assert_eq!(validate_destination("", OtpChannel::Sms), phone_err);
}

#[test]
fn send_rate_limit() {
    assert!(check_send_rate(2).is_ok());
    assert_eq!(check_send_rate(3), Err(AppError::TooManyRequests("Too many OTP requests. Please try again later.".to_string(), Some(900))));
}

#[test]
fn login_codes_go_by_email() {
    assert!(check_login_channel(OtpPurpose::Login, OtpChannel::Email).is_ok());
    assert_eq!(check_login_channel(OtpPurpose::Login, OtpChannel::Sms), Err(AppError::BadRequest("Phone-based login not yet implemented. Use email channel.".to_string())));
    assert!(check_login_channel(OtpPurpose::VerifyPhone, OtpChannel::Sms).is_ok());
}

#[test]
fn fresh_code_usable_until_expiry() {
    let r = record(OtpPurpose::Login, Some(4));
    assert_eq!(r.expiry_utc, 1300);
    assert!(check_otp_usable(&r, 1000).is_ok());
    assert!(check_otp_usable(&r, 1300).is_ok());
    assert_eq!(check_otp_usable(&r, 1301), Err(AppError::BadRequest("OTP has expired".to_string())));
}

#[test]
fn consumed_and_spent_codes_refused() {
    let mut r = record(OtpPurpose::Login, Some(4));
    r.attempt_count = 5;
    assert_eq!(check_otp_usable(&r, 1000), Err(AppError::BadRequest("Maximum verification attempts exceeded".to_string())));
    r.consumed = true;
    assert_eq!(check_otp_usable(&r, 5000), Err(AppError::BadRequest("OTP has already been used".to_string())));
}

#[test]
fn code_comparison() {
    let r = record(OtpPurpose::Login, Some(4));
    assert!(check_otp_code(&r, "123456").is_ok());
    assert_eq!(check_otp_code(&r, "654321"), Err(AppError::AuthError("Invalid OTP code".to_string())));
}

#[test]
fn follow_up_by_purpose() {
    assert_eq!(otp_follow_up(&record(OtpPurpose::Login, Some(4))), Ok(OtpFollowUp::IssueTokens { tenant_id: 4 }));
    assert_eq!(otp_follow_up(&record(OtpPurpose::Login, None)), Err(AppError::BadRequest("Tenant ID required".to_string())));
    assert_eq!(otp_follow_up(&record(OtpPurpose::VerifyEmail, None)), Ok(OtpFollowUp::MarkEmailVerified { tenant_id: None }));
    assert_eq!(otp_follow_up(&record(OtpPurpose::ResetPassword, Some(1))), Ok(OtpFollowUp::Verified { purpose: OtpPurpose::ResetPassword }));
    let v = verified_response(OtpPurpose::VerifyPhone);
    assert!(v.verified);
    assert_eq!(v.purpose, "verify_phone");
}

#[test]
fn wire_numbers_and_texts() {
    assert_eq!(channel_from_proto(1), Some(OtpChannel::Email));
    assert_eq!(channel_from_proto(3), Some(OtpChannel::Whatsapp));
    assert_eq!(channel_from_proto(0), None);
    assert_eq!(purpose_from_proto(4), Some(OtpPurpose::ResetPassword));
    assert_eq!(purpose_from_proto(5), None);
    assert_eq!(purpose_to_proto("verify_email"), 2);
    assert_eq!(purpose_to_proto("reset_password"), 4);
    assert_eq!(purpose_to_proto("login"), 0);
    assert_eq!(purpose_code(OtpPurpose::VerifyEmail), "verify_email");
    assert_eq!(email_subject(OtpPurpose::Login), "Your login code");
    assert_eq!(email_subject(OtpPurpose::ResetPassword), "Reset your password");
}
