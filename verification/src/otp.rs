//! One-time passcodes: the checks made when a code is sent and when it is
//! verified, the code itself and the digest under which it is stored.
//!
//! Sending a code, and verifying one, alternate store reads and writes with
//! decisions; the decisions stand here, each as a function of the record
//! read and the time, and the caller performs the reads and writes between.
use vstd::prelude::*;

use crate::digest::{hex_lower, sha256_hex, sha256_of};
use crate::error::AppError;
use crate::text::push_char;
use vstd::string::StringSliceAdditionalSpecFns;

verus! {

broadcast use vstd::string::group_string_axioms;

/// Number of digits of a code.
pub const OTP_LENGTH: usize = 6;

/// Seconds for which a code stays valid.
pub const OTP_EXPIRY_SECONDS: i64 = 300;

/// Verification attempts allowed for one code.
pub const OTP_MAX_ATTEMPTS: i32 = 5;

/// Codes that may be sent to one destination within the rate window.
pub const OTP_RATE_LIMIT: u64 = 3;

/// The rate window, in seconds (15 minutes).
pub const OTP_RATE_WINDOW_SECONDS: u64 = 900;

/// How a code reaches its destination.
#[derive(Clone, Copy, Debug, PartialEq, Eq, Structural)]
pub enum OtpChannel {
    Email,
    Sms,
    Whatsapp,
}

/// What a code is for.
#[derive(Clone, Copy, Debug, PartialEq, Eq, Structural)]
pub enum OtpPurpose {
    Login,
    VerifyEmail,
    VerifyPhone,
    ResetPassword,
}

/// The channel numbered `n` in the wire protocol (1 to 3).
pub open spec fn channel_numbered(n: i32) -> Option<OtpChannel> {
    if n == 1 {
        Some(OtpChannel::Email)
    } else if n == 2 {
        Some(OtpChannel::Sms)
    } else if n == 3 {
        Some(OtpChannel::Whatsapp)
    } else {
        None
    }
}

/// The purpose numbered `n` in the wire protocol (1 to 4).
pub open spec fn purpose_numbered(n: i32) -> Option<OtpPurpose> {
    if n == 1 {
        Some(OtpPurpose::Login)
    } else if n == 2 {
        Some(OtpPurpose::VerifyEmail)
    } else if n == 3 {
        Some(OtpPurpose::VerifyPhone)
    } else if n == 4 {
        Some(OtpPurpose::ResetPassword)
    } else {
        None
    }
}

/// The channel of a wire request, or `None` for an unknown number.
pub fn channel_from_proto(n: i32) -> (r: Option<OtpChannel>)
    ensures
        r == channel_numbered(n),
{
    match n {
        1 => Some(OtpChannel::Email),
        2 => Some(OtpChannel::Sms),
        3 => Some(OtpChannel::Whatsapp),
        _ => None,
    }
}

/// The purpose of a wire request, or `None` for an unknown number.
pub fn purpose_from_proto(n: i32) -> (r: Option<OtpPurpose>)
    ensures
        r == purpose_numbered(n),
{
    match n {
        1 => Some(OtpPurpose::Login),
        2 => Some(OtpPurpose::VerifyEmail),
        3 => Some(OtpPurpose::VerifyPhone),
        4 => Some(OtpPurpose::ResetPassword),
        _ => None,
    }
}

/// The code under which a purpose is stored and reported.
pub open spec fn purpose_text(p: OtpPurpose) -> Seq<char> {
    match p {
        OtpPurpose::Login => "login"@,
        OtpPurpose::VerifyEmail => "verify_email"@,
        OtpPurpose::VerifyPhone => "verify_phone"@,
        OtpPurpose::ResetPassword => "reset_password"@,
    }
}

/// The code of purpose `p`.
pub fn purpose_code(p: OtpPurpose) -> (s: String)
    ensures
        s@ == purpose_text(p),
{
    match p {
        OtpPurpose::Login => "login".to_owned(),
        OtpPurpose::VerifyEmail => "verify_email".to_owned(),
        OtpPurpose::VerifyPhone => "verify_phone".to_owned(),
        OtpPurpose::ResetPassword => "reset_password".to_owned(),
    }
}

/// The wire number of the purpose that a verification reports (0 when the
/// text names none of the verification purposes).
pub open spec fn reported_purpose_number(code: Seq<char>) -> i32 {
    if code == "verify_email"@ {
        2
    } else if code == "verify_phone"@ {
        3
    } else if code == "reset_password"@ {
        4
    } else {
        0
    }
}

/// The wire number for a verification's reported purpose.
pub fn purpose_to_proto(code: &str) -> (n: i32)
    ensures
        n == reported_purpose_number(code@),
{
    let c = crate::text::chars_of(code);
    if crate::text::chars_eq(&c, &crate::text::chars_of("verify_email")) {
        2
    } else if crate::text::chars_eq(&c, &crate::text::chars_of("verify_phone")) {
        3
    } else if crate::text::chars_eq(&c, &crate::text::chars_of("reset_password")) {
        4
    } else {
        0
    }
}

/// The subject line of the email that carries a code.
pub open spec fn subject_text(p: OtpPurpose) -> Seq<char> {
    match p {
        OtpPurpose::Login => "Your login code"@,
        OtpPurpose::VerifyEmail => "Verify your email"@,
        OtpPurpose::VerifyPhone => "Verify your phone"@,
        OtpPurpose::ResetPassword => "Reset your password"@,
    }
}

/// The subject line for a code of purpose `p`.
pub fn email_subject(p: OtpPurpose) -> (s: String)
    ensures
        s@ == subject_text(p),
{
    match p {
        OtpPurpose::Login => "Your login code".to_owned(),
        OtpPurpose::VerifyEmail => "Verify your email".to_owned(),
        OtpPurpose::VerifyPhone => "Verify your phone".to_owned(),
        OtpPurpose::ResetPassword => "Reset your password".to_owned(),
    }
}


/// `d` is acceptable as a destination on `channel`: an email address holds
/// `@` and `.`; a phone number starts with `+` and is at least 10 bytes long.
pub open spec fn destination_ok(d: &str, channel: OtpChannel) -> bool {
    match channel {
        OtpChannel::Email => d@.contains('@') && d@.contains('.'),
        _ => d@.len() > 0 && d@[0] == '+' && d.spec_bytes().len() >= 10,
    }
}

/// The refusal of a destination that does not suit its channel.
pub open spec fn destination_error_text(channel: OtpChannel) -> Seq<char> {
    match channel {
        OtpChannel::Email => "Invalid email format"@,
        _ => "Invalid phone format. Use E.164 format (+1234567890)"@,
    }
}

/// Check the destination of a code against its channel.
pub fn validate_destination(destination: &str, channel: OtpChannel) -> (r: Result<(), AppError>)
    ensures
        r is Ok <==> destination_ok(destination, channel),
        r is Err ==> (r matches Err(AppError::BadRequest(m)) && m@ == destination_error_text(
            channel,
        )),
{
    let d = crate::text::chars_of(destination);
    match channel {
        OtpChannel::Email => {
            if !crate::text::contains_char(&d, '@') || !crate::text::contains_char(&d, '.') {
                return Err(AppError::BadRequest("Invalid email format".to_owned()));
            }
        },
        _ => {
            if d.len() == 0 || d[0] != '+' || destination.as_bytes().len() < 10 {
                return Err(
                    AppError::BadRequest(
                        "Invalid phone format. Use E.164 format (+1234567890)".to_owned(),
                    ),
                );
            }
        },
    }
    Ok(())
}

/// The refusal of a send when the destination had `recent` codes sent to it
/// within the rate window.
pub fn check_send_rate(recent: u64) -> (r: Result<(), AppError>)
    ensures
        r is Ok <==> recent < OTP_RATE_LIMIT,
        r is Err ==> (r matches Err(AppError::TooManyRequests(m, after)) && m@
            == "Too many OTP requests. Please try again later."@ && after == Some(
            OTP_RATE_WINDOW_SECONDS,
        )),
{
    if recent >= OTP_RATE_LIMIT {
        return Err(
            AppError::TooManyRequests(
                "Too many OTP requests. Please try again later.".to_owned(),
                Some(OTP_RATE_WINDOW_SECONDS),
            ),
        );
    }
    Ok(())
}

/// Login codes go by email only.
pub fn check_login_channel(purpose: OtpPurpose, channel: OtpChannel) -> (r: Result<(), AppError>)
    ensures
        r is Ok <==> (purpose != OtpPurpose::Login || channel == OtpChannel::Email),
        r is Err ==> (r matches Err(AppError::BadRequest(m)) && m@
            == "Phone-based login not yet implemented. Use email channel."@),
{
    if purpose == OtpPurpose::Login && channel != OtpChannel::Email {
        return Err(
            AppError::BadRequest(
                "Phone-based login not yet implemented. Use email channel.".to_owned(),
            ),
        );
    }
    Ok(())
}

/// The checks of a login code's target: it goes by email, and a user of
/// the tenant must have the destination (`user_exists`, consulted only for a
/// login code sent by email). Codes for other purposes pass.
pub fn check_login_target(purpose: OtpPurpose, channel: OtpChannel, user_exists: bool) -> (r: Result<
    (),
    AppError,
>)
    ensures
        purpose != OtpPurpose::Login ==> r is Ok,
        purpose == OtpPurpose::Login && channel != OtpChannel::Email ==> (r matches Err(
            AppError::BadRequest(m),
        ) && m@ == "Phone-based login not yet implemented. Use email channel."@),
        purpose == OtpPurpose::Login && channel == OtpChannel::Email ==> if user_exists {
            r is Ok
        } else {
            r matches Err(AppError::NotFound(m)) && m@ == "User not found"@
        },
{
    match check_login_channel(purpose, channel) {
        Err(e) => return Err(e),
        Ok(()) => {},
    }
    if purpose == OtpPurpose::Login && !user_exists {
        return Err(AppError::NotFound("User not found".to_owned()));
    }
    Ok(())
}

/// `c` is one of the ASCII digits `0` to `9`.
pub open spec fn is_digit(c: char) -> bool {
    48 <= (c as int) <= 57
}

/// A code of `length` random decimal digits.
pub fn generate_otp(length: usize) -> (code: String)
    ensures
        code@.len() == length,
        forall|i: int| 0 <= i < length ==> is_digit(#[trigger] code@[i]),
{
    let mut code = String::new();
    let mut i: usize = 0;
    while i < length
        invariant
            i <= length,
            code@.len() == i,
            forall|j: int| 0 <= j < i ==> is_digit(#[trigger] code@[j]),
        decreases length - i,
    {
        let d = crate::secrets::random_below(10);
        let c = (48u8 + d as u8) as char;
        push_char(&mut code, c);
        i = i + 1;
    }
    code
}

/// The digest under which a code is stored: SHA-256 of its bytes, in
/// lowercase hexadecimal.
pub fn hash_otp(code: &str) -> (h: String)
    ensures
        h@ == hex_lower(sha256_of(code.spec_bytes())),
{
    sha256_hex(code)
}

/// A stored code. Times are seconds since the Unix epoch.
#[derive(Clone, Debug, PartialEq, Eq)]
pub struct OtpRecord {
    pub otp_id: u128,
    pub tenant_id: Option<u128>,
    pub destination: String,
    pub channel: OtpChannel,
    pub purpose: OtpPurpose,
    pub code_hash: String,
    pub created_utc: i64,
    pub expiry_utc: i64,
    pub consumed: bool,
    pub attempt_count: i32,
    pub attempt_max: i32,
}

impl OtpRecord {
    /// A fresh record for a code whose digest is `code_hash`, created at
    /// `now` and valid for `expiry_seconds`.
    pub fn new(
        otp_id: u128,
        tenant_id: Option<u128>,
        destination: String,
        channel: OtpChannel,
        purpose: OtpPurpose,
        code_hash: String,
        now: i64,
        expiry_seconds: i64,
        max_attempts: i32,
    ) -> (r: Self)
        requires
            i64::MIN <= now + expiry_seconds <= i64::MAX,
        ensures
            r.otp_id == otp_id,
            r.tenant_id == tenant_id,
            r.destination == destination,
            r.channel == channel,
            r.purpose == purpose,
            r.code_hash == code_hash,
            r.created_utc == now,
            r.expiry_utc == now + expiry_seconds,
            !r.consumed,
            r.attempt_count == 0,
            r.attempt_max == max_attempts,
    {
        OtpRecord {
            otp_id,
            tenant_id,
            destination,
            channel,
            purpose,
            code_hash,
            created_utc: now,
            expiry_utc: now + expiry_seconds,
            consumed: false,
            attempt_count: 0,
            attempt_max: max_attempts,
        }
    }
}

/// Why a stored code cannot be verified at `now`, if it cannot: it was used,
/// it expired, or its attempts are spent (checked in that order).
pub open spec fn unusable_reason(otp: OtpRecord, now: i64) -> Option<Seq<char>> {
    if otp.consumed {
        Some("OTP has already been used"@)
    } else if otp.expiry_utc < now {
        Some("OTP has expired"@)
    } else if otp.attempt_count >= otp.attempt_max {
        Some("Maximum verification attempts exceeded"@)
    } else {
        None
    }
}

/// Whether the stored code may be tried at `now`; the refusal otherwise.
/// When it may, the caller counts the attempt before comparing the code.
pub fn check_otp_usable(otp: &OtpRecord, now: i64) -> (r: Result<(), AppError>)
    ensures
        match unusable_reason(*otp, now) {
            None => r is Ok,
            Some(m) => r matches Err(AppError::BadRequest(e)) && e@ == m,
        },
{
    if otp.consumed {
        return Err(AppError::BadRequest("OTP has already been used".to_owned()));
    }
    if otp.expiry_utc < now {
        return Err(AppError::BadRequest("OTP has expired".to_owned()));
    }
    if otp.attempt_count >= otp.attempt_max {
        return Err(AppError::BadRequest("Maximum verification attempts exceeded".to_owned()));
    }
    Ok(())
}

/// Whether `code` is the code stored in `otp`: its digest must equal the
/// stored one.
pub fn check_otp_code(otp: &OtpRecord, code: &str) -> (r: Result<(), AppError>)
    ensures
        r is Ok <==> hex_lower(sha256_of(code.spec_bytes())) == otp.code_hash@,
        r is Err ==> (r matches Err(AppError::AuthError(m)) && m@ == "Invalid OTP code"@),
{
    let h = hash_otp(code);
    if h != otp.code_hash {
        return Err(AppError::AuthError("Invalid OTP code".to_owned()));
    }
    Ok(())
}

/// `r` is the record `otp` after one try of a code at `now`, the code's
/// digest being right (`right`) or not: a record that may be tried counts
/// the attempt, and is consumed when the code is right; one that may not be
/// tried is left as it was.
pub open spec fn after_try(otp: OtpRecord, r: OtpRecord, right: bool, now: i64) -> bool {
    if unusable_reason(otp, now) is Some {
        r == otp
    } else {
        r == OtpRecord { attempt_count: (otp.attempt_count + 1) as i32, consumed: right, ..otp }
    }
}

/// One try of `code` against the stored code `otp` at `now`: refused as
/// `check_otp_usable` refuses, the record unchanged; otherwise the attempt
/// is counted before the code is compared, and a right code consumes the
/// record, a wrong one is refused as invalid.
pub fn try_otp_code(otp: &mut OtpRecord, code: &str, now: i64) -> (r: Result<(), AppError>)
    ensures
        after_try(*old(otp), *final(otp), hex_lower(sha256_of(code.spec_bytes())) == old(otp).code_hash@, now),
        match unusable_reason(*old(otp), now) {
            Some(m) => r matches Err(AppError::BadRequest(e)) && e@ == m,
            None => if hex_lower(sha256_of(code.spec_bytes())) == old(otp).code_hash@ {
                r is Ok
            } else {
                r matches Err(AppError::AuthError(m)) && m@ == "Invalid OTP code"@
            },
        },
{
    match check_otp_usable(otp, now) {
        Err(e) => return Err(e),
        Ok(()) => {},
    }
    otp.attempt_count = otp.attempt_count + 1;
    match check_otp_code(otp, code) {
        Err(e) => Err(e),
        Ok(()) => {
            otp.consumed = true;
            Ok(())
        },
    }
}

/// One try of `code` at `now` against the stored code with the requested
/// id (`None` when no code has it): refused as not found, nothing stored;
/// otherwise as `try_otp_code`.
pub fn try_found_otp_code(otp: &mut Option<OtpRecord>, code: &str, now: i64) -> (r: Result<(), AppError>)
    ensures
        match *old(otp) {
            None => *final(otp) is None && (r matches Err(AppError::NotFound(m)) && m@ == "OTP not found"@),
            Some(o) => *final(otp) matches Some(n) && after_try(o, n, hex_lower(sha256_of(code.spec_bytes())) == o.code_hash@, now)
                && match unusable_reason(o, now) {
                Some(m) => r matches Err(AppError::BadRequest(e)) && e@ == m,
                None => if hex_lower(sha256_of(code.spec_bytes())) == o.code_hash@ {
                    r is Ok
                } else {
                    r matches Err(AppError::AuthError(m)) && m@ == "Invalid OTP code"@
                },
            },
        },
{
    match otp {
        None => Err(AppError::NotFound("OTP not found".to_owned())),
        Some(o) => try_otp_code(o, code, now),
    }
}

/// A code verifies at most once, and is tried at most `attempt_max` times:
/// after a try the record is consumed exactly when the code was right and
/// the record could be tried, and every try that could be made counts; a
/// consumed record, or one whose attempts are spent, is then refused.
pub proof fn law_otp_try(otp: OtpRecord, r: OtpRecord, right: bool, now: i64, later: i64)
    requires
        after_try(otp, r, right, now),
    ensures
        unusable_reason(otp, now) is None ==> r.attempt_count == otp.attempt_count + 1 && r.consumed == right,
        unusable_reason(otp, now) is Some ==> r == otp,
        r.attempt_count <= otp.attempt_max || r.attempt_count == otp.attempt_count,
        r.consumed ==> unusable_reason(r, later) == Some("OTP has already been used"@),
        unusable_reason(otp, now) is None && right ==> r.consumed,
{
}

/// What follows a verified and consumed code.
#[derive(Clone, Debug, PartialEq, Eq)]
pub enum OtpFollowUp {
    /// Sign the user with the code's destination email in, in this tenant.
    IssueTokens { tenant_id: u128 },
    /// Mark the destination email verified, when the code has a tenant.
    MarkEmailVerified { tenant_id: Option<u128> },
    /// Report the code verified for this purpose and do nothing more.
    Verified { purpose: OtpPurpose },
}

/// The step after a verified code, by its purpose; a login code without a
/// tenant is refused.
pub fn otp_follow_up(otp: &OtpRecord) -> (r: Result<OtpFollowUp, AppError>)
    ensures
        match otp.purpose {
            OtpPurpose::Login => match otp.tenant_id {
                Some(t) => r == Ok::<OtpFollowUp, AppError>(OtpFollowUp::IssueTokens { tenant_id: t }),
                None => r matches Err(AppError::BadRequest(m)) && m@ == "Tenant ID required"@,
            },
            OtpPurpose::VerifyEmail => r == Ok::<OtpFollowUp, AppError>(
                OtpFollowUp::MarkEmailVerified { tenant_id: otp.tenant_id },
            ),
            p => r == Ok::<OtpFollowUp, AppError>(OtpFollowUp::Verified { purpose: p }),
        },
{
    match otp.purpose {
        OtpPurpose::Login => match otp.tenant_id {
            Some(t) => Ok(OtpFollowUp::IssueTokens { tenant_id: t }),
            None => Err(AppError::BadRequest("Tenant ID required".to_owned())),
        },
        OtpPurpose::VerifyEmail => Ok(OtpFollowUp::MarkEmailVerified { tenant_id: otp.tenant_id }),
        p => Ok(OtpFollowUp::Verified { purpose: p }),
    }
}

/// Response after verifying a code that is not for login.
#[derive(Clone, Debug, PartialEq, Eq)]
pub struct VerifyOtpVerifyResponse {
    pub verified: bool,
    pub purpose: String,
}

/// The response for a verified code of purpose `p` (other than login).
pub fn verified_response(p: OtpPurpose) -> (r: VerifyOtpVerifyResponse)
    ensures
        r.verified,
        r.purpose@ == purpose_text(p),
{
    VerifyOtpVerifyResponse { verified: true, purpose: purpose_code(p) }
}

/// A freshly stored code (not consumed, no attempt made, at least one
/// allowed) may be tried at any time from its creation to its expiry.
pub proof fn law_fresh_code_usable_until_expiry(otp: OtpRecord, now: i64)
    requires
        !otp.consumed,
        otp.attempt_count == 0,
        otp.attempt_max > 0,
        otp.created_utc <= now <= otp.expiry_utc,
    ensures
        unusable_reason(otp, now) is None,
{
}

/// A code verifies at most once: once consumed it is refused, whatever the
/// time and the attempts.
pub proof fn law_consumed_code_refused(otp: OtpRecord, now: i64)
    requires
        otp.consumed,
    ensures
        unusable_reason(otp, now) == Some("OTP has already been used"@),
{
}

/// A code is refused after its expiry, and once its attempts are spent.
pub proof fn law_expired_or_spent_code_refused(otp: OtpRecord, now: i64)
    requires
        otp.expiry_utc < now || otp.attempt_count >= otp.attempt_max,
    ensures
        unusable_reason(otp, now) is Some,
{
}

} // verus!
