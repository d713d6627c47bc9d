//! Rate limiting: the quotas of the limiters, the key of a request, and the
//! answers to requests over the limit.
//!
//! A limiter allows a burst of `attempts` requests and regains one every
//! `window / attempts`; at least one attempt is always allowed.
use vstd::prelude::*;

use std::num::NonZeroU32;
use std::sync::Arc;
use std::time::Duration;

use governor::clock::{Clock, DefaultClock};
use governor::state::{InMemoryState, NotKeyed};
use governor::{Quota, RateLimiter};

use crate::error::AppError;
use crate::text::{chars_of, split_chars, split_on, string_of, trim_chars, trimmed};

verus! {

broadcast use vstd::string::group_string_axioms;

/// The quota of a limiter: the burst it allows, and the milliseconds after
/// which one more request is allowed.
#[derive(Clone, Copy, Debug, PartialEq, Eq)]
pub struct RateQuota {
    pub burst: u32,
    pub period_ms: u64,
}

/// The burst of a limiter set to `attempts` (at least one).
pub open spec fn burst_of(attempts: u32) -> u32 {
    if attempts == 0 {
        1
    } else {
        attempts
    }
}

/// The quota of a limiter that allows `attempts` requests per
/// `window_seconds`; the replenish period must come out positive.
pub fn quota_for(attempts: u32, window_seconds: u64) -> (q: RateQuota)
    requires
        window_seconds * 1000 <= u64::MAX,
        (window_seconds * 1000) / (burst_of(attempts) as int) > 0,
    ensures
        q.burst == burst_of(attempts),
        q.period_ms == (window_seconds * 1000) / (burst_of(attempts) as int),
        q.burst >= 1,
        q.period_ms > 0,
        q.period_ms * q.burst <= window_seconds * 1000,
{
    let burst = if attempts == 0 {
        1
    } else {
        attempts
    };
    let w: u64 = window_seconds * 1000;
    let period_ms = w / (burst as u64);
    assert(period_ms * burst <= w) by (nonlinear_arith)
        requires
            burst >= 1,
            period_ms as int == (w as int) / (burst as int),
    ;
    RateQuota { burst, period_ms }
}

/// The quota of a client's own limiter, from its per-minute limit: `None`
/// (no limit) for 0.
pub fn client_quota(limit_per_min: u32) -> (q: Option<RateQuota>)
    requires
        limit_per_min <= 60000,
    ensures
        limit_per_min == 0 <==> q is None,
        q matches Some(x) ==> x.burst == limit_per_min && x.period_ms == 60000int / (limit_per_min as int),
{
    if limit_per_min == 0 {
        None
    } else {
        assert(60000int / (limit_per_min as int) > 0) by (nonlinear_arith)
            requires
                1 <= limit_per_min <= 60000,
        ;
        Some(quota_for(limit_per_min, 60))
    }
}

/// Which limiter refused a request.
#[derive(Clone, Copy, Debug, PartialEq, Eq, Structural)]
pub enum LimiterKind {
    /// A limiter of the whole service.
    Global,
    /// The limiter of the request's IP address.
    Ip,
    /// The limiter of the calling client.
    Client,
}

/// The message of a refusal by each limiter.
pub open spec fn limit_message(k: LimiterKind) -> Seq<char> {
    match k {
        LimiterKind::Global => "Too many requests. Please try again later."@,
        LimiterKind::Ip => "Too many requests from this IP. Please try again later."@,
        LimiterKind::Client => "Client rate limit exceeded"@,
    }
}

/// The answer to a request refused by a limiter, which allows the next one
/// after `wait_seconds`.
pub fn limited(k: LimiterKind, wait_seconds: u64) -> (e: AppError)
    ensures
        e matches AppError::TooManyRequests(m, w) && m@ == limit_message(k) && w == Some(
            wait_seconds,
        ),
{
    let m = match k {
        LimiterKind::Global => "Too many requests. Please try again later.".to_owned(),
        LimiterKind::Ip => "Too many requests from this IP. Please try again later.".to_owned(),
        LimiterKind::Client => "Client rate limit exceeded".to_owned(),
    };
    AppError::TooManyRequests(m, Some(wait_seconds))
}

/// The address text that an `X-Forwarded-For` value names first: its first
/// comma-separated entry, without surrounding white space.
pub fn forwarded_first(header: &str) -> (r: String)
    ensures
        r@ == trimmed(split_on(header@, ',')[0]),
{
    let parts = split_chars(&chars_of(header), ',');
    proof {
        crate::text::lemma_split_nonempty(header@, ',');
    }
    assert(parts@.map_values(|p: Vec<char>| p@)[0] == parts@[0]@);
    string_of(&trim_chars(&parts[0]))
}

/// A limiter shared by all the requests it screens (governor's direct
/// limiter on the default clock). Its state is held by governor.
#[verifier::external_body]
pub struct UnkeyedRateLimiter {
    inner: Arc<RateLimiter<NotKeyed, InMemoryState, DefaultClock>>,
}

/// The limiter of login attempts.
pub type LoginRateLimiter = UnkeyedRateLimiter;

/// The limiter of password reset requests.
pub type PasswordResetRateLimiter = UnkeyedRateLimiter;

/// The quota a limiter was made with: its burst and its replenish period in
/// milliseconds.
pub uninterp spec fn limiter_quota(l: UnkeyedRateLimiter) -> (u32, u64);

/// How many requests the limiter has screened since it was made.
pub uninterp spec fn limiter_checks(l: UnkeyedRateLimiter) -> nat;

/// `Quota::with_period(..).allow_burst(..)` and `RateLimiter::direct`
/// (governor): a limiter on the default clock made with the burst and the
/// period of `q`. `with_period` refuses only a zero period and
/// `NonZeroU32::new` only a zero burst; governor keeps the burst's
/// tolerance (period times burst) and its state in `u64` nanoseconds and
/// panics or wraps past that, so `requires` leaves out a zero period or
/// burst and a period times burst plus one period beyond `u64::MAX`
/// nanoseconds (about 584 years).
#[verifier::external_body]
fn direct_limiter(q: RateQuota) -> (l: UnkeyedRateLimiter)
    requires
        q.burst >= 1,
        q.period_ms > 0,
        (q.period_ms * q.burst + q.period_ms) * 1_000_000 <= u64::MAX,
    ensures
        limiter_quota(l) == (q.burst, q.period_ms),
        limiter_checks(l) == 0,
{
    let period = Duration::from_millis(q.period_ms);
    let burst = NonZeroU32::new(q.burst).unwrap();
    let quota = Quota::with_period(period).unwrap().allow_burst(burst);
    UnkeyedRateLimiter { inner: Arc::new(RateLimiter::direct(quota)) }
}

/// `RateLimiter::check` (governor): takes one request's cell if the limiter
/// has one (`Ok`), else gives the whole seconds until it has one
/// (`NotUntil::wait_time_from` the clock's present). What holds whatever the
/// clock says: the quota stays, the check is counted, and while fewer checks
/// than the burst have been made the cell is there. (The GCRA state starts
/// one period ahead of the first check and each allowed check moves it at
/// most one period past the monotonic present, so the `k`-th allowed check
/// finds it at most `k + 1` periods ahead, within the burst's tolerance.)
/// The limiter was made by `direct_limiter`, whose bound keeps the period
/// times the burst plus one period within `u64` nanoseconds, so these sums
/// stay in range for as long as the clock does (about 584 years).
/// Beyond the burst the answer depends on the clock, and is left unsaid.
#[verifier::external_body]
fn take_cell(l: &mut UnkeyedRateLimiter) -> (r: Result<(), u64>)
    ensures
        limiter_quota(*final(l)) == limiter_quota(*old(l)),
        limiter_checks(*final(l)) == limiter_checks(*old(l)) + 1,
        limiter_checks(*old(l)) < limiter_quota(*old(l)).0 ==> r is Ok,
{
    match l.inner.check() {
        Ok(_) => Ok(()),
        Err(negative) => Err(negative.wait_time_from(DefaultClock::default().now()).as_secs()),
    }
}

/// A limiter that allows `attempts` login attempts per `window_seconds`
/// (`quota_for`); the replenish period must come out positive, and the
/// window must be short enough for governor's nanosecond clock (below
/// about 292 years).
pub fn create_login_rate_limiter(attempts: u32, window_seconds: u64) -> (l: LoginRateLimiter)
    requires
        window_seconds * 2_000_000_000 <= u64::MAX,
        (window_seconds * 1000) / (burst_of(attempts) as int) > 0,
    ensures
        limiter_quota(l) == (burst_of(attempts), ((window_seconds * 1000) / (burst_of(
            attempts,
        ) as int)) as u64),
        limiter_checks(l) == 0,
{
    let q = quota_for(attempts, window_seconds);
    assert((q.period_ms * q.burst + q.period_ms) * 1_000_000 <= u64::MAX) by (nonlinear_arith)
        requires
            q.burst >= 1,
            q.period_ms * q.burst <= window_seconds * 1000,
            window_seconds * 2_000_000_000 <= u64::MAX,
    ;
    direct_limiter(q)
}

/// A limiter that allows `attempts` password reset requests per
/// `window_seconds`, made as the login limiter is.
pub fn create_password_reset_rate_limiter(attempts: u32, window_seconds: u64) -> (l:
    PasswordResetRateLimiter)
    requires
        window_seconds * 2_000_000_000 <= u64::MAX,
        (window_seconds * 1000) / (burst_of(attempts) as int) > 0,
    ensures
        limiter_quota(l) == (burst_of(attempts), ((window_seconds * 1000) / (burst_of(
            attempts,
        ) as int)) as u64),
        limiter_checks(l) == 0,
{
    let q = quota_for(attempts, window_seconds);
    assert((q.period_ms * q.burst + q.period_ms) * 1_000_000 <= u64::MAX) by (nonlinear_arith)
        requires
            q.burst >= 1,
            q.period_ms * q.burst <= window_seconds * 1000,
            window_seconds * 2_000_000_000 <= u64::MAX,
    ;
    direct_limiter(q)
}

/// The limiter of a client with a per-minute limit; `None` where the limit
/// is 0 (unlimited).
pub fn create_client_limiter(limit_per_min: u32) -> (l: Option<UnkeyedRateLimiter>)
    requires
        limit_per_min <= 60000,
    ensures
        l is None <==> limit_per_min == 0,
        l matches Some(x) ==> limiter_quota(x) == (limit_per_min, (60000int / (
            limit_per_min as int)) as u64) && limiter_checks(x) == 0,
{
    match client_quota(limit_per_min) {
        Some(q) => {
            assert(60000int / (limit_per_min as int) > 0) by (nonlinear_arith)
                requires
                    1 <= limit_per_min <= 60000,
            ;
            assert((q.period_ms * q.burst + q.period_ms) * 1_000_000 <= u64::MAX) by (nonlinear_arith)
                requires
                    1 <= limit_per_min <= 60000,
                    q.burst == limit_per_min,
                    q.period_ms == 60000int / (limit_per_min as int),
            ;
            Some(direct_limiter(q))
        },
        None => None,
    }
}

/// The answer to a request that a limiter of kind `k` let through (`Ok`)
/// or refused until `w` seconds have passed (`Err(w)`).
pub fn admission(k: LimiterKind, outcome: Result<(), u64>) -> (r: Result<(), AppError>)
    ensures
        match outcome {
            Ok(()) => r is Ok,
            Err(w) => r matches Err(AppError::TooManyRequests(m, x)) && m@ == limit_message(k)
                && x == Some(w),
        },
{
    match outcome {
        Ok(()) => Ok(()),
        Err(w) => Err(limited(k, w)),
    }
}

/// Screens one request with the limiter `l` of kind `k`: through, or the
/// refusal of that kind with the wait that the limiter gives. The first
/// requests of a limiter, as many as its burst, are let through.
pub fn screen(l: &mut UnkeyedRateLimiter, k: LimiterKind) -> (r: Result<(), AppError>)
    ensures
        limiter_quota(*final(l)) == limiter_quota(*old(l)),
        limiter_checks(*final(l)) == limiter_checks(*old(l)) + 1,
        limiter_checks(*old(l)) < limiter_quota(*old(l)).0 ==> r is Ok,
        r matches Err(e) ==> (e matches AppError::TooManyRequests(m, x) && m@ == limit_message(k)
            && x is Some),
{
    admission(k, take_cell(l))
}

/// Whatever the configured number of attempts, a limiter's burst is at
/// least one, so (by `screen`'s contract) the first request to a fresh
/// limiter is let through at once.
pub proof fn law_quota_allows_one(attempts: u32, l: UnkeyedRateLimiter)
    requires
        limiter_quota(l).0 == burst_of(attempts),
        limiter_checks(l) == 0,
    ensures
        burst_of(attempts) >= 1,
        limiter_checks(l) < limiter_quota(l).0,
{
}

} // verus!
