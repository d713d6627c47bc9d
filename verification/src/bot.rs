//! Bot screening of incoming requests: a score from the User-Agent and the
//! standard headers that browsers send, and a block at 100 points.
use vstd::prelude::*;

use isbot::Bots;

use crate::text::{chars_of, has_prefix, starts_with};

verus! {

broadcast use vstd::string::group_string_axioms;

/// Whether `ua` matches the isbot crate's default bot patterns (the match is
/// made on its ASCII-lowercased text).
pub uninterp spec fn known_bot(ua: Seq<char>) -> bool;

/// `Bots::default().is_bot` (isbot crate): whether the User-Agent `ua`
/// matches a known bot pattern. The contract names the result; the default
/// pattern set is fixed, so the result depends on `ua` alone.
#[verifier::external_body]
fn is_known_bot(ua: &str) -> (r: bool)
    ensures
        r == known_bot(ua@),
{
    Bots::default().is_bot(ua)
}

/// Score at which a request is blocked.
pub const BLOCK_SCORE: u32 = 100;

/// What the screening looks at in a request.
#[derive(Clone, Debug, PartialEq, Eq)]
pub struct BotSignals {
    /// The request is a CORS preflight (`OPTIONS`).
    pub is_options: bool,
    pub path: String,
    /// The User-Agent, empty when absent or not text.
    pub user_agent: String,
    pub has_accept: bool,
    pub has_accept_language: bool,
    pub has_accept_encoding: bool,
}

/// The requests that are never screened: preflights, and the health and
/// metrics endpoints.
pub open spec fn exempt(s: BotSignals) -> bool {
    s.is_options || s.path@ == "/health"@ || s.path@ == "/metrics"@
}

/// Points for the standard headers that a browser-like agent lacks: 70 for
/// two or more, 30 for one.
pub open spec fn missing_header_points(s: BotSignals) -> int {
    let missing = (if s.has_accept { 0int } else { 1int }) + (if s.has_accept_language {
        0int
    } else {
        1int
    }) + (if s.has_accept_encoding { 0int } else { 1int });
    if missing >= 2 {
        70
    } else if missing == 1 {
        30
    } else {
        0
    }
}

/// The suspicion score of a request: 50 for an empty User-Agent; else 100
/// for a known bot, plus the missing-header points when the agent claims to
/// be a browser (`Mozilla/...`).
pub open spec fn bot_score(s: BotSignals) -> int {
    if s.user_agent@.len() == 0 {
        50
    } else {
        (if known_bot(s.user_agent@) { 100int } else { 0int }) + (if has_prefix(
            s.user_agent@,
            "Mozilla/"@,
        ) {
            missing_header_points(s)
        } else {
            0
        })
    }
}

/// The score of a screened request (see `bot_score`).
pub fn score_request(s: &BotSignals) -> (score: u32)
    ensures
        score == bot_score(*s),
{
    let ua = chars_of(s.user_agent.as_str());
    if ua.len() == 0 {
        return 50;
    }
    let mut score: u32 = 0;
    if is_known_bot(s.user_agent.as_str()) {
        score = score + 100;
    }
    if starts_with(&ua, &chars_of("Mozilla/")) {
        let mut missing: u32 = 0;
        if !s.has_accept {
            missing = missing + 1;
        }
        if !s.has_accept_language {
            missing = missing + 1;
        }
        if !s.has_accept_encoding {
            missing = missing + 1;
        }
        if missing >= 2 {
            score = score + 70;
        } else if missing == 1 {
            score = score + 30;
        }
    }
    score
}

/// Whether a request is blocked as a bot (answered 403): it is not exempt
/// and its score reaches 100.
pub fn is_blocked(s: &BotSignals) -> (b: bool)
    ensures
        b == (!exempt(*s) && bot_score(*s) >= BLOCK_SCORE),
{
    let p = chars_of(s.path.as_str());
    if s.is_options || crate::text::chars_eq(&p, &chars_of("/health")) || crate::text::chars_eq(
        &p,
        &chars_of("/metrics"),
    ) {
        return false;
    }
    score_request(s) >= BLOCK_SCORE
}

/// A known bot is blocked wherever it is screened.
pub proof fn law_known_bot_blocked(s: BotSignals)
    requires
        !exempt(s),
        s.user_agent@.len() > 0,
        known_bot(s.user_agent@),
    ensures
        bot_score(s) >= BLOCK_SCORE,
{
}

/// A browser-like agent that sends its standard headers, and is no known
/// bot, is let through.
pub proof fn law_complete_browser_passes(s: BotSignals)
    requires
        s.user_agent@.len() > 0,
        !known_bot(s.user_agent@),
        s.has_accept,
        s.has_accept_language,
        s.has_accept_encoding,
    ensures
        bot_score(s) < BLOCK_SCORE,
{
}

/// An empty User-Agent alone does not block.
pub proof fn law_empty_agent_alone_passes(s: BotSignals)
    requires
        s.user_agent@.len() == 0,
    ensures
        bot_score(s) < BLOCK_SCORE,
{
}

} // verus!
