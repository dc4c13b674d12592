//! The ordered, short-circuiting decision pipeline run for every request.
//!
//! Stages, in order: rate limit (block, 429), static-asset bypass (allow),
//! attack signature (block, 403), suspicious agent (block, 403), and finally
//! the external risk score (block, 403, above the threshold; allow otherwise).
//! Scores are fixed-point numbers in millionths: `1_000_000` stands for 1.0.

use crate::rate_limit::{LimiterModel, RateLimiter};
use crate::signatures::{
    agent_flagged, contains_seq, is_suspicious_agent, lower_of, regex_compiles, regex_match,
    PatternError, SignatureMatcher, SIGNATURE_PATTERN, STATIC_ASSET_PATTERN,
};
use vstd::prelude::*;

verus! {

/// Requests a client may make within one window.
pub const DEFAULT_MAX_REQUESTS: u64 = 100;

/// Length of a rate-limit window, in milliseconds.
pub const DEFAULT_WINDOW_MS: u64 = 60000;

/// Risk scores strictly above this (in millionths) are blocked.
pub const DEFAULT_RISK_THRESHOLD: u64 = 850000;

/// How a request ended.
#[derive(Clone, Copy, Debug, PartialEq, Eq)]
pub enum Outcome {
    /// Passed every stage, the risk score included.
    Allowed,
    /// A static asset, let through without further screening.
    StaticAsset,
    /// Too many requests from this client within the window.
    RateLimited,
    /// The path or query holds an attack signature.
    SignatureMatch,
    /// The User-Agent names a scanner tool.
    SuspiciousAgent,
    /// The risk oracle scored the request above the threshold.
    HighRisk,
}

/// The verdict on one request, with the risk score where one was obtained.
#[derive(Clone, Copy, Debug, PartialEq, Eq)]
pub struct Decision {
    pub outcome: Outcome,
    pub score: Option<u64>,
}

pub open spec fn outcome_allows(o: Outcome) -> bool {
    o is Allowed || o is StaticAsset
}

pub open spec fn outcome_status(o: Outcome) -> Option<u16> {
    match o {
        Outcome::RateLimited => Some(429u16),
        Outcome::SignatureMatch | Outcome::SuspiciousAgent | Outcome::HighRisk => Some(403u16),
        _ => None,
    }
}

pub open spec fn outcome_category(o: Outcome) -> Seq<char> {
    match o {
        Outcome::Allowed => "allow"@,
        Outcome::StaticAsset => "static"@,
        Outcome::RateLimited => "rate_limit"@,
        Outcome::SignatureMatch => "signature"@,
        Outcome::SuspiciousAgent => "bot"@,
        Outcome::HighRisk => "ai"@,
    }
}

impl Decision {
    /// Whether the request goes on to the upstream.
    pub fn allows(&self) -> (r: bool)
        ensures
            r == outcome_allows(self.outcome),
    {
        match self.outcome {
            Outcome::Allowed | Outcome::StaticAsset => true,
            _ => false,
        }
    }

    /// The status code of the refusal; none for an allowed request.
    pub fn status_code(&self) -> (r: Option<u16>)
        ensures
            r == outcome_status(self.outcome),
    {
        match self.outcome {
            Outcome::RateLimited => Some(429),
            Outcome::SignatureMatch | Outcome::SuspiciousAgent | Outcome::HighRisk => Some(403),
            _ => None,
        }
    }

    /// The category label of the outcome.
    pub fn category(&self) -> (r: &'static str)
        ensures
            r@ == outcome_category(self.outcome),
    {
        match self.outcome {
            Outcome::Allowed => "allow",
            Outcome::StaticAsset => "static",
            Outcome::RateLimited => "rate_limit",
            Outcome::SignatureMatch => "signature",
            Outcome::SuspiciousAgent => "bot",
            Outcome::HighRisk => "ai",
        }
    }

    /// The action name written to the audit log.
    pub fn action(&self) -> (r: &'static str)
        ensures
            r@ == match self.outcome {
                Outcome::Allowed => "ALLOW"@,
                Outcome::StaticAsset => "ALLOW_STATIC"@,
                Outcome::RateLimited => "BLOCK_DDOS"@,
                Outcome::SignatureMatch => "BLOCK_SQLI_REGEX"@,
                Outcome::SuspiciousAgent => "BLOCK_BOT"@,
                Outcome::HighRisk => "BLOCK_AI"@,
            },
    {
        match self.outcome {
            Outcome::Allowed => "ALLOW",
            Outcome::StaticAsset => "ALLOW_STATIC",
            Outcome::RateLimited => "BLOCK_DDOS",
            Outcome::SignatureMatch => "BLOCK_SQLI_REGEX",
            Outcome::SuspiciousAgent => "BLOCK_BOT",
            Outcome::HighRisk => "BLOCK_AI",
        }
    }

    /// The human-readable reason written to the audit log.
    pub fn reason(&self) -> (r: &'static str)
        ensures
            r@ == match self.outcome {
                Outcome::Allowed => "Passed All Checks"@,
                Outcome::StaticAsset => "Static Asset"@,
                Outcome::RateLimited => "Rate Limit Exceeded"@,
                Outcome::SignatureMatch => "Signature Match"@,
                Outcome::SuspiciousAgent => "Suspicious User Agent"@,
                Outcome::HighRisk => "High Risk Score"@,
            },
    {
        match self.outcome {
            Outcome::Allowed => "Passed All Checks",
            Outcome::StaticAsset => "Static Asset",
            Outcome::RateLimited => "Rate Limit Exceeded",
            Outcome::SignatureMatch => "Signature Match",
            Outcome::SuspiciousAgent => "Suspicious User Agent",
            Outcome::HighRisk => "High Risk Score",
        }
    }
}

/// The outcome of the stages before the risk oracle, given what each check
/// found; `None` when every one of them lets the request go on.
pub open spec fn screen_outcome(
    rate_exceeded: bool,
    static_asset: bool,
    signature: bool,
    suspicious_agent: bool,
) -> Option<Outcome> {
    if rate_exceeded {
        Some(Outcome::RateLimited)
    } else if static_asset {
        Some(Outcome::StaticAsset)
    } else if signature {
        Some(Outcome::SignatureMatch)
    } else if suspicious_agent {
        Some(Outcome::SuspiciousAgent)
    } else {
        None
    }
}

pub open spec fn unscored(o: Option<Outcome>) -> Option<Decision> {
    match o {
        Some(outcome) => Some(Decision { outcome, score: None }),
        None => None,
    }
}

/// The early outcome of a request from its rate-limit verdict, path
/// (without query), path and query, and raw User-Agent.
pub open spec fn screening(
    rate_exceeded: bool,
    path: Seq<char>,
    uri: Seq<char>,
    user_agent: Seq<char>,
) -> Option<Outcome> {
    screen_outcome(
        rate_exceeded,
        regex_match(STATIC_ASSET_PATTERN@, path),
        regex_match(SIGNATURE_PATTERN@, uri),
        agent_flagged(lower_of(user_agent)),
    )
}

/// The final decision from the oracle's score, `None` when the oracle call
/// failed: a failed call counts as a score of zero.
pub open spec fn score_decision(score: Option<u64>, threshold: u64) -> Decision {
    let s: u64 = match score {
        Some(v) => v,
        None => 0u64,
    };
    Decision {
        outcome: if s > threshold {
            Outcome::HighRisk
        } else {
            Outcome::Allowed
        },
        score: Some(s),
    }
}

/// The early stages in their fixed order, from the finding of each check.
pub fn screen_stages(
    rate_exceeded: bool,
    static_asset: bool,
    signature: bool,
    suspicious_agent: bool,
) -> (r: Option<Decision>)
    ensures
        r == unscored(screen_outcome(rate_exceeded, static_asset, signature, suspicious_agent)),
{
    let outcome = if rate_exceeded {
        Some(Outcome::RateLimited)
    } else if static_asset {
        Some(Outcome::StaticAsset)
    } else if signature {
        Some(Outcome::SignatureMatch)
    } else if suspicious_agent {
        Some(Outcome::SuspiciousAgent)
    } else {
        None
    };
    match outcome {
        Some(outcome) => Some(Decision { outcome, score: None }),
        None => None,
    }
}

/// The last stage: blocks when the score exceeds `threshold`, and treats a
/// failed oracle call as a score of zero.
pub fn decide_on_score(score: Option<u64>, threshold: u64) -> (r: Decision)
    ensures
        r == score_decision(score, threshold),
{
    let s: u64 = match score {
        Some(v) => v,
        None => 0,
    };
    let outcome = if s > threshold {
        Outcome::HighRisk
    } else {
        Outcome::Allowed
    };
    Decision { outcome, score: Some(s) }
}

/// The filtering core of the proxy: per-client rate limiting, the compiled
/// signatures and the risk threshold.  A request is handled in two steps:
/// `check_rate_limit` and `screen` decide what they can, and only when
/// `screen` leaves the request open is the oracle asked and `conclude` called.
pub struct WafProxy {
    rate_limiter: RateLimiter,
    matcher: SignatureMatcher,
    risk_threshold: u64,
}

impl WafProxy {
    pub closed spec fn wf(&self) -> bool {
        self.matcher.wf()
    }

    pub closed spec fn threshold(&self) -> u64 {
        self.risk_threshold
    }

    pub closed spec fn limiter(&self) -> LimiterModel {
        self.rate_limiter@
    }

    /// A proxy with the default limits: 100 requests per 60 s window and a
    /// risk threshold of 0.85.
    pub fn new() -> (r: Result<WafProxy, PatternError>)
        ensures
            r is Ok == (regex_compiles(STATIC_ASSET_PATTERN@) && regex_compiles(
                SIGNATURE_PATTERN@,
            )),
            r matches Ok(p) ==> {
                &&& p.wf()
                &&& p.limiter().max_requests == DEFAULT_MAX_REQUESTS
                &&& p.limiter().window == DEFAULT_WINDOW_MS
                &&& p.threshold() == DEFAULT_RISK_THRESHOLD
                &&& forall|k: Seq<char>| !#[trigger] p.limiter().windows.contains_key(k)
            },
    {
        WafProxy::with_limits(DEFAULT_MAX_REQUESTS, DEFAULT_WINDOW_MS, DEFAULT_RISK_THRESHOLD)
    }

    /// A proxy with the given limits and no client seen yet; fails only when
    /// a pattern does not compile.
    pub fn with_limits(max_requests: u64, window: u64, risk_threshold: u64) -> (r: Result<
        WafProxy,
        PatternError,
    >)
        ensures
            r is Ok == (regex_compiles(STATIC_ASSET_PATTERN@) && regex_compiles(
                SIGNATURE_PATTERN@,
            )),
            r matches Ok(p) ==> {
                &&& p.wf()
                &&& p.limiter().max_requests == max_requests
                &&& p.limiter().window == window
                &&& p.threshold() == risk_threshold
                &&& forall|k: Seq<char>| !#[trigger] p.limiter().windows.contains_key(k)
            },
    {
        match SignatureMatcher::new() {
            Ok(matcher) => Ok(
                WafProxy { rate_limiter: RateLimiter::new(max_requests, window), matcher, risk_threshold },
            ),
            Err(e) => Err(e),
        }
    }

    /// The per-client request counters.
    pub fn rate_limiter(&self) -> (r: &RateLimiter)
        ensures
            r@ == self.limiter(),
    {
        &self.rate_limiter
    }

    /// The risk threshold, in millionths.
    pub fn risk_threshold(&self) -> (r: u64)
        ensures
            r == self.threshold(),
    {
        self.risk_threshold
    }

    /// Counts a request of `client_ip` at `now` (milliseconds) and reports
    /// whether it exceeds the rate limit.
    pub fn check_rate_limit(&mut self, client_ip: &str, now: u64) -> (exceeded: bool)
        requires
            old(self).wf(),
        ensures
            final(self).wf(),
            final(self).threshold() == old(self).threshold(),
            (final(self).limiter(), exceeded) == old(self).limiter().check(client_ip@, now),
    {
        self.rate_limiter.check_and_increment(client_ip, now)
    }

    /// The stages before the risk oracle, each run only when every earlier one
    /// let the request go on; `None` means the oracle must be asked.
    pub fn screen(&self, rate_exceeded: bool, path: &str, uri: &str, user_agent: &str) -> (r:
        Option<Decision>)
        requires
            self.wf(),
        ensures
            r == unscored(screening(rate_exceeded, path@, uri@, user_agent@)),
    {
        if rate_exceeded {
            return screen_stages(true, false, false, false);
        }
        if self.matcher.is_static_asset(path) {
            return screen_stages(false, true, false, false);
        }
        if self.matcher.matches_signature(uri) {
            return screen_stages(false, false, true, false);
        }
        let flagged = is_suspicious_agent(user_agent);
        screen_stages(false, false, false, flagged)
    }

    /// Counts the request of `client_ip` at `now` (milliseconds) and runs the
    /// stages before the risk oracle; `None` means the oracle must be asked.
    pub fn filter_request(
        &mut self,
        client_ip: &str,
        now: u64,
        path: &str,
        uri: &str,
        user_agent: &str,
    ) -> (r: Option<Decision>)
        requires
            old(self).wf(),
        ensures
            final(self).wf(),
            final(self).threshold() == old(self).threshold(),
            final(self).limiter() == old(self).limiter().check(client_ip@, now).0,
            r == unscored(
                screening(old(self).limiter().check(client_ip@, now).1, path@, uri@, user_agent@),
            ),
    {
        let exceeded = self.check_rate_limit(client_ip, now);
        self.screen(exceeded, path, uri, user_agent)
    }

    /// The decision for a request that `screen` left open, from the oracle's
    /// score (`None` when the call failed).
    pub fn conclude(&self, score: Option<u64>) -> (r: Decision)
        ensures
            r == score_decision(score, self.threshold()),
    {
        decide_on_score(score, self.risk_threshold)
    }
}

/// A static-asset path is let through even when its query holds an attack
/// signature or its User-Agent names a scanner: only the rate limit comes first.
pub proof fn lemma_static_asset_bypass(path: Seq<char>, uri: Seq<char>, user_agent: Seq<char>)
    requires
        regex_match(STATIC_ASSET_PATTERN@, path),
    ensures
        screening(false, path, uri, user_agent) == Some(Outcome::StaticAsset),
        outcome_allows(Outcome::StaticAsset),
{
}

/// A request within its rate limit, not for a static asset, whose path and
/// query hold an attack signature is blocked with status 403, category "signature".
pub proof fn lemma_signature_blocks(path: Seq<char>, uri: Seq<char>, user_agent: Seq<char>)
    requires
        !regex_match(STATIC_ASSET_PATTERN@, path),
        regex_match(SIGNATURE_PATTERN@, uri),
    ensures
        screening(false, path, uri, user_agent) == Some(Outcome::SignatureMatch),
        !outcome_allows(Outcome::SignatureMatch),
        outcome_status(Outcome::SignatureMatch) == Some(403u16),
        outcome_category(Outcome::SignatureMatch) == "signature"@,
{
}

/// A request that passed the rate-limit, static-asset and signature stages and
/// whose lower-cased User-Agent contains a blocked tool name is blocked with
/// status 403, category "bot".
pub proof fn lemma_suspicious_agent_blocks(
    path: Seq<char>,
    uri: Seq<char>,
    user_agent: Seq<char>,
    tool: Seq<char>,
)
    requires
        !regex_match(STATIC_ASSET_PATTERN@, path),
        !regex_match(SIGNATURE_PATTERN@, uri),
        tool == "python-requests"@ || tool == "nessus"@ || tool == "nmap"@ || tool == "nikto"@,
        contains_seq(lower_of(user_agent), tool),
    ensures
        screening(false, path, uri, user_agent) == Some(Outcome::SuspiciousAgent),
        !outcome_allows(Outcome::SuspiciousAgent),
        outcome_status(Outcome::SuspiciousAgent) == Some(403u16),
        outcome_category(Outcome::SuspiciousAgent) == "bot"@,
{
}

/// A failed oracle call counts as a score of zero, so a request that no
/// earlier stage decided is allowed, whatever the threshold.
pub proof fn lemma_oracle_failure_allows(threshold: u64)
    ensures
        score_decision(None, threshold) == (Decision { outcome: Outcome::Allowed, score: Some(0u64) }),
        outcome_allows(score_decision(None, threshold).outcome),
{
}

} // verus!
