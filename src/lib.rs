//! A request-filtering core for a reverse-proxy web application firewall:
//! per-client rate limiting, signature screening and the ordered decision
//! pipeline that combines them with an external risk score.

pub mod rate_limit;
pub mod signatures;
pub mod pipeline;

pub use pipeline::{Decision, Outcome, WafProxy};
pub use rate_limit::RateLimiter;
pub use signatures::{Pattern, PatternError, SignatureMatcher};
