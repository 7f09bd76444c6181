//! Application configuration.

use vstd::prelude::*;
use crate::text::own;

verus! {

/// Application configuration.
#[derive(Debug, Clone)]
pub struct Config {
    pub default_plan_id: Option<String>,
    pub currency_symbol: String,
    pub last_updated: String,
}

/// The shape of an RFC 3339 time in UTC as chrono writes it:
/// `YYYY-MM-DDTHH:MM:SS[.fraction]+00:00`, so at least 25 characters, the
/// last six `+00:00`.
pub open spec fn utc_rfc3339_shape(s: Seq<char>) -> bool {
    &&& s.len() >= 25
    &&& s.subrange(s.len() - 6, s.len() as int) == "+00:00"@
}

/// `chrono::Utc::now().to_rfc3339()`: the current time in UTC as RFC 3339
/// text. Which time it gives depends on the clock, so only its shape is
/// claimed: chrono writes the date and time (at least 19 characters) and
/// then the zero offset as `+00:00`.
#[verifier::external_body]
fn now_rfc3339() -> (r: String)
    ensures
        utc_rfc3339_shape(r@),
{
    chrono::Utc::now().to_rfc3339()
}

impl Default for Config {
    /// No default plan, the dollar sign, and the current time in UTC (RFC
    /// 3339) as the last update.
    fn default() -> (r: Self)
        ensures
            r.default_plan_id is None,
            r.currency_symbol@ == "$"@,
            utc_rfc3339_shape(r.last_updated@),
    {
        Config { default_plan_id: None, currency_symbol: own("$"), last_updated: now_rfc3339() }
    }
}

} // verus!
