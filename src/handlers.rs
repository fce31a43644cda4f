//! The decisions of the two HTTP endpoints: liveness and the metrics scrape.
use crate::metrics::{gauges_of, Gauges};
use crate::twillo::{missing_config, AttemptSummary, Errors};
use vstd::prelude::*;

verus! {

/// Body of the liveness endpoint.
pub const ALIVE: &'static str = "alive";

/// The liveness answer; it depends on nothing.
pub fn health() -> (r: &'static str)
    ensures
        r@ == ALIVE@,
{
    ALIVE
}

/// How a scrape request is answered.
#[derive(Debug)]
pub enum ScrapeReply {
    /// Success: the rendered metrics.
    Metrics,
    /// A server error scoped to this request; the error is for the server's
    /// diagnostics and does not enter the metrics body.
    ServerError(Errors),
}

/// The HTTP status of a reply.
pub open spec fn reply_status(r: ScrapeReply) -> u16 {
    match r {
        ScrapeReply::Metrics => 200,
        ScrapeReply::ServerError(_) => 500,
    }
}

impl ScrapeReply {
    /// The HTTP status of this reply.
    pub fn status(&self) -> (r: u16)
        ensures
            r == reply_status(*self),
    {
        match self {
            ScrapeReply::Metrics => 200,
            ScrapeReply::ServerError(_) => 500,
        }
    }
}

/// The gauges after a scrape whose fetch ended in `outcome`.
pub open spec fn gauges_after(g: Gauges, outcome: Result<AttemptSummary, Errors>) -> Gauges {
    match outcome {
        Ok(s) => gauges_of(s),
        Err(_) => g,
    }
}

/// The reply to a scrape whose fetch ended in `outcome`.
pub open spec fn scrape_reply(outcome: Result<AttemptSummary, Errors>) -> ScrapeReply {
    match outcome {
        Ok(_) => ScrapeReply::Metrics,
        Err(e) => ScrapeReply::ServerError(e),
    }
}

/// Completes a scrape: a fetched summary sets all three gauges and the
/// metrics are rendered; any error leaves every gauge as it was and answers
/// with a server error.
pub fn scrape_step(gauges: &mut Gauges, outcome: Result<AttemptSummary, Errors>) -> (r:
    ScrapeReply)
    ensures
        *final(gauges) == gauges_after(*old(gauges), outcome),
        r == scrape_reply(outcome),
        outcome is Ok ==> final(gauges).total_verifications == outcome->Ok_0.total_attempts
            && final(gauges).converted_verifications == outcome->Ok_0.total_converted
            && final(gauges).failed_verifications == outcome->Ok_0.total_unconverted,
        outcome is Err ==> *final(gauges) == *old(gauges),
{
    match outcome {
        Ok(summary) => {
            gauges.set_from(&summary);
            ScrapeReply::Metrics
        },
        Err(e) => ScrapeReply::ServerError(e),
    }
}

/// A delivered summary sets the gauges to its attempts, converted and
/// unconverted counts, whatever they were, and the scrape renders them.
pub proof fn lemma_summary_sets_gauges(g: Gauges, s: AttemptSummary)
    ensures
        gauges_after(g, Ok(s)).total_verifications == s.total_attempts,
        gauges_after(g, Ok(s)).converted_verifications == s.total_converted,
        gauges_after(g, Ok(s)).failed_verifications == s.total_unconverted,
        reply_status(scrape_reply(Ok(s))) == 200,
{
}

/// A failed scrape neither zeroes nor partly overwrites the gauges, and is
/// answered with a server error.
pub proof fn lemma_failed_scrape_keeps_gauges(g: Gauges, e: Errors)
    ensures
        gauges_after(g, Err(e)) == g,
        reply_status(scrape_reply(Err(e))) == 500,
{
}

/// A missing configuration value ends only the request that met it: the
/// error that `TwilloAPI::from_config` reports for it answers that scrape with
/// a server error and leaves the gauges as they were.
pub proof fn lemma_missing_config_is_request_scoped(
    has_app_name: bool,
    has_sid: bool,
    has_token: bool,
    name: String,
    g: Gauges,
)
    requires
        !(has_app_name && has_sid && has_token),
        name@ == missing_config(has_app_name, has_sid, has_token),
    ensures
        gauges_after(g, Err(Errors::ConfigError(name))) == g,
        scrape_reply(Err(Errors::ConfigError(name))) == ScrapeReply::ServerError(
            Errors::ConfigError(name),
        ),
        reply_status(scrape_reply(Err(Errors::ConfigError(name)))) == 500,
{
}

} // verus!
