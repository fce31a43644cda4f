//! The three gauges that the exporter publishes, as plain counts.
use crate::twillo::AttemptSummary;
use vstd::prelude::*;

verus! {

/// Name of the gauge of all verification attempts.
pub const TOTAL_VERIFICATIONS: &'static str = "total_verifications";

/// Help text of the gauge of all verification attempts.
pub const TOTAL_VERIFICATIONS_HELP: &'static str = "Total number of verifications";

/// Name of the gauge of converted verifications.
pub const CONVERTED_VERIFICATIONS: &'static str = "converted_verifications";

/// Help text of the gauge of converted verifications.
pub const CONVERTED_VERIFICATIONS_HELP: &'static str = "Converted Verifications";

/// Name of the gauge of verifications that were not converted.
pub const FAILED_VERIFICATIONS: &'static str = "failed_verifications";

/// Help text of the gauge of verifications that were not converted.
pub const FAILED_VERIFICATIONS_HELP: &'static str = "Failed verifications";

/// Name of the constant label that every gauge carries.
pub const HANDLER_LABEL: &'static str = "handler";

/// Value of the constant label that every gauge carries.
pub const HANDLER_LABEL_VALUE: &'static str = "all";

/// Current values of the published gauges.
#[derive(Debug, Clone, Copy, PartialEq, Eq, Structural)]
pub struct Gauges {
    pub total_verifications: usize,
    pub converted_verifications: usize,
    pub failed_verifications: usize,
}

/// The gauges that a summary sets: attempts, converted, unconverted.
pub open spec fn gauges_of(s: AttemptSummary) -> Gauges {
    Gauges {
        total_verifications: s.total_attempts,
        converted_verifications: s.total_converted,
        failed_verifications: s.total_unconverted,
    }
}

impl Gauges {
    /// All gauges at zero, as they stand before the first successful scrape.
    pub fn new() -> (r: Gauges)
        ensures
            r.total_verifications == 0,
            r.converted_verifications == 0,
            r.failed_verifications == 0,
    {
        Gauges { total_verifications: 0, converted_verifications: 0, failed_verifications: 0 }
    }

    /// Overwrites all three gauges from `summary`.
    pub fn set_from(&mut self, summary: &AttemptSummary)
        ensures
            *final(self) == gauges_of(*summary),
    {
        self.total_verifications = summary.total_attempts;
        self.failed_verifications = summary.total_unconverted;
        self.converted_verifications = summary.total_converted;
    }
}

} // verus!
