//! Plain data of the system-metrics sample plugin. The sampling itself and
//! the floating-point presentation live at the host's edge; what belongs
//! here is the shape of the data and the integer arithmetic on it.

use vstd::prelude::*;

verus! {

/// One memory-like gauge: how much of a capacity is in use, in bytes.
pub struct MemoryMetrics {
    pub used: u64,
    pub total: u64,
}

impl MemoryMetrics {
    /// Usage as a whole percentage, rounded down. Callers hand in a gauge
    /// with a positive capacity that its usage does not exceed.
    pub fn percent_used(&self) -> (r: u64)
        requires
            self.total > 0,
            self.used <= self.total,
        ensures
            r == self.used as int * 100 / self.total as int,
            r <= 100,
    {
        let r = (self.used as u128 * 100 / self.total as u128) as u64;
        proof {
            assert(self.used as int * 100 / self.total as int <= 100) by (nonlinear_arith)
                requires
                    0 < self.total,
                    self.used <= self.total,
            ;
        }
        r
    }
}

/// One metrics report, every gauge already rendered to text: what the
/// sample plugin logs each cycle.
pub struct MetricsDataFormatted {
    pub cpu: String,
    pub memory: String,
    pub disk: String,
    pub network: String,
}

} // verus!
