//! Push-based metrics interface.

use vstd::prelude::*;

use crate::num::Binary64;

verus! {

/// Where the framework sends its counters, gauges and histograms.
///
/// Hosts implement this for the metrics system of their choice. Nothing is
/// expected of an implementation but that it returns.
pub trait MetricsSink: Send + Sync + 'static {
    /// Increment a counter by `value`.
    fn counter(&self, name: &str, labels: &[(&str, &str)], value: u64);

    /// Record a gauge value.
    fn gauge(&self, name: &str, labels: &[(&str, &str)], value: Binary64);

    /// Observe a histogram sample.
    fn histogram(&self, name: &str, labels: &[(&str, &str)], value: Binary64);

    /// Increment by 1 with no labels.
    fn inc(&self, name: &str) {
        self.counter(name, &[], 1);
    }
}

/// A sink that discards everything.
#[derive(Clone, Copy, Debug, Default)]
pub struct NoopSink;

impl MetricsSink for NoopSink {
    fn counter(&self, name: &str, labels: &[(&str, &str)], value: u64) {
    }

    fn gauge(&self, name: &str, labels: &[(&str, &str)], value: Binary64) {
    }

    fn histogram(&self, name: &str, labels: &[(&str, &str)], value: Binary64) {
    }
}

} // verus!
