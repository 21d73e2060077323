//! Named measurements that a process reports.

use vstd::prelude::*;
use crate::histogram::{Histogram, TimeUnit};

verus! {

/// One measurement. A histogram travels with the unit of its samples, so
/// that a reader can rescale them.
#[derive(Debug, Clone, PartialEq)]
pub enum Metric {
    Gauge(i64),
    Counter(u64),
    Histogram(TimeUnit, Histogram),
}

} // verus!
