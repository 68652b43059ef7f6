use vstd::prelude::*;

pub mod prelude;

pub mod digits;
pub mod types;
pub mod buffer;
pub mod sinks;
pub mod client;

pub use crate::client::{Counted, Gauged, Metered, MetricClient, StatsdClient, Timed};
pub use crate::sinks::{
    AsyncMetricSink, BufferedMetricSink, ConsoleMetricSink, MetricSink, NopMetricSink,
};
pub use crate::types::{
    AsMetricStr, Counter, ErrorKind, Gauge, Meter, MetricError, MetricResult, Timer,
};

verus! {

/// Default port that a statsd daemon listens on.
pub const DEFAULT_PORT: u16 = 8125;

} // verus!
