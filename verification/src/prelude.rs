//! One import for the traits a caller of the client needs.
pub use crate::client::{Counted, Gauged, Metered, MetricClient, Timed};
pub use crate::sinks::MetricSink;
pub use crate::types::AsMetricStr;
