//! The client facade: turns typed metric values into wire lines and routes
//! them through a configured sink.
use vstd::prelude::*;

use crate::sinks::MetricSink;
use crate::types::{
    counter_line, gauge_line, meter_line, timer_line, AsMetricStr, Counter, ErrorKind, Gauge,
    Meter, MetricError, MetricResult, Timer,
};

verus! {

/// How a call on a sink relates to the line handed to it: an accepted count
/// or a failure, as the sink's own contract states them.
pub open spec fn emit_outcome<T: MetricSink>(
    sink: T,
    line: Seq<char>,
    r: MetricResult<usize>,
) -> bool {
    match r {
        Ok(n) => sink.emit_ok(line, n),
        Err(e) => sink.emit_err(line, e),
    }
}

/// Counters: incremented or decremented by arbitrary signed deltas.
pub trait Counted {
    fn incr(&self, key: &str) -> MetricResult<usize>;

    fn decr(&self, key: &str) -> MetricResult<usize>;

    fn count(&self, key: &str, count: i64) -> MetricResult<usize>;
}

/// Timers: non-negative durations in milliseconds.
pub trait Timed {
    fn time(&self, key: &str, time: u64) -> MetricResult<usize>;
}

/// Gauges: non-negative instantaneous values.
pub trait Gauged {
    fn gauge(&self, key: &str, value: u64) -> MetricResult<usize>;
}

/// Meters: non-negative rate-contributing values.
pub trait Metered {
    fn meter(&self, key: &str, value: u64) -> MetricResult<usize>;
}

/// Everything a metric client can record.
pub trait MetricClient: Counted + Timed + Gauged + Metered {
}

/// The client: owns a non-empty prefix and a sink, and per call composes the
/// wire line and hands it to the sink, surfacing the sink's result unchanged.
pub struct StatsdClient<T: MetricSink> {
    prefix: String,
    sink: T,
}

impl<T: MetricSink> StatsdClient<T> {
    /// The prefix every line starts with.
    pub closed spec fn spec_prefix(&self) -> Seq<char> {
        self.prefix@
    }

    /// The sink the lines go to.
    pub closed spec fn spec_sink(&self) -> T {
        self.sink
    }

    /// Makes a client from a prefix and a sink the client takes over. An
    /// empty prefix is invalid input: it would produce malformed wire lines.
    pub fn from_sink(prefix: &str, sink: T) -> (r: MetricResult<StatsdClient<T>>)
        ensures
            match r {
                Ok(c) => prefix@.len() > 0 && c.spec_prefix() == prefix@ && c.spec_sink() == sink,
                Err(e) => prefix@.len() == 0 && e.spec_kind() == ErrorKind::InvalidInput,
            },
    {
        if prefix.is_empty() {
            Err(MetricError::from((ErrorKind::InvalidInput, "prefix must not be empty")))
        } else {
            Ok(StatsdClient { prefix: String::from_str(prefix), sink })
        }
    }
}

impl<T: MetricSink> Counted for StatsdClient<T> {
    /// Counts one occurrence: emits `prefix.key:1|c`.
    fn incr(&self, key: &str) -> (r: MetricResult<usize>)
        ensures
            emit_outcome(self.spec_sink(), counter_line(self.spec_prefix(), key@, 1), r),
    {
        self.count(key, 1)
    }

    /// Removes one occurrence: emits `prefix.key:-1|c`.
    fn decr(&self, key: &str) -> (r: MetricResult<usize>)
        ensures
            emit_outcome(self.spec_sink(), counter_line(self.spec_prefix(), key@, -1), r),
    {
        self.count(key, -1)
    }

    /// Changes a counter by a signed delta: emits `prefix.key:count|c`.
    fn count(&self, key: &str, count: i64) -> (r: MetricResult<usize>)
        ensures
            emit_outcome(self.spec_sink(), counter_line(self.spec_prefix(), key@, count as int), r),
    {
        let metric = Counter::new(self.prefix.as_str(), key, count);
        self.sink.emit(metric.as_metric_str())
    }
}

impl<T: MetricSink> Timed for StatsdClient<T> {
    /// Records a duration: emits `prefix.key:time|ms`.
    fn time(&self, key: &str, time: u64) -> (r: MetricResult<usize>)
        ensures
            emit_outcome(self.spec_sink(), timer_line(self.spec_prefix(), key@, time as nat), r),
    {
        let metric = Timer::new(self.prefix.as_str(), key, time);
        self.sink.emit(metric.as_metric_str())
    }
}

impl<T: MetricSink> Gauged for StatsdClient<T> {
    /// Records an instantaneous value: emits `prefix.key:value|g`.
    fn gauge(&self, key: &str, value: u64) -> (r: MetricResult<usize>)
        ensures
            emit_outcome(self.spec_sink(), gauge_line(self.spec_prefix(), key@, value as nat), r),
    {
        let metric = Gauge::new(self.prefix.as_str(), key, value);
        self.sink.emit(metric.as_metric_str())
    }
}

impl<T: MetricSink> Metered for StatsdClient<T> {
    /// Records a rate-contributing value: emits `prefix.key:value|m`.
    fn meter(&self, key: &str, value: u64) -> (r: MetricResult<usize>)
        ensures
            emit_outcome(self.spec_sink(), meter_line(self.spec_prefix(), key@, value as nat), r),
    {
        let metric = Meter::new(self.prefix.as_str(), key, value);
        self.sink.emit(metric.as_metric_str())
    }
}

impl<T: MetricSink> MetricClient for StatsdClient<T> {
}

} // verus!
