use std::sync::{Arc, Mutex};

use cadence::{
    AsyncMetricSink, BufferedMetricSink, ErrorKind, MetricError, MetricResult, MetricSink,
    NopMetricSink,
};

/// A sink that records every line it is handed, for observing deliveries.
#[derive(Clone)]
struct RecordingSink {
    lines: Arc<Mutex<Vec<String>>>,
}

impl RecordingSink {
    fn new() -> RecordingSink {
        RecordingSink { lines: Arc::new(Mutex::new(Vec::new())) }
    }

    fn recorded(&self) -> Vec<String> {
        self.lines.lock().unwrap().clone()
    }
}

impl MetricSink for RecordingSink {
    fn emit(&self, metric: &str) -> MetricResult<usize> {
        self.lines.lock().unwrap().push(metric.to_string());
        Ok(metric.len())
    }
}

/// A sink whose delivery always fails.
struct FailingSink;

impl MetricSink for FailingSink {
    fn emit(&self, _metric: &str) -> MetricResult<usize> {
        Err(MetricError::from((ErrorKind::IoError, "transport down")))
    }
}

#[test]
fn test_nop_sink_accepts_nothing() {
    let sink = NopMetricSink;
    assert_eq!(0, sink.emit("a.b:1|c").unwrap());
}

#[test]
fn test_buffered_sink_forwards_whole_datagrams() {
    let recorder = RecordingSink::new();
    let sink = BufferedMetricSink::from(recorder.clone(), 16);
    assert_eq!(7, sink.emit("a.b:1|c").unwrap());
    assert_eq!(7, sink.emit("a.b:2|c").unwrap());
    // 15 bytes pending; the next line does not fit behind them.
    assert_eq!(7, sink.emit("a.b:3|c").unwrap());
    assert_eq!(vec!["a.b:1|c\na.b:2|c".to_string()], recorder.recorded());
    sink.flush().unwrap();
    assert_eq!(
        vec!["a.b:1|c\na.b:2|c".to_string(), "a.b:3|c".to_string()],
        recorder.recorded()
    );
}

#[test]
fn test_buffered_sink_flush_empty_sends_nothing() {
    let recorder = RecordingSink::new();
    let sink = BufferedMetricSink::from(recorder.clone(), 32);
    sink.flush().unwrap();
    assert!(recorder.recorded().is_empty());
}

#[test]
fn test_buffered_sink_surfaces_inner_error() {
    let sink = BufferedMetricSink::from(FailingSink, 4);
    // An oversize line is forwarded at once, so the failure surfaces now.
    let err = sink.emit("a.b:1|c").unwrap_err();
    assert_eq!(ErrorKind::IoError, err.kind());
}

#[test]
fn test_async_sink_accepts_even_when_inner_fails() {
    let sink = AsyncMetricSink::with_threads(FailingSink, 1);
    let accepted = sink.emit("a.b:1|c");
    assert_eq!(7, accepted.unwrap());
    sink.join();
}

#[test]
fn test_async_sink_accepted_count_is_line_length() {
    let recorder = RecordingSink::new();
    let sink = AsyncMetricSink::from(recorder.clone());
    assert_eq!(11, sink.emit("a.b:12345|c").unwrap());
    sink.join();
    assert_eq!(vec!["a.b:12345|c".to_string()], recorder.recorded());
}

#[test]
fn test_async_sink_single_worker_preserves_order() {
    let recorder = RecordingSink::new();
    let sink = AsyncMetricSink::with_threads(recorder.clone(), 1);
    sink.emit("a.b:1|c").unwrap();
    sink.emit("a.b:2|c").unwrap();
    sink.emit("a.b:3|c").unwrap();
    sink.join();
    assert_eq!(
        vec!["a.b:1|c".to_string(), "a.b:2|c".to_string(), "a.b:3|c".to_string()],
        recorder.recorded()
    );
}

#[test]
fn test_console_sink_accepted_count() {
    let sink = cadence::ConsoleMetricSink;
    assert_eq!(7, sink.emit("a.b:1|c").unwrap());
}
