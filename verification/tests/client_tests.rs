use std::sync::{Arc, Mutex};

use cadence::prelude::{Counted, Gauged, Metered, MetricSink, Timed};
use cadence::{ErrorKind, MetricResult, NopMetricSink, StatsdClient};

#[derive(Clone)]
struct CapturingSink {
    lines: Arc<Mutex<Vec<String>>>,
}

impl CapturingSink {
    fn new() -> CapturingSink {
        CapturingSink { lines: Arc::new(Mutex::new(Vec::new())) }
    }

    fn recorded(&self) -> Vec<String> {
        self.lines.lock().unwrap().clone()
    }
}

impl MetricSink for CapturingSink {
    fn emit(&self, metric: &str) -> MetricResult<usize> {
        self.lines.lock().unwrap().push(metric.to_string());
        Ok(metric.len())
    }
}

#[test]
fn test_client_end_to_end_wire_lines() {
    let sink = CapturingSink::new();
    let client = StatsdClient::from_sink("my.app", sink.clone()).unwrap();
    client.incr("hits").unwrap();
    client.count("errors", -3).unwrap();
    client.time("req.latency", 42).unwrap();
    client.gauge("queue.depth", 7).unwrap();
    client.meter("rate", 5).unwrap();
    client.decr("hits").unwrap();
    assert_eq!(
        vec![
            "my.app.hits:1|c".to_string(),
            "my.app.errors:-3|c".to_string(),
            "my.app.req.latency:42|ms".to_string(),
            "my.app.queue.depth:7|g".to_string(),
            "my.app.rate:5|m".to_string(),
            "my.app.hits:-1|c".to_string(),
        ],
        sink.recorded()
    );
}

#[test]
fn test_client_empty_prefix_is_invalid_input() {
    let r = StatsdClient::from_sink("", NopMetricSink);
    match r {
        Ok(_) => panic!("an empty prefix must be rejected"),
        Err(e) => assert_eq!(ErrorKind::InvalidInput, e.kind()),
    }
}

#[test]
fn test_client_surfaces_sink_result() {
    let client = StatsdClient::from_sink("my.app", NopMetricSink).unwrap();
    assert_eq!(0, client.incr("hits").unwrap());
}
