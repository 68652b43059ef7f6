use cadence::{AsMetricStr, Counter, ErrorKind, Gauge, Meter, MetricError, Timer};

#[test]
fn test_counter_to_metric_string() {
    let counter = Counter::new("my.app", "test.counter", 4);
    assert_eq!("my.app.test.counter:4|c", counter.as_metric_str());
}

#[test]
fn test_timer_to_metric_string() {
    let timer = Timer::new("my.app", "test.timer", 34);
    assert_eq!("my.app.test.timer:34|ms", timer.as_metric_str());
}

#[test]
fn test_gauge_to_metric_string() {
    let gauge = Gauge::new("my.app", "test.gauge", 2);
    assert_eq!("my.app.test.gauge:2|g", gauge.as_metric_str());
}

#[test]
fn test_meter_to_metric_string() {
    let meter = Meter::new("my.app", "test.meter", 5);
    assert_eq!("my.app.test.meter:5|m", meter.as_metric_str());
}

#[test]
fn test_counter_negative_value() {
    let counter = Counter::new("my.app", "errors", -3);
    assert_eq!("my.app.errors:-3|c", counter.as_metric_str());
}

#[test]
fn test_counter_zero_and_large_values() {
    let zero = Counter::new("p", "k", 0);
    assert_eq!("p.k:0|c", zero.as_metric_str());
    let min = Counter::new("p", "k", i64::MIN);
    assert_eq!("p.k:-9223372036854775808|c", min.as_metric_str());
    let max = Timer::new("p", "k", u64::MAX);
    assert_eq!("p.k:18446744073709551615|ms", max.as_metric_str());
}

#[test]
fn test_error_kind_io() {
    let io = std::io::Error::new(std::io::ErrorKind::Other, "boom");
    let err = MetricError::from(io);
    assert_eq!(ErrorKind::IoError, err.kind());
}

#[test]
fn test_error_kind_invalid_input() {
    let err = MetricError::from((ErrorKind::InvalidInput, "bad argument"));
    assert_eq!(ErrorKind::InvalidInput, err.kind());
    assert_eq!("bad argument", err.message());
}
