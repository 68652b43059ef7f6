//! Metric value types and their wire-line representation, plus the error
//! taxonomy of the library.
use vstd::prelude::*;

use crate::digits::{dec_digits, dec_int, i64_dec_str, u64_dec_str};

verus! {

/// The wire line `prefix.key:value<suffix>`.
pub open spec fn metric_line(
    prefix: Seq<char>,
    key: Seq<char>,
    value: Seq<char>,
    suffix: Seq<char>,
) -> Seq<char> {
    prefix + seq!['.'] + key + seq![':'] + value + suffix
}

/// The wire line of a counter: `prefix.key:count|c`.
pub open spec fn counter_line(prefix: Seq<char>, key: Seq<char>, count: int) -> Seq<char> {
    metric_line(prefix, key, dec_int(count), seq!['|', 'c'])
}

/// The wire line of a timer: `prefix.key:time|ms`.
pub open spec fn timer_line(prefix: Seq<char>, key: Seq<char>, time: nat) -> Seq<char> {
    metric_line(prefix, key, dec_digits(time), seq!['|', 'm', 's'])
}

/// The wire line of a gauge: `prefix.key:value|g`.
pub open spec fn gauge_line(prefix: Seq<char>, key: Seq<char>, value: nat) -> Seq<char> {
    metric_line(prefix, key, dec_digits(value), seq!['|', 'g'])
}

/// The wire line of a meter: `prefix.key:value|m`.
pub open spec fn meter_line(prefix: Seq<char>, key: Seq<char>, value: nat) -> Seq<char> {
    metric_line(prefix, key, dec_digits(value), seq!['|', 'm'])
}

fn format_metric(prefix: &str, key: &str, value: String, suffix: &'static str) -> (r: String)
    ensures
        r@ == metric_line(prefix@, key@, value@, suffix@),
{
    let mut s = String::from_str(prefix);
    s.append(".");
    s.append(key);
    s.append(":");
    s.append(value.as_str());
    s.append(suffix);
    proof {
        reveal_strlit(".");
        reveal_strlit(":");
        assert("."@ =~= seq!['.']);
        assert(":"@ =~= seq![':']);
        assert(s@ =~= metric_line(prefix@, key@, value@, suffix@));
    }
    s
}

/// Trait for metrics that expose their wire-line string representation.
pub trait AsMetricStr: View<V = Seq<char>> {
    fn as_metric_str(&self) -> (r: &str)
        ensures
            r@ == self@,
    ;
}

/// A counter: a value incremented or decremented by the client.
pub struct Counter {
    repr: String,
}

impl View for Counter {
    type V = Seq<char>;

    closed spec fn view(&self) -> Seq<char> {
        self.repr@
    }
}

impl Counter {
    /// Builds the wire line `prefix.key:count|c`.
    pub fn new(prefix: &str, key: &str, count: i64) -> (r: Counter)
        ensures
            r@ == counter_line(prefix@, key@, count as int),
    {
        let value = i64_dec_str(count);
        proof {
            reveal_strlit("|c");
            assert("|c"@ =~= seq!['|', 'c']);
        }
        Counter { repr: format_metric(prefix, key, value, "|c") }
    }
}

impl AsMetricStr for Counter {
    fn as_metric_str(&self) -> (r: &str) {
        self.repr.as_str()
    }
}

/// A timer: a non-negative number of milliseconds.
pub struct Timer {
    repr: String,
}

impl View for Timer {
    type V = Seq<char>;

    closed spec fn view(&self) -> Seq<char> {
        self.repr@
    }
}

impl Timer {
    /// Builds the wire line `prefix.key:time|ms`.
    pub fn new(prefix: &str, key: &str, time: u64) -> (r: Timer)
        ensures
            r@ == timer_line(prefix@, key@, time as nat),
    {
        let value = u64_dec_str(time);
        proof {
            reveal_strlit("|ms");
            assert("|ms"@ =~= seq!['|', 'm', 's']);
        }
        Timer { repr: format_metric(prefix, key, value, "|ms") }
    }
}

impl AsMetricStr for Timer {
    fn as_metric_str(&self) -> (r: &str) {
        self.repr.as_str()
    }
}

/// A gauge: a non-negative instantaneous value.
pub struct Gauge {
    repr: String,
}

impl View for Gauge {
    type V = Seq<char>;

    closed spec fn view(&self) -> Seq<char> {
        self.repr@
    }
}

impl Gauge {
    /// Builds the wire line `prefix.key:value|g`.
    pub fn new(prefix: &str, key: &str, value: u64) -> (r: Gauge)
        ensures
            r@ == gauge_line(prefix@, key@, value as nat),
    {
        let value = u64_dec_str(value);
        proof {
            reveal_strlit("|g");
            assert("|g"@ =~= seq!['|', 'g']);
        }
        Gauge { repr: format_metric(prefix, key, value, "|g") }
    }
}

impl AsMetricStr for Gauge {
    fn as_metric_str(&self) -> (r: &str) {
        self.repr.as_str()
    }
}

/// A meter: a non-negative rate-contributing value.
pub struct Meter {
    repr: String,
}

impl View for Meter {
    type V = Seq<char>;

    closed spec fn view(&self) -> Seq<char> {
        self.repr@
    }
}

impl Meter {
    /// Builds the wire line `prefix.key:value|m`.
    pub fn new(prefix: &str, key: &str, value: u64) -> (r: Meter)
        ensures
            r@ == meter_line(prefix@, key@, value as nat),
    {
        let value = u64_dec_str(value);
        proof {
            reveal_strlit("|m");
            assert("|m"@ =~= seq!['|', 'm']);
        }
        Meter { repr: format_metric(prefix, key, value, "|m") }
    }
}

impl AsMetricStr for Meter {
    fn as_metric_str(&self) -> (r: &str) {
        self.repr.as_str()
    }
}

/// Categories an error from this library falls into.
#[derive(PartialEq, Eq, Structural, Debug, Hash, Clone, Copy)]
pub enum ErrorKind {
    InvalidInput,
    IoError,
}

#[derive(Debug)]
enum ErrorRepr {
    WithDescription(ErrorKind, &'static str),
    Transport(std::io::Error),
}

/// The type of the transport errors this library wraps.
#[verifier::external_type_specification]
#[verifier::external_body]
pub struct ExIoError(std::io::Error);

/// Error generated by this library, possibly wrapping a transport error.
#[derive(Debug)]
pub struct MetricError {
    repr: ErrorRepr,
}

impl MetricError {
    /// Which category this error falls into.
    pub closed spec fn spec_kind(&self) -> ErrorKind {
        match self.repr {
            ErrorRepr::Transport(_) => ErrorKind::IoError,
            ErrorRepr::WithDescription(kind, _) => kind,
        }
    }

    /// Return the kind of the error.
    pub fn kind(&self) -> (r: ErrorKind)
        ensures
            r == self.spec_kind(),
    {
        match &self.repr {
            ErrorRepr::Transport(_) => ErrorKind::IoError,
            ErrorRepr::WithDescription(kind, _) => *kind,
        }
    }

    /// A short description of the error, for reporting.
    pub fn message(&self) -> (r: &'static str) {
        match &self.repr {
            ErrorRepr::Transport(_) => "transport error",
            ErrorRepr::WithDescription(_, desc) => desc,
        }
    }
}

impl From<std::io::Error> for MetricError {
    fn from(err: std::io::Error) -> (r: MetricError)
        ensures
            r.spec_kind() == ErrorKind::IoError,
    {
        MetricError { repr: ErrorRepr::Transport(err) }
    }
}

impl vstd::std_specs::convert::FromSpecImpl<std::io::Error> for MetricError {
    open spec fn obeys_from_spec() -> bool {
        true
    }

    closed spec fn from_spec(err: std::io::Error) -> MetricError {
        MetricError { repr: ErrorRepr::Transport(err) }
    }
}

impl From<(ErrorKind, &'static str)> for MetricError {
    fn from(pair: (ErrorKind, &'static str)) -> (r: MetricError)
        ensures
            r.spec_kind() == pair.0,
    {
        MetricError { repr: ErrorRepr::WithDescription(pair.0, pair.1) }
    }
}

impl vstd::std_specs::convert::FromSpecImpl<(ErrorKind, &'static str)> for MetricError {
    open spec fn obeys_from_spec() -> bool {
        true
    }

    closed spec fn from_spec(pair: (ErrorKind, &'static str)) -> MetricError {
        MetricError { repr: ErrorRepr::WithDescription(pair.0, pair.1) }
    }
}

pub type MetricResult<T> = Result<T, MetricError>;

} // verus!
