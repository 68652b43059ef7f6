//! Sinks: where formatted wire lines are handed for delivery.
//!
//! A sink accepts one complete wire line per call and attempts to deliver it,
//! reporting how many bytes were accepted or a failure. Delivery is
//! send-and-forget: acceptance never means a remote daemon acknowledged
//! anything.
use vstd::prelude::*;

use std::io::Write;
use std::sync::Arc;
use vstd::rwlock::{RwLock, RwLockPredicate};
use vstd::string::StrSliceExecFns;
use vstd::string::StringSliceAdditionalSpecFns;
use vstd::utf8::valid_utf8;

use crate::buffer::LineBuffer;
use crate::types::{ErrorKind, MetricError, MetricResult};

verus! {

/// A sink accepts a complete wire line and attempts to deliver it.
///
/// Each implementation states what holds of an accepted byte count through
/// `emit_ok`, and of a reported failure through `emit_err`.
pub trait MetricSink: Sized {
    /// What holds when `emit` on this sink accepts `metric` with the given
    /// count; an implementation outside the library states nothing.
    open spec fn emit_ok(&self, metric: Seq<char>, accepted: usize) -> bool {
        true
    }

    /// What holds when `emit` on this sink fails on `metric` with the given
    /// error; an implementation outside the library states nothing.
    open spec fn emit_err(&self, metric: Seq<char>, err: MetricError) -> bool {
        true
    }

    /// Hands one wire line to the sink for delivery.
    fn emit(&self, metric: &str) -> (r: MetricResult<usize>)
        ensures
            match r {
                Ok(n) => self.emit_ok(metric@, n),
                Err(e) => self.emit_err(metric@, e),
            },
    ;
}

/// A sink that drops every line and always reports success; for disabling
/// metrics without changing call sites.
#[derive(Clone, Copy)]
pub struct NopMetricSink;

impl MetricSink for NopMetricSink {
    open spec fn emit_ok(&self, metric: Seq<char>, accepted: usize) -> bool {
        accepted == 0
    }

    /// A no-op never fails.
    open spec fn emit_err(&self, metric: Seq<char>, err: MetricError) -> bool {
        false
    }

    /// Accepts nothing and always succeeds.
    fn emit(&self, metric: &str) -> (r: MetricResult<usize>)
        ensures
            r matches Ok(n) && n == 0,
    {
        Ok(0)
    }
}

/// Relies on std's `Write::write_fmt` on standard output (through `writeln`):
/// prints the line followed by a newline, reporting any failure of the writer.
#[verifier::external_body]
fn write_stdout_line(line: &str) -> (r: Result<(), std::io::Error>) {
    let mut out = std::io::stdout();
    writeln!(out, "{}", line)
}

/// A sink that writes each line to standard output.
#[derive(Clone, Copy)]
pub struct ConsoleMetricSink;

impl MetricSink for ConsoleMetricSink {
    /// The accepted count is the line's length.
    open spec fn emit_ok(&self, metric: Seq<char>, accepted: usize) -> bool {
        accepted == metric.len()
    }

    /// A failure is the writer's, surfaced as an I/O error.
    open spec fn emit_err(&self, metric: Seq<char>, err: MetricError) -> bool {
        err.spec_kind() == ErrorKind::IoError
    }

    fn emit(&self, metric: &str) -> (r: MetricResult<usize>) {
        match write_stdout_line(metric) {
            Ok(_) => Ok(metric.unicode_len()),
            Err(e) => Err(MetricError::from(e)),
        }
    }
}

/// Some forwarded datagram made the inner sink report this failure.
pub open spec fn inner_failure<T: MetricSink>(inner: T, err: MetricError) -> bool {
    exists|d: Seq<char>| inner.emit_err(d, err)
}

/// The invariant of the lock around a buffered sink's line buffer.
pub struct BufferPred {
    pub cap: nat,
}

impl RwLockPredicate<LineBuffer> for BufferPred {
    open spec fn inv(self, b: LineBuffer) -> bool {
        b.wf() && b.cap() == self.cap
    }
}

/// Relies on std's `str::from_utf8`: gives the string whose UTF-8 encoding
/// the bytes are, exactly when they are a valid encoding.
#[verifier::external_body]
fn bytes_to_str<'a>(v: &'a Vec<u8>) -> (r: Option<&'a str>)
    ensures
        r is Some <==> valid_utf8(v@),
        r matches Some(s) ==> s.spec_bytes() == v@,
{
    std::str::from_utf8(v.as_slice()).ok()
}

/// A sink that accumulates lines in a bounded buffer and forwards whole
/// datagrams to an inner sink: on overflow, on an exact fill, on an oversize
/// line, and on an explicit flush. A line is never split across datagrams.
///
/// The buffer sits behind a lock, so one sink may be shared across threads;
/// an append and the flush it forces form one atomic step.
pub struct BufferedMetricSink<T: MetricSink> {
    buffer: RwLock<LineBuffer, BufferPred>,
    inner: T,
}

impl<T: MetricSink> BufferedMetricSink<T> {
    /// The sink the datagrams are forwarded to.
    pub closed spec fn spec_inner(&self) -> T {
        self.inner
    }

    /// The buffer capacity in bytes.
    pub closed spec fn cap(&self) -> nat {
        self.buffer.pred().cap
    }

    /// Wraps `sink`, buffering up to `capacity` bytes per datagram.
    pub fn from(sink: T, capacity: usize) -> (r: Self)
        ensures
            r.spec_inner() == sink,
            r.cap() == capacity as nat,
    {
        BufferedMetricSink {
            buffer: RwLock::new(
                LineBuffer::new(capacity),
                Ghost(BufferPred { cap: capacity as nat }),
            ),
            inner: sink,
        }
    }

    /// Forwards one datagram to the inner sink.
    fn send(&self, datagram: &Vec<u8>) -> (r: MetricResult<usize>)
        requires
            valid_utf8(datagram@),
        ensures
            r matches Err(e) ==> inner_failure(self.spec_inner(), e),
    {
        match bytes_to_str(datagram) {
            Some(s) => match self.inner.emit(s) {
                Ok(n) => Ok(n),
                Err(e) => {
                    proof {
                        assert(inner_failure(self.spec_inner(), e)) by {
                            assert(self.spec_inner().emit_err(s@, e));
                        }
                    }
                    Err(e)
                },
            },
            None => {
                proof {
                    assert(false);
                }
                Ok(0)
            },
        }
    }

    /// Sends the pending buffer content, if any, as one datagram. The buffer
    /// is left empty whether or not the transport reported a failure.
    pub fn flush(&self) -> (r: MetricResult<()>)
        ensures
            r matches Err(e) ==> inner_failure(self.spec_inner(), e),
    {
        let (mut buf, handle) = self.buffer.acquire_write();
        let out = buf.flush();
        handle.release_write(buf);
        match out {
            None => Ok(()),
            Some(d) => {
                match self.send(&d) {
                    Ok(_) => Ok(()),
                    Err(e) => Err(e),
                }
            },
        }
    }
}

impl<T: MetricSink> MetricSink for BufferedMetricSink<T> {
    /// The accepted count is the line's length; acceptance means the line
    /// was buffered or forwarded whole.
    open spec fn emit_ok(&self, metric: Seq<char>, accepted: usize) -> bool {
        accepted == metric.len()
    }

    /// A failure is the inner sink's, on some forwarded datagram; the line
    /// itself was still buffered, and the buffer cleared of what failed.
    open spec fn emit_err(&self, metric: Seq<char>, err: MetricError) -> bool {
        inner_failure(self.spec_inner(), err)
    }

    fn emit(&self, metric: &str) -> (r: MetricResult<usize>) {
        let n = metric.unicode_len();
        let bytes = metric.as_bytes_vec();
        proof {
            vstd::utf8::encode_utf8_valid_utf8(metric@);
        }
        if bytes.len() == 0 {
            return Ok(n);
        }
        let (mut buf, handle) = self.buffer.acquire_write();
        let out = buf.append(&bytes);
        handle.release_write(buf);
        let mut result: MetricResult<usize> = Ok(n);
        let mut i: usize = 0;
        while i < out.len()
            invariant
                forall|j: int| 0 <= j < out@.len() ==> valid_utf8(#[trigger] out@[j]@),
                match result {
                    Ok(n) => self.emit_ok(metric@, n),
                    Err(e) => self.emit_err(metric@, e),
                },
            decreases out@.len() - i,
        {
            match self.send(&out[i]) {
                Ok(_) => {},
                Err(e) => {
                    if result.is_ok() {
                        result = Err(e);
                    }
                },
            }
            i += 1;
        }
        result
    }
}

/// The worker pool type of the threadpool crate.
#[verifier::external_type_specification]
#[verifier::external_body]
pub struct ExThreadPool(threadpool::ThreadPool);

/// Relies on `threadpool::ThreadPool::new`, which panics when the thread
/// count is zero.
#[verifier::external_body]
fn pool_new(num_threads: usize) -> threadpool::ThreadPool
    requires
        1 <= num_threads,
{
    threadpool::ThreadPool::new(num_threads)
}

/// Relies on `threadpool::ThreadPool::execute`: hands the job to a worker
/// thread of the pool.
#[verifier::external_body]
fn pool_execute<F: FnOnce() + Send + 'static>(pool: &threadpool::ThreadPool, job: F)
    requires
        call_requires(job, ()),
{
    pool.execute(job)
}

/// Relies on `threadpool::ThreadPool::join`: waits until the jobs queued so
/// far have run.
#[verifier::external_body]
fn pool_join(pool: &threadpool::ThreadPool) {
    pool.join()
}

/// Relies on `num_cpus::get`: the number of logical processors, at least one.
#[verifier::external_body]
fn cpu_count() -> (n: usize)
    ensures
        1 <= n,
{
    num_cpus::get()
}

/// Relies on std's `Arc::clone`: a clone is another handle to the same value.
#[verifier::external_body]
fn arc_clone<T>(a: &Arc<T>) -> (r: Arc<T>)
    ensures
        r == *a,
{
    Arc::clone(a)
}

fn deliver<T: MetricSink>(sink: Arc<T>, line: String) {
    // Fire-and-forget: a worker has no error path back to the caller.
    let _ = (*sink).emit(line.as_str());
}

/// A sink that wraps another sink and moves delivery onto a fixed worker
/// pool: `emit` enqueues the line and returns at once with the line's
/// length, never blocking on the transport and never surfacing its failures.
/// The queue is unbounded: sustained overload grows memory rather than
/// applying backpressure. With more than one worker, lines may reach the
/// wrapped sink out of order.
pub struct AsyncMetricSink<T: MetricSink + Send + Sync + 'static> {
    sink: Arc<T>,
    pool: threadpool::ThreadPool,
}

impl<T: MetricSink + Send + Sync + 'static> AsyncMetricSink<T> {
    /// The wrapped sink, shared with the workers.
    pub closed spec fn spec_sink(&self) -> T {
        *self.sink
    }

    /// Wraps `sink` with one worker per available processor.
    pub fn from(sink: T) -> (r: Self)
        ensures
            r.spec_sink() == sink,
    {
        let threads = cpu_count();
        AsyncMetricSink { sink: Arc::new(sink), pool: pool_new(threads) }
    }

    /// Wraps `sink` with a pool of exactly `threads` workers; one worker
    /// makes the wrapped sink observe lines in enqueue order.
    pub fn with_threads(sink: T, threads: usize) -> (r: Self)
        requires
            1 <= threads,
        ensures
            r.spec_sink() == sink,
    {
        AsyncMetricSink { sink: Arc::new(sink), pool: pool_new(threads) }
    }

    /// Waits until every line enqueued so far has been handed to the wrapped
    /// sink; for a graceful shutdown.
    pub fn join(&self) {
        pool_join(&self.pool)
    }
}

impl<T: MetricSink + Send + Sync + 'static> MetricSink for AsyncMetricSink<T> {
    /// The accepted count is the line's length, whatever later becomes of
    /// the delivery.
    open spec fn emit_ok(&self, metric: Seq<char>, accepted: usize) -> bool {
        accepted == metric.len()
    }

    /// Enqueueing never fails: the caller never sees a transport error.
    open spec fn emit_err(&self, metric: Seq<char>, err: MetricError) -> bool {
        false
    }

    /// Always returns success, with the line's length, whatever later
    /// becomes of the delivery on the workers.
    fn emit(&self, metric: &str) -> (r: MetricResult<usize>)
        ensures
            r matches Ok(n) && n == metric@.len(),
    {
        let sink = arc_clone(&self.sink);
        let line = String::from_str(metric);
        pool_execute(&self.pool, move || deliver(sink, line));
        Ok(metric.unicode_len())
    }
}

} // verus!
