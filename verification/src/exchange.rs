//! The exchange engine: one write-then-read-until-framed request/response
//! over an unreliable, partially-buffered transport, under a deadline.
//!
//! The engine appends the frame terminator to the outbound command, writes
//! and flushes it, then accumulates inbound text until the terminator
//! sequence appears or the deadline expires. A read attempt has three
//! outcomes that are kept apart: data arrived (progress), the transport
//! reported no bytes available right now (keep waiting), or a genuine I/O
//! fault (abort).

use vstd::prelude::*;
use vstd::string::StrSliceExecFns;
use vstd::string::StringExecFns;

verus! {

/// The two-character frame terminator: carriage return, line feed.
pub open spec fn crlf_chars() -> Seq<char> {
    seq!['\r', '\n']
}

/// Whether the terminator sequence occurs somewhere in `s`.
pub open spec fn has_crlf(s: Seq<char>) -> bool {
    exists|i: int| 0 <= i && i + 1 < s.len() && #[trigger] s[i] == '\r' && s[i + 1] == '\n'
}

/// Scans the accumulated response text for the frame terminator.
pub fn contains_crlf(s: &str) -> (r: bool)
    ensures
        r == has_crlf(s@),
{
    let n: usize = s.unicode_len();
    if n < 2 {
        return false;
    }
    let mut i: usize = 0;
    while i + 1 < n
        invariant
            n == s@.len(),
            i + 1 <= n,
            forall|j: int| 0 <= j < i ==> !(#[trigger] s@[j] == '\r' && s@[j + 1] == '\n'),
        decreases n - i,
    {
        if s.get_char(i) == '\r' && s.get_char(i + 1) == '\n' {
            return true;
        }
        i = i + 1;
    }
    false
}

/// Appends the frame terminator to one wire command, forming the outbound
/// frame.
pub fn build_frame(wire: &str) -> (frame: String)
    ensures
        frame@ == wire@ + crlf_chars(),
{
    let frame = String::from_str(wire).concat("\r\n");
    proof {
        reveal_strlit("\r\n");
        assert(frame@ =~= wire@ + crlf_chars());
    }
    frame
}

/// One failed exchange, by the step that failed. `Timeout` is the only
/// kind under which the outbound write is known to have succeeded and the
/// response simply never framed in time.
#[derive(Clone, Copy, Debug, PartialEq, Eq, Structural)]
pub enum ExchangeError {
    WriteFailed,
    FlushFailed,
    ReadFailed,
    Timeout,
}

/// The three outcomes of one bounded read attempt: some text arrived
/// (possibly empty), the transport reported no bytes available within its
/// own short per-read timeout, or a genuine I/O fault occurred.
pub enum ReadOutcome {
    Data(String),
    TimedOut,
    Fault,
}

/// An open duplex channel, as the exchange engine sees it. The caller
/// supplies the implementation: a serial port adapter in production, a
/// scripted stub in tests. Nothing is assumed of the methods' results;
/// the engine states what holds whatever they return.
pub trait Transport {
    /// Writes the whole outbound frame, or reports a write fault.
    fn write_frame(&mut self, frame: &str) -> (r: Result<(), ()>);

    /// Forces any internal buffering out to the wire.
    fn flush(&mut self) -> (r: Result<(), ()>);

    /// One bounded read attempt.
    fn read_chunk(&mut self) -> (r: ReadOutcome);
}

/// Applies one read outcome to the response buffer, keeping the three
/// cases apart: arrived text is appended (even when empty), a transport
/// "no data yet" leaves the buffer unchanged and the wait goes on, and
/// only a genuine fault is reported as one.
pub fn absorb_outcome(buffer: &mut String, outcome: ReadOutcome) -> (fault: bool)
    ensures
        match outcome {
            ReadOutcome::Data(chunk) => !fault && final(buffer)@ == old(buffer)@ + chunk@,
            ReadOutcome::TimedOut => !fault && final(buffer)@ == old(buffer)@,
            ReadOutcome::Fault => fault && final(buffer)@ == old(buffer)@,
        },
{
    match outcome {
        ReadOutcome::Data(chunk) => {
            buffer.append(chunk.as_str());
            false
        },
        ReadOutcome::TimedOut => false,
        ReadOutcome::Fault => true,
    }
}

#[verifier::external_type_specification]
#[verifier::external_body]
pub struct ExInstant(std::time::Instant);

/// Relies on std::time::Instant::now: an opaque reading of the monotonic
/// clock. Nothing is assumed of its value.
#[verifier::external_body]
fn instant_now() -> (t: std::time::Instant) {
    std::time::Instant::now()
}

/// Relies on std::time::Instant::elapsed: the time since `start`,
/// saturating at zero, never panicking. Nothing is assumed of its value.
#[verifier::external_body]
fn instant_elapsed(start: &std::time::Instant) -> (d: core::time::Duration) {
    start.elapsed()
}

/// Relies on core::time::Duration::as_millis: the duration as a count of
/// whole milliseconds. Nothing is assumed of its value.
#[verifier::external_body]
fn duration_as_millis(d: &core::time::Duration) -> (ms: u128) {
    d.as_millis()
}

/// Whole milliseconds since `start`, saturated to `u64`.
fn elapsed_millis(start: &std::time::Instant) -> (ms: u64) {
    let d = instant_elapsed(start);
    let wide: u128 = duration_as_millis(&d);
    if wide > u64::MAX as u128 {
        u64::MAX
    } else {
        wide as u64
    }
}

/// Performs one request/response exchange: frames and writes `wire`, then
/// accumulates inbound text until the terminator sequence appears or
/// `timeout_ms` elapses.
///
/// Any returned response contains the frame terminator; everything read
/// up to and around it is returned unaltered. A write fault aborts with
/// `WriteFailed` before any read is attempted, a flush fault with
/// `FlushFailed`; during the read loop a fault aborts with `ReadFailed`,
/// while a transport-level "no data yet" merely keeps the loop waiting
/// until the deadline, which aborts with `Timeout`.
pub fn exchange<T: Transport>(transport: &mut T, wire: &str, timeout_ms: u64) -> (r: Result<
    String,
    ExchangeError,
>)
    ensures
        r matches Ok(resp) ==> has_crlf(resp@),
{
    let frame = build_frame(wire);
    if transport.write_frame(frame.as_str()).is_err() {
        return Err(ExchangeError::WriteFailed);
    }
    if transport.flush().is_err() {
        return Err(ExchangeError::FlushFailed);
    }
    let start = instant_now();
    let mut buffer = String::new();
    // The attempt bound only makes termination checkable; on any real
    // transport the clock deadline fires first.
    let mut attempts_left: u64 = u64::MAX;
    loop
        ensures
            has_crlf(buffer@),
        decreases attempts_left,
    {
        if contains_crlf(buffer.as_str()) {
            break;
        }
        if attempts_left == 0 || elapsed_millis(&start) >= timeout_ms {
            return Err(ExchangeError::Timeout);
        }
        attempts_left = attempts_left - 1;
        let outcome = transport.read_chunk();
        if absorb_outcome(&mut buffer, outcome) {
            return Err(ExchangeError::ReadFailed);
        }
    }
    Ok(buffer)
}

} // verus!
