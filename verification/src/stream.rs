//! Classification of radio stream errors.
//!
//! The radio driver reports stream errors by a code.  The core only
//! decides whether the pipeline may keep running: a momentary stream
//! hiccup drops the current block and continues, anything else stops
//! the pipeline.

use vstd::prelude::*;

verus! {

/// The error classes a radio stream read or write can report.
#[derive(Clone, Copy, PartialEq, Eq, Structural, Debug)]
pub enum StreamErrorKind {
    /// A read timed out.
    Timeout,
    /// Non-specific stream error.
    StreamError,
    /// A read saw data corruption, such as a malformed packet.
    Corruption,
    /// A read overflowed an internal buffer.
    Overflow,
    /// A requested operation or flag is not supported.
    NotSupported,
    /// The device saw a stream time that was late or too early.
    TimeError,
    /// A write interrupted a continuous stream.
    Underflow,
    /// Error without a specific code.
    Other,
}

/// The error classes that a momentary scheduling latency or a lost
/// packet can cause: the radio may recover from these, so the current
/// block is dropped and the stream read continues on the next call.
pub open spec fn spec_recoverable(kind: StreamErrorKind) -> bool {
    match kind {
        StreamErrorKind::Timeout => true,
        StreamErrorKind::Corruption => true,
        StreamErrorKind::Overflow => true,
        StreamErrorKind::TimeError => true,
        StreamErrorKind::Underflow => true,
        _ => false,
    }
}

/// Decide whether the pipeline continues after a stream error: true
/// exactly for the momentary error classes (timeout, corruption,
/// overflow, time error, underflow).  Other codes may signal a
/// disconnected or broken device, so the pipeline stops.
pub fn error_is_recoverable(kind: StreamErrorKind) -> (r: bool)
    ensures
        r == spec_recoverable(kind),
{
    match kind {
        StreamErrorKind::Timeout => true,
        StreamErrorKind::Corruption => true,
        StreamErrorKind::Overflow => true,
        StreamErrorKind::TimeError => true,
        StreamErrorKind::Underflow => true,
        _ => false,
    }
}

} // verus!
