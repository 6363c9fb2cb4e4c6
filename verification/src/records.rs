//! Decoding of the fixed-size records the kernel writes on a signal-delivery
//! descriptor, and classification of the outcomes of the non-blocking reads
//! that fetch them.

use vstd::prelude::*;

use crate::Signal;

verus! {

/// Size in bytes of one kernel signal record.  The Linux ABI fixes the record
/// written by a signal-delivery descriptor at 128 bytes; the kernel writes
/// whole records only, so any other byte count indicates an ABI mismatch.
pub const SIGINFO_RECORD_LEN: usize = 128;

/// The errno a non-blocking read returns when no data is currently available
/// (`EAGAIN` on Linux's primary architectures).  Such a read is not a failure:
/// readiness was a false positive and the wait must be retried.
pub const EAGAIN: i32 = 11;

/// Errors a signal source can report to its caller.
#[derive(Debug, Clone, Copy, PartialEq, Eq)]
pub enum SigError {
    /// A read on the signal-delivery descriptor returned a byte count other
    /// than one whole kernel record.
    InvalidData,
    /// Some other OS-level failure, carrying the errno the OS reported.
    Os(i32),
}

/// What a non-blocking read on a watched descriptor returned.
pub enum ReadOutcome {
    /// The read succeeded; the buffer holds exactly the bytes read.
    Data(Vec<u8>),
    /// The read failed with this errno (`EAGAIN` meaning would-block).
    Failed(i32),
}

/// What one read attempt on the signal-delivery descriptor decides.
#[derive(Debug, Clone, Copy, PartialEq, Eq)]
pub enum DecodeStep {
    /// A whole record arrived; this is the signal it describes.
    Deliver(Signal),
    /// The read would have blocked: clear the readiness flag and wait again.
    ClearAndRetry,
    /// A definitive failure to report to the caller.
    Fail(SigError),
}

/// The signal-number field of a kernel signal record: the record's first four
/// bytes, least significant first.
pub open spec fn signo_of_record(r: Seq<u8>) -> Signal {
    (r[0] + r[1] * 0x100 + r[2] * 0x10000 + r[3] * 0x1000000) as Signal
}

/// What decoding one read outcome from the signal-delivery descriptor must
/// yield: a whole record delivers its signal number, a short or long read is
/// malformed data, a would-block read is retried, and any other errno is a
/// hard failure.
pub open spec fn decode_spec(outcome: ReadOutcome) -> DecodeStep {
    match outcome {
        ReadOutcome::Data(buf) => {
            if buf@.len() == SIGINFO_RECORD_LEN {
                DecodeStep::Deliver(signo_of_record(buf@))
            } else {
                DecodeStep::Fail(SigError::InvalidData)
            }
        },
        ReadOutcome::Failed(code) => {
            if code == EAGAIN {
                DecodeStep::ClearAndRetry
            } else {
                DecodeStep::Fail(SigError::Os(code))
            }
        },
    }
}

/// Extract the signal-number field from a whole kernel record.
pub fn record_signo(buf: &Vec<u8>) -> (s: Signal)
    requires
        buf@.len() >= 4,
    ensures
        s == signo_of_record(buf@),
{
    let b0 = buf[0] as u32;
    let b1 = buf[1] as u32;
    let b2 = buf[2] as u32;
    let b3 = buf[3] as u32;
    b0 + b1 * 0x100 + b2 * 0x10000 + b3 * 0x1000000
}

/// Decode the outcome of one non-blocking read on the signal-delivery
/// descriptor.
pub fn decode_read(outcome: ReadOutcome) -> (d: DecodeStep)
    ensures
        d == decode_spec(outcome),
{
    match outcome {
        ReadOutcome::Data(buf) => {
            if buf.len() == SIGINFO_RECORD_LEN {
                DecodeStep::Deliver(record_signo(&buf))
            } else {
                DecodeStep::Fail(SigError::InvalidData)
            }
        },
        ReadOutcome::Failed(code) => {
            if code == EAGAIN {
                DecodeStep::ClearAndRetry
            } else {
                DecodeStep::Fail(SigError::Os(code))
            }
        },
    }
}

} // verus!
