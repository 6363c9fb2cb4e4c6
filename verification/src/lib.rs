//! Verified core of a readiness-driven signal source for Linux.
//!
//! A process that runs an event loop can block a set of signals and consume
//! them through a pollable descriptor instead of asynchronous handlers.  This
//! crate verifies the decision logic of such a source: the one-way lifecycle
//! from a pre-registration handle to a live registration, the race between an
//! optional interrupt-override channel and the kernel signal-delivery
//! descriptor, the decoding of fixed-size kernel signal records, and the
//! teardown plan that releases each owned descriptor exactly once.
//!
//! The source is modelled as a state machine: [`source::step`] maps the
//! current era and an observed event (registration completed, a descriptor
//! became readable and a non-blocking read returned such-and-such) to the next
//! era and the action the surrounding event loop must take.  The executable
//! entry point [`source::Signals::next`] implements that transition; an
//! unverified shell performs the waits, reads and closes it prescribes.

use vstd::prelude::*;

pub mod laws;
pub mod records;
pub mod source;

verus! {

/// Identity of one OS signal: its number in the kernel's signal domain.
pub type Signal = u32;

} // verus!
