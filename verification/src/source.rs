//! The asynchronous signal source: its two-era lifecycle, the readiness race
//! over the signal-delivery descriptor and the optional interrupt-override
//! descriptor, and the teardown plan.
//!
//! The source itself never performs a wait, a read or a close: those belong to
//! the unverified event loop around it.  Instead the loop reports each
//! observation as an [`Event`] to [`Signals::next`], which advances the
//! lifecycle and answers with the [`Action`] to take next.  The pure
//! transition is the spec function [`step`]; `next` is proved to implement it.

use vstd::prelude::*;

use crate::Signal;
use crate::records::{DecodeStep, ReadOutcome, SigError, decode_read, decode_spec};

verus! {

/// The pre-registration handle: raw descriptors created and signals blocked,
/// but nothing registered for readiness polling yet.  A negative
/// `sigint_efd` means the watch set carries no interrupt override.
pub struct PreInitHandle {
    /// Raw signal-delivery descriptor.
    pub sigfd: i32,
    /// Raw interrupt-override descriptor, or any negative value for "none".
    pub sigint_efd: i32,
}

/// The two eras of a source's life: before and after its descriptors are
/// registered with the caller's reactor.  The transition is one-way.
pub enum Era {
    /// Construction has blocked the signals and produced raw descriptors,
    /// but no reactor knows them yet.
    PreInit { handle: PreInitHandle },
    /// The descriptors are registered for readiness polling.
    Active { sigfd: i32, sigint_efd: Option<i32> },
}

/// A source is well formed when its descriptors are real (non-negative) and
/// the override descriptor, where present, is distinct from the delivery
/// descriptor.
pub open spec fn era_wf(e: Era) -> bool {
    match e {
        Era::PreInit { handle } => {
            &&& handle.sigfd >= 0
            &&& handle.sigint_efd >= 0 ==> handle.sigint_efd != handle.sigfd
        },
        Era::Active { sigfd, sigint_efd } => {
            &&& sigfd >= 0
            &&& sigint_efd matches Some(fd) ==> fd >= 0 && fd != sigfd
        },
    }
}

/// The one-way lifecycle transition: registration turns the pre-registration
/// handle into a live registration over the same descriptors.  An already
/// active source is left as it is.
pub open spec fn activate(e: Era) -> Era {
    match e {
        Era::PreInit { handle } => (Era::Active {
            sigfd: handle.sigfd,
            sigint_efd: if handle.sigint_efd >= 0 {
                Some(handle.sigint_efd)
            } else {
                None
            },
        }),
        Era::Active { sigfd, sigint_efd } => (Era::Active { sigfd, sigint_efd }),
    }
}

/// The descriptors a source owns, each exactly once, in either era: the
/// delivery descriptor, then the override descriptor where present.  These
/// are what teardown must close.
pub open spec fn owned_fds(e: Era) -> Seq<i32> {
    match e {
        Era::PreInit { handle } => {
            if handle.sigint_efd >= 0 {
                seq![handle.sigfd, handle.sigint_efd]
            } else {
                seq![handle.sigfd]
            }
        },
        Era::Active { sigfd, sigint_efd } => {
            match sigint_efd {
                Some(fd) => seq![sigfd, fd],
                None => seq![sigfd],
            }
        },
    }
}

/// Signal number of the hangup signal (Linux).
pub const SIGHUP: Signal = 1;

/// Signal number of the keyboard-interrupt signal (Linux).  A watch set that
/// contains it is also given the interrupt-override descriptor, so that
/// another subsystem can inject a synthetic interrupt through the same source.
pub const SIGINT: Signal = 2;

/// Signal number of the keyboard-quit signal (Linux).
pub const SIGQUIT: Signal = 3;

/// Signal number of the first user-defined signal (Linux).
pub const SIGUSR1: Signal = 10;

/// Signal number of the second user-defined signal (Linux).
pub const SIGUSR2: Signal = 12;

/// Signal number of the termination-request signal (Linux).
pub const SIGTERM: Signal = 15;

/// Signal number of the child-stopped-or-exited signal (Linux).
pub const SIGCHLD: Signal = 17;

/// Signal number of the window-resize signal (Linux).
pub const SIGWINCH: Signal = 28;

/// One of the two pollable sources a live registration races.
#[derive(Debug, Clone, Copy, PartialEq, Eq)]
pub enum RaceSource {
    /// The kernel signal-delivery descriptor.
    Delivery,
    /// The interrupt-override descriptor.
    Override,
}

/// What the surrounding event loop observed and reports to the source.
pub enum Event {
    /// A call for the next signal begins.
    Begin,
    /// Both raw descriptors were registered with the reactor.
    Registered,
    /// Registering with the reactor failed with this errno.
    RegisterFailed(i32),
    /// A readiness wait itself failed with this errno.
    WaitFailed(i32),
    /// The signal-delivery descriptor became readable; this is what the
    /// non-blocking whole-record read returned.
    SignalReady(ReadOutcome),
    /// The interrupt-override descriptor became readable; this is what the
    /// non-blocking read of one event unit returned.
    OverrideReady(ReadOutcome),
}

/// What the surrounding event loop must do next.
#[derive(Debug, Clone, Copy, PartialEq, Eq)]
pub enum Action {
    /// Register these raw descriptors with the reactor, then report
    /// `Registered` or `RegisterFailed`.  A negative `sigint_efd` means there
    /// is no override descriptor to register.
    Register { sigfd: i32, sigint_efd: i32 },
    /// Wait until a watched descriptor is readable, read it without blocking,
    /// and report the matching `SignalReady` or `OverrideReady`.
    AwaitReadiness,
    /// The readiness was a false positive: clear this source's readiness flag
    /// and wait again.
    ClearAndAwait(RaceSource),
    /// Hand this signal to the caller.
    Deliver(Signal),
    /// Report this failure to the caller.
    Fail(SigError),
}

/// Which events a source in era `e` can observe.  Registration outcomes only
/// reach a pre-registration source; readiness and wait outcomes only reach a
/// live one, and only a source watching an override descriptor can see it
/// become readable.
pub open spec fn event_allowed(e: Era, ev: Event) -> bool {
    match ev {
        Event::Begin => true,
        Event::Registered => e is PreInit,
        Event::RegisterFailed(_) => e is PreInit,
        Event::WaitFailed(_) => e is Active,
        Event::SignalReady(_) => e is Active,
        Event::OverrideReady(_) => e is Active && e->Active_sigint_efd is Some,
    }
}

/// What servicing a readiness event on the interrupt-override descriptor
/// yields: any successful read of the pending event unit synthesizes the
/// interrupt signal's identity, a would-block read clears readiness and
/// continues the race, and any other errno is a hard failure.
pub open spec fn override_action(outcome: ReadOutcome) -> Action {
    match outcome {
        ReadOutcome::Data(_) => Action::Deliver(SIGINT),
        ReadOutcome::Failed(code) => {
            if code == crate::records::EAGAIN {
                Action::ClearAndAwait(RaceSource::Override)
            } else {
                Action::Fail(SigError::Os(code))
            }
        },
    }
}

/// What servicing a readiness event on the signal-delivery descriptor yields,
/// as the decoder decides it.
pub open spec fn delivery_action(outcome: ReadOutcome) -> Action {
    match decode_spec(outcome) {
        DecodeStep::Deliver(sig) => Action::Deliver(sig),
        DecodeStep::ClearAndRetry => Action::ClearAndAwait(RaceSource::Delivery),
        DecodeStep::Fail(err) => Action::Fail(err),
    }
}

/// The source's transition function: from the current era and an observed
/// event to the next era and the action the event loop must take.  Only a
/// successful registration changes the era; every other event leaves the
/// source where it is, so a definitive result or a retry never loses state.
pub open spec fn step(e: Era, ev: Event) -> (Era, Action) {
    match ev {
        Event::Begin => {
            match e {
                Era::PreInit { handle } => (
                    e,
                    (Action::Register { sigfd: handle.sigfd, sigint_efd: handle.sigint_efd }),
                ),
                Era::Active { .. } => (e, Action::AwaitReadiness),
            }
        },
        Event::Registered => (activate(e), Action::AwaitReadiness),
        Event::RegisterFailed(code) => (e, Action::Fail(SigError::Os(code))),
        Event::WaitFailed(code) => (e, Action::Fail(SigError::Os(code))),
        Event::SignalReady(outcome) => (e, delivery_action(outcome)),
        Event::OverrideReady(outcome) => (e, override_action(outcome)),
    }
}

/// A watch plan: which signals a source is to watch, and whether it also
/// carries the interrupt-override descriptor.  Construction blocks exactly
/// these signals and creates the descriptors the plan calls for.
pub struct WatchPlan {
    /// The signals to block and watch.
    pub signals: Vec<Signal>,
    /// Whether an interrupt-override descriptor is to be created; true
    /// exactly when the watch set contains [`SIGINT`].
    pub interrupt_override: bool,
}

/// The catalog of fatal-by-default signals this crate's presets watch.
pub open spec fn deadly_catalog() -> Seq<Signal> {
    seq![SIGHUP, SIGINT, SIGQUIT, SIGTERM]
}

/// The catalog of non-fatal-by-default signals this crate's presets watch.
pub open spec fn benign_catalog() -> Seq<Signal> {
    seq![SIGUSR1, SIGUSR2, SIGCHLD, SIGWINCH]
}

/// The full catalog: every signal the presets know, deadly first.
pub open spec fn full_catalog() -> Seq<Signal> {
    deadly_catalog() + benign_catalog()
}

/// Whether `sigs` contains `sig`.
fn contains_signal(sigs: &Vec<Signal>, sig: Signal) -> (r: bool)
    ensures
        r == sigs@.contains(sig),
{
    let mut i: usize = 0;
    while i < sigs.len()
        invariant
            i <= sigs@.len(),
            forall|j: int| 0 <= j < i ==> sigs@[j] != sig,
        decreases sigs@.len() - i,
    {
        if sigs[i] == sig {
            return true;
        }
        i += 1;
    }
    false
}

/// The asynchronous signal source.  It owns exactly one [`Era`] at a time and
/// is driven by reported events; its view is the era it is in.
pub struct Signals {
    era: Era,
}

impl View for Signals {
    type V = Era;

    closed spec fn view(&self) -> Era {
        self.era
    }
}

impl Signals {
    /// Plan a source that watches exactly the given signals.
    pub fn new(sigs: &Vec<Signal>) -> (p: WatchPlan)
        ensures
            p.signals@ == sigs@,
            p.interrupt_override == sigs@.contains(SIGINT),
    {
        let interrupt_override = contains_signal(sigs, SIGINT);
        let mut signals: Vec<Signal> = Vec::new();
        let mut i: usize = 0;
        while i < sigs.len()
            invariant
                i <= sigs@.len(),
                signals@ == sigs@.take(i as int),
            decreases sigs@.len() - i,
        {
            signals.push(sigs[i]);
            i += 1;
        }
        proof {
            assert(signals@ =~= sigs@);
        }
        WatchPlan { signals, interrupt_override }
    }

    /// Plan a source that watches the full catalog of known signals.
    pub fn all() -> (p: WatchPlan)
        ensures
            p.signals@ == full_catalog(),
            p.interrupt_override == p.signals@.contains(SIGINT),
    {
        let signals: Vec<Signal> = vec![
            SIGHUP,
            SIGINT,
            SIGQUIT,
            SIGTERM,
            SIGUSR1,
            SIGUSR2,
            SIGCHLD,
            SIGWINCH,
        ];
        proof {
            assert(signals@ =~= full_catalog());
            assert(full_catalog()[1] == SIGINT);
        }
        WatchPlan { signals, interrupt_override: true }
    }

    /// Plan a source that watches the fatal-by-default signals.
    pub fn deadly() -> (p: WatchPlan)
        ensures
            p.signals@ == deadly_catalog(),
            p.interrupt_override == p.signals@.contains(SIGINT),
    {
        let signals: Vec<Signal> = vec![SIGHUP, SIGINT, SIGQUIT, SIGTERM];
        proof {
            assert(signals@ =~= deadly_catalog());
            assert(deadly_catalog()[1] == SIGINT);
        }
        WatchPlan { signals, interrupt_override: true }
    }

    /// Plan a source that watches the non-fatal-by-default signals.
    pub fn benign() -> (p: WatchPlan)
        ensures
            p.signals@ == benign_catalog(),
            p.interrupt_override == p.signals@.contains(SIGINT),
    {
        let signals: Vec<Signal> = vec![SIGUSR1, SIGUSR2, SIGCHLD, SIGWINCH];
        proof {
            assert(signals@ =~= benign_catalog());
            assert(forall|j: int| 0 <= j < benign_catalog().len() ==> benign_catalog()[j] != SIGINT);
        }
        WatchPlan { signals, interrupt_override: false }
    }

    /// Take ownership of a pre-registration handle.  The construction that
    /// produced the handle must have blocked the watched signals and created
    /// the descriptors before any concurrent execution context started, and
    /// must hand over real, distinct descriptors.
    pub fn from_handle(handle: PreInitHandle) -> (s: Signals)
        requires
            handle.sigfd >= 0,
            handle.sigint_efd >= 0 ==> handle.sigint_efd != handle.sigfd,
        ensures
            s@ == (Era::PreInit { handle }),
            era_wf(s@),
    {
        Signals { era: Era::PreInit { handle } }
    }

    /// Advance the source by one observed event and say what the surrounding
    /// event loop must do next.  This implements [`step`] exactly: the era
    /// after the call and the returned action are the transition's.
    pub fn next(&mut self, ev: Event) -> (a: Action)
        requires
            era_wf(old(self)@),
            event_allowed(old(self)@, ev),
        ensures
            final(self)@ == step(old(self)@, ev).0,
            a == step(old(self)@, ev).1,
            era_wf(final(self)@),
    {
        match ev {
            Event::Begin => {
                match &self.era {
                    Era::PreInit { handle } => Action::Register {
                        sigfd: handle.sigfd,
                        sigint_efd: handle.sigint_efd,
                    },
                    Era::Active { .. } => Action::AwaitReadiness,
                }
            },
            Event::Registered => {
                match &self.era {
                    Era::PreInit { handle } => {
                        let sigfd = handle.sigfd;
                        let sigint_efd = if handle.sigint_efd >= 0 {
                            Some(handle.sigint_efd)
                        } else {
                            None
                        };
                        self.era = Era::Active { sigfd, sigint_efd };
                        Action::AwaitReadiness
                    },
                    Era::Active { .. } => vstd::pervasive::unreached(),
                }
            },
            Event::RegisterFailed(code) => Action::Fail(SigError::Os(code)),
            Event::WaitFailed(code) => Action::Fail(SigError::Os(code)),
            Event::SignalReady(outcome) => {
                match decode_read(outcome) {
                    DecodeStep::Deliver(sig) => Action::Deliver(sig),
                    DecodeStep::ClearAndRetry => Action::ClearAndAwait(RaceSource::Delivery),
                    DecodeStep::Fail(err) => Action::Fail(err),
                }
            },
            Event::OverrideReady(outcome) => {
                match outcome {
                    ReadOutcome::Data(_) => Action::Deliver(SIGINT),
                    ReadOutcome::Failed(code) => {
                        if code == crate::records::EAGAIN {
                            Action::ClearAndAwait(RaceSource::Override)
                        } else {
                            Action::Fail(SigError::Os(code))
                        }
                    },
                }
            },
        }
    }

    /// The descriptors this source owns, each listed exactly once: what a
    /// teardown must close, in whichever era the source is dropped.
    pub fn owned_descriptors(&self) -> (fds: Vec<i32>)
        ensures
            fds@ == owned_fds(self@),
    {
        let mut fds: Vec<i32> = Vec::new();
        match &self.era {
            Era::PreInit { handle } => {
                fds.push(handle.sigfd);
                if handle.sigint_efd >= 0 {
                    fds.push(handle.sigint_efd);
                }
            },
            Era::Active { sigfd, sigint_efd } => {
                fds.push(*sigfd);
                if let Some(fd) = sigint_efd {
                    fds.push(*fd);
                }
            },
        }
        proof {
            assert(fds@ =~= owned_fds(self@));
        }
        fds
    }
}

} // verus!
