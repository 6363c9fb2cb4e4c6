//! Properties of the signal source, stated and proved over the transition
//! function [`step`](crate::source::step).

use vstd::prelude::*;

use crate::Signal;
use crate::records::{EAGAIN, ReadOutcome, SIGINFO_RECORD_LEN, SigError, signo_of_record};
use crate::source::{Action, Era, Event, RaceSource, SIGINT, era_wf, owned_fds, step};

verus! {

/// The signals a sequence of actions hands to the caller, in order.
pub open spec fn delivered(actions: Seq<Action>) -> Seq<Signal>
    decreases actions.len(),
{
    if actions.len() == 0 {
        Seq::empty()
    } else {
        let rest = delivered(actions.drop_first());
        match actions[0] {
            Action::Deliver(sig) => seq![sig] + rest,
            _ => rest,
        }
    }
}

/// The signal identities a sequence of observed events carries: each whole
/// kernel record carries its signal-number field, and each successful read on
/// the interrupt-override descriptor carries the interrupt signal.
pub open spec fn carried(evs: Seq<Event>) -> Seq<Signal>
    decreases evs.len(),
{
    if evs.len() == 0 {
        Seq::empty()
    } else {
        let rest = carried(evs.drop_first());
        match evs[0] {
            Event::SignalReady(ReadOutcome::Data(buf)) => {
                if buf@.len() == SIGINFO_RECORD_LEN {
                    seq![signo_of_record(buf@)] + rest
                } else {
                    rest
                }
            },
            Event::OverrideReady(ReadOutcome::Data(_)) => seq![SIGINT] + rest,
            _ => rest,
        }
    }
}

/// Run a source over a sequence of events, collecting the prescribed actions.
pub open spec fn run(e: Era, evs: Seq<Event>) -> Seq<Action>
    decreases evs.len(),
{
    if evs.len() == 0 {
        Seq::empty()
    } else {
        seq![step(e, evs[0]).1] + run(step(e, evs[0]).0, evs.drop_first())
    }
}

/// Single delivery: over any sequence of observed events, the source hands
/// the caller exactly the signal identities the events carry, one delivery
/// per whole kernel record or serviced override event, in order — no
/// batching, no loss, no spurious delivery.
pub proof fn lemma_single_delivery(e: Era, evs: Seq<Event>)
    ensures
        delivered(run(e, evs)) == carried(evs),
    decreases evs.len(),
{
    if evs.len() == 0 {
    } else {
        let e1 = step(e, evs[0]).0;
        lemma_single_delivery(e1, evs.drop_first());
        assert(run(e, evs).drop_first() =~= run(e1, evs.drop_first()));
    }
}

/// No loss under would-block races: a read that would block is not an error
/// and skips nothing — the source is told to clear the readiness flag and
/// wait again, its state is untouched, and a later readiness event for the
/// same descriptor still yields the correct identity.
pub proof fn lemma_would_block_no_loss(e: Era, rec: Vec<u8>, unit: Vec<u8>)
    requires
        rec@.len() == SIGINFO_RECORD_LEN,
    ensures
        step(e, Event::SignalReady(ReadOutcome::Failed(EAGAIN))) == (
        e,
        Action::ClearAndAwait(RaceSource::Delivery),
        ),
        step(
            step(e, Event::SignalReady(ReadOutcome::Failed(EAGAIN))).0,
            Event::SignalReady(ReadOutcome::Data(rec)),
        ).1 == Action::Deliver(signo_of_record(rec@)),
        step(e, Event::OverrideReady(ReadOutcome::Failed(EAGAIN))) == (
        e,
        Action::ClearAndAwait(RaceSource::Override),
        ),
        step(
            step(e, Event::OverrideReady(ReadOutcome::Failed(EAGAIN))).0,
            Event::OverrideReady(ReadOutcome::Data(unit)),
        ).1 == Action::Deliver(SIGINT),
{
}

/// Race fairness: when the interrupt-override and signal-delivery descriptors
/// are both ready, either may be serviced first, and both pending events are
/// observed across consecutive calls in either order.
pub proof fn lemma_race_fairness(e: Era, unit: Vec<u8>, rec: Vec<u8>)
    requires
        e is Active,
        e->Active_sigint_efd is Some,
        rec@.len() == SIGINFO_RECORD_LEN,
    ensures
        step(e, Event::OverrideReady(ReadOutcome::Data(unit))).1 == Action::Deliver(SIGINT),
        step(
            step(e, Event::OverrideReady(ReadOutcome::Data(unit))).0,
            Event::SignalReady(ReadOutcome::Data(rec)),
        ).1 == Action::Deliver(signo_of_record(rec@)),
        step(e, Event::SignalReady(ReadOutcome::Data(rec))).1 == Action::Deliver(
            signo_of_record(rec@),
        ),
        step(
            step(e, Event::SignalReady(ReadOutcome::Data(rec))).0,
            Event::OverrideReady(ReadOutcome::Data(unit)),
        ).1 == Action::Deliver(SIGINT),
{
}

/// Lifecycle irreversibility: an active source never changes era again, only
/// a pre-registration source can be stepped to one, and registration is only
/// ever requested of a pre-registration source beginning a call — so normal
/// operation never re-enters construction.
pub proof fn lemma_lifecycle_irreversible(e: Era, ev: Event)
    ensures
        e is Active ==> step(e, ev).0 == e,
        step(e, ev).0 is PreInit ==> e is PreInit,
        step(e, ev).1 is Register ==> e is PreInit && ev is Begin,
{
}

/// Malformed record: a read returning a byte count other than one whole
/// kernel record yields the data-validity error, and the source's state is
/// untouched.
pub proof fn lemma_malformed_record(e: Era, buf: Vec<u8>)
    requires
        buf@.len() != SIGINFO_RECORD_LEN,
    ensures
        step(e, Event::SignalReady(ReadOutcome::Data(buf))) == (
        e,
        Action::Fail(SigError::InvalidData),
        ),
{
}

/// Teardown idempotence: a well-formed source owns each descriptor exactly
/// once, and no step changes what it owns — so closing the owned descriptors
/// once at drop, in either era, closes each exactly once and leaks none.
pub proof fn lemma_teardown_closes_each_once(e: Era, ev: Event)
    requires
        era_wf(e),
    ensures
        owned_fds(e).no_duplicates(),
        owned_fds(step(e, ev).0) == owned_fds(e),
{
    assert(owned_fds(step(e, ev).0) =~= owned_fds(e));
}

} // verus!
