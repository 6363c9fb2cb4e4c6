use macluhan::records::{EAGAIN, ReadOutcome, SIGINFO_RECORD_LEN, SigError};
use macluhan::source::{
    Action, Event, PreInitHandle, RaceSource, SIGCHLD, SIGHUP, SIGINT, SIGQUIT, SIGTERM, SIGUSR1,
    SIGUSR2, SIGWINCH, Signals,
};

fn record(signo: u32) -> Vec<u8> {
    let mut buf = vec![0u8; SIGINFO_RECORD_LEN];
    buf[..4].copy_from_slice(&signo.to_le_bytes());
    buf
}

fn live_source(sigfd: i32, sigint_efd: i32) -> Signals {
    let mut s = Signals::from_handle(PreInitHandle { sigfd, sigint_efd });
    assert_eq!(s.next(Event::Begin), Action::Register { sigfd, sigint_efd });
    assert_eq!(s.next(Event::Registered), Action::AwaitReadiness);
    s
}

#[test]
fn new_keeps_the_given_signals() {
    let plan = Signals::new(&vec![SIGTERM, SIGCHLD]);
    assert_eq!(plan.signals, vec![SIGTERM, SIGCHLD]);
    assert!(!plan.interrupt_override);
}

#[test]
fn new_wants_an_override_exactly_when_the_interrupt_is_watched() {
    assert!(Signals::new(&vec![SIGTERM, SIGINT]).interrupt_override);
    assert!(!Signals::new(&vec![SIGTERM, SIGHUP]).interrupt_override);
    assert!(!Signals::new(&Vec::new()).interrupt_override);
}

#[test]
fn preset_catalogs() {
    let all = Signals::all();
    assert_eq!(
        all.signals,
        vec![SIGHUP, SIGINT, SIGQUIT, SIGTERM, SIGUSR1, SIGUSR2, SIGCHLD, SIGWINCH]
    );
    assert!(all.interrupt_override);

    let deadly = Signals::deadly();
    assert_eq!(deadly.signals, vec![SIGHUP, SIGINT, SIGQUIT, SIGTERM]);
    assert!(deadly.interrupt_override);

    let benign = Signals::benign();
    assert_eq!(benign.signals, vec![SIGUSR1, SIGUSR2, SIGCHLD, SIGWINCH]);
    assert!(!benign.interrupt_override);
}

#[test]
fn first_call_registers_then_waits() {
    let mut s = Signals::from_handle(PreInitHandle { sigfd: 5, sigint_efd: 6 });
    assert_eq!(s.next(Event::Begin), Action::Register { sigfd: 5, sigint_efd: 6 });
    assert_eq!(s.next(Event::Registered), Action::AwaitReadiness);
    assert_eq!(s.next(Event::Begin), Action::AwaitReadiness);
}

#[test]
fn registration_failure_is_reported_and_leaves_the_source_unregistered() {
    let mut s = Signals::from_handle(PreInitHandle { sigfd: 5, sigint_efd: -1 });
    assert_eq!(s.next(Event::Begin), Action::Register { sigfd: 5, sigint_efd: -1 });
    assert_eq!(s.next(Event::RegisterFailed(24)), Action::Fail(SigError::Os(24)));
    assert_eq!(s.next(Event::Begin), Action::Register { sigfd: 5, sigint_efd: -1 });
}

#[test]
fn a_source_never_registers_twice() {
    let mut s = live_source(5, 6);
    assert_eq!(s.next(Event::SignalReady(ReadOutcome::Failed(EAGAIN))),
        Action::ClearAndAwait(RaceSource::Delivery));
    assert_eq!(s.next(Event::Begin), Action::AwaitReadiness);
    assert_eq!(s.next(Event::OverrideReady(ReadOutcome::Data(vec![1, 0, 0, 0, 0, 0, 0, 0]))),
        Action::Deliver(SIGINT));
    assert_eq!(s.next(Event::Begin), Action::AwaitReadiness);
}

#[test]
fn one_watched_signal_is_delivered_once_and_the_descriptor_is_owned() {
    let mut s = Signals::from_handle(PreInitHandle { sigfd: 7, sigint_efd: -1 });
    assert_eq!(s.next(Event::Begin), Action::Register { sigfd: 7, sigint_efd: -1 });
    assert_eq!(s.next(Event::Registered), Action::AwaitReadiness);
    assert_eq!(s.next(Event::SignalReady(ReadOutcome::Data(record(SIGTERM)))),
        Action::Deliver(SIGTERM));
    assert_eq!(s.owned_descriptors(), vec![7]);
}

#[test]
fn override_event_delivers_the_interrupt_identity() {
    let mut s = live_source(5, 6);
    assert_eq!(s.next(Event::OverrideReady(ReadOutcome::Data(vec![1, 0, 0, 0, 0, 0, 0, 0]))),
        Action::Deliver(SIGINT));
}

#[test]
fn malformed_record_is_a_data_error_not_a_crash() {
    let mut s = live_source(5, -1);
    assert_eq!(s.next(Event::SignalReady(ReadOutcome::Data(vec![15u8, 0, 0, 0]))),
        Action::Fail(SigError::InvalidData));
}

#[test]
fn would_block_loses_nothing() {
    let mut s = live_source(5, -1);
    assert_eq!(s.next(Event::SignalReady(ReadOutcome::Failed(EAGAIN))),
        Action::ClearAndAwait(RaceSource::Delivery));
    assert_eq!(s.next(Event::SignalReady(ReadOutcome::Data(record(SIGHUP)))),
        Action::Deliver(SIGHUP));
}

#[test]
fn override_would_block_continues_the_race() {
    let mut s = live_source(5, 6);
    assert_eq!(s.next(Event::OverrideReady(ReadOutcome::Failed(EAGAIN))),
        Action::ClearAndAwait(RaceSource::Override));
    assert_eq!(s.next(Event::OverrideReady(ReadOutcome::Data(vec![1, 0, 0, 0, 0, 0, 0, 0]))),
        Action::Deliver(SIGINT));
}

#[test]
fn simultaneous_readiness_is_served_in_either_order() {
    let mut s = live_source(5, 6);
    assert_eq!(s.next(Event::OverrideReady(ReadOutcome::Data(vec![1, 0, 0, 0, 0, 0, 0, 0]))),
        Action::Deliver(SIGINT));
    assert_eq!(s.next(Event::SignalReady(ReadOutcome::Data(record(SIGQUIT)))),
        Action::Deliver(SIGQUIT));

    let mut t = live_source(5, 6);
    assert_eq!(t.next(Event::SignalReady(ReadOutcome::Data(record(SIGQUIT)))),
        Action::Deliver(SIGQUIT));
    assert_eq!(t.next(Event::OverrideReady(ReadOutcome::Data(vec![1, 0, 0, 0, 0, 0, 0, 0]))),
        Action::Deliver(SIGINT));
}

#[test]
fn wait_failure_is_an_os_error() {
    let mut s = live_source(5, -1);
    assert_eq!(s.next(Event::WaitFailed(4)), Action::Fail(SigError::Os(4)));
}

#[test]
fn hard_read_error_is_an_os_error() {
    let mut s = live_source(5, -1);
    assert_eq!(s.next(Event::SignalReady(ReadOutcome::Failed(9))), Action::Fail(SigError::Os(9)));
}

#[test]
fn owned_descriptors_in_both_eras() {
    let pre = Signals::from_handle(PreInitHandle { sigfd: 5, sigint_efd: 6 });
    assert_eq!(pre.owned_descriptors(), vec![5, 6]);

    let pre_no_override = Signals::from_handle(PreInitHandle { sigfd: 5, sigint_efd: -1 });
    assert_eq!(pre_no_override.owned_descriptors(), vec![5]);

    let live = live_source(5, 6);
    assert_eq!(live.owned_descriptors(), vec![5, 6]);

    let live_no_override = live_source(5, -1);
    assert_eq!(live_no_override.owned_descriptors(), vec![5]);
}
