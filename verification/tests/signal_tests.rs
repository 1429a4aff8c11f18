use pi_natives::error::Error;
use pi_natives::signal::{
    chld_signal_listener, continue_process, forced_termination_outcome, kill_process,
    lead_new_process_group, mask_sigttou, poll_for_stopped_children, tstp_signal_listener,
    FakeSignal, Signal,
};

#[test]
fn iterator_yields_every_member_once() {
    let all = Signal::iterator();
    assert_eq!(all.len(), 3);
    assert!(matches!(all[0], Signal::Terminate));
    assert!(matches!(all[1], Signal::Kill));
    assert!(matches!(all[2], Signal::Interrupt));
}

#[test]
fn as_str_gives_canonical_names() {
    assert_eq!(Signal::Terminate.as_str(), "TERM");
    assert_eq!(Signal::Kill.as_str(), "KILL");
    assert_eq!(Signal::Interrupt.as_str(), "INT");
}

#[test]
fn parse_is_left_inverse_of_as_str() {
    for signal in Signal::iterator() {
        let parsed = Signal::from_str(signal.as_str());
        assert!(matches!(parsed, Ok(s) if s == signal));
    }
}

#[test]
fn parse_accepts_prefixed_and_mixed_case() {
    assert!(matches!(Signal::from_str("SIGTERM"), Ok(Signal::Terminate)));
    assert!(matches!(Signal::from_str("sigterm"), Ok(Signal::Terminate)));
    assert!(matches!(Signal::from_str("Term"), Ok(Signal::Terminate)));
    assert!(matches!(Signal::from_str("kIlL"), Ok(Signal::Kill)));
    assert!(matches!(Signal::from_str("SIGKILL"), Ok(Signal::Kill)));
    assert!(matches!(Signal::from_str("int"), Ok(Signal::Interrupt)));
    assert!(matches!(Signal::from_str("SigInt"), Ok(Signal::Interrupt)));
}

#[test]
fn parse_bogus_fails_with_invalid_signal() {
    let r = Signal::from_str("bogus");
    assert!(matches!(r, Err(Error::InvalidSignal(m)) if m == "bogus"));
}

#[test]
fn parse_rejects_near_misses() {
    assert!(matches!(Signal::from_str(""), Err(Error::InvalidSignal(m)) if m.is_empty()));
    assert!(matches!(Signal::from_str("TERM "), Err(Error::InvalidSignal(m)) if m == "TERM "));
    assert!(matches!(Signal::from_str("SIG"), Err(Error::InvalidSignal(m)) if m == "SIG"));
}

#[test]
fn from_numeric_always_fails_with_decimal_rendering() {
    assert!(matches!(Signal::from_numeric(15), Err(Error::InvalidSignal(m)) if m == "15"));
    assert!(matches!(Signal::from_numeric(0), Err(Error::InvalidSignal(m)) if m == "0"));
    assert!(matches!(Signal::from_numeric(-3), Err(Error::InvalidSignal(m)) if m == "-3"));
    assert!(matches!(
        Signal::from_numeric(i32::MIN),
        Err(Error::InvalidSignal(m)) if m == "-2147483648"
    ));
}

#[test]
fn kill_process_is_unsupported_for_every_signal() {
    for signal in Signal::iterator() {
        let r = kill_process(1234, signal);
        assert!(matches!(
            r,
            Err(Error::NotSupportedOnThisPlatform(op)) if op == "killing process"
        ));
    }
}

#[test]
fn continue_process_is_unsupported() {
    let r = continue_process(1234);
    assert!(matches!(
        r,
        Err(Error::NotSupportedOnThisPlatform(op)) if op == "continuing process"
    ));
}

#[test]
fn process_group_and_mask_are_inert() {
    assert!(matches!(lead_new_process_group(), Ok(())));
    assert!(matches!(mask_sigttou(), Ok(())));
}

#[test]
fn no_children_are_ever_reported_stopped() {
    assert!(matches!(poll_for_stopped_children(), Ok(false)));
}

#[test]
fn listeners_construct_but_never_fire() {
    let mut tstp = tstp_signal_listener().unwrap();
    let mut chld = chld_signal_listener().unwrap();
    let mut intr = FakeSignal::new();
    for _ in 0..1000 {
        assert!(tstp.try_recv().is_none());
        assert!(chld.try_recv().is_none());
        assert!(intr.try_recv().is_none());
    }
}

#[test]
fn forced_termination_delivers_only_terminate_and_kill() {
    assert!(matches!(
        forced_termination_outcome(Signal::Interrupt, true, true),
        Err(Error::NotSupportedOnThisPlatform(op)) if op == "killing process"
    ));
    assert!(matches!(
        forced_termination_outcome(Signal::Terminate, false, false),
        Err(Error::FailedToSendSignal)
    ));
    assert!(matches!(
        forced_termination_outcome(Signal::Kill, true, false),
        Err(Error::FailedToSendSignal)
    ));
    assert!(matches!(forced_termination_outcome(Signal::Terminate, true, true), Ok(())));
    assert!(matches!(forced_termination_outcome(Signal::Kill, true, true), Ok(())));
}
