//! Signal classification for a platform without a native signal facility.
//!
//! The signal set here is the fixed, enumerable subset a degraded platform
//! understands: terminate, kill and interrupt.  Each member maps
//! bidirectionally to a canonical upper-case short name, and parsing is
//! case-insensitive and also accepts the conventional `SIG` prefix.

use vstd::prelude::*;
use crate::error::Error;
use crate::strutil::{chars_eq_ignore_ascii_case, str_eq_ignore_ascii_case};

verus! {

/// Minimal signal representation for a platform without a native signal
/// facility.
#[derive(Clone, Copy, PartialEq, Eq, Hash, Structural, Debug)]
pub enum Signal {
    /// Terminate signal.
    Terminate,
    /// Kill signal.
    Kill,
    /// Interrupt signal.
    Interrupt,
}

/// The canonical short name of a signal.
pub open spec fn signal_name(s: Signal) -> Seq<char> {
    match s {
        Signal::Terminate => "TERM"@,
        Signal::Kill => "KILL"@,
        Signal::Interrupt => "INT"@,
    }
}

/// What `Signal::from_str` accepts: the canonical name, or the same with the
/// `SIG` prefix, in any ASCII case.
pub open spec fn parse_spec(s: Seq<char>) -> Option<Signal> {
    if chars_eq_ignore_ascii_case(s, "TERM"@) || chars_eq_ignore_ascii_case(s, "SIGTERM"@) {
        Some(Signal::Terminate)
    } else if chars_eq_ignore_ascii_case(s, "KILL"@) || chars_eq_ignore_ascii_case(s, "SIGKILL"@) {
        Some(Signal::Kill)
    } else if chars_eq_ignore_ascii_case(s, "INT"@) || chars_eq_ignore_ascii_case(s, "SIGINT"@) {
        Some(Signal::Interrupt)
    } else {
        None
    }
}

impl Signal {
    /// Returns every member of the signal set, each exactly once.
    pub fn iterator() -> (r: Vec<Signal>)
        ensures
            r@ == seq![Signal::Terminate, Signal::Kill, Signal::Interrupt],
            forall|s: Signal| r@.contains(s),
    {
        let mut v: Vec<Signal> = Vec::new();
        v.push(Signal::Terminate);
        v.push(Signal::Kill);
        v.push(Signal::Interrupt);
        proof {
            assert(v@ =~= seq![Signal::Terminate, Signal::Kill, Signal::Interrupt]);
            assert forall|s: Signal| v@.contains(s) by {
                match s {
                    Signal::Terminate => assert(v@[0] == s),
                    Signal::Kill => assert(v@[1] == s),
                    Signal::Interrupt => assert(v@[2] == s),
                }
            }
        }
        v
    }

    /// Converts the signal into its canonical upper-case short name.
    pub fn as_str(self) -> (r: &'static str)
        ensures
            r@ == signal_name(self),
    {
        match self {
            Signal::Terminate => "TERM",
            Signal::Kill => "KILL",
            Signal::Interrupt => "INT",
        }
    }

    /// Creates a `Signal` from a string representation, case-insensitively,
    /// with or without the `SIG` prefix; anything else is rejected as
    /// `InvalidSignal` carrying the original string.
    pub fn from_str(s: &str) -> (r: Result<Signal, Error>)
        ensures
            parse_spec(s@) matches Some(sig) ==> r == Ok::<Signal, Error>(sig),
            parse_spec(s@) is None ==> (r matches Err(e) && e.is_invalid_signal(s@)),
    {
        if str_eq_ignore_ascii_case(s, "TERM") || str_eq_ignore_ascii_case(s, "SIGTERM") {
            Ok(Signal::Terminate)
        } else if str_eq_ignore_ascii_case(s, "KILL") || str_eq_ignore_ascii_case(s, "SIGKILL") {
            Ok(Signal::Kill)
        } else if str_eq_ignore_ascii_case(s, "INT") || str_eq_ignore_ascii_case(s, "SIGINT") {
            Ok(Signal::Interrupt)
        } else {
            Err(Error::InvalidSignal(s.to_owned()))
        }
    }

    /// Creates a `Signal` from a raw numeric signal value.  This platform
    /// defines no numeric signal values, so every value is rejected as
    /// `InvalidSignal` carrying the value's decimal rendering.
    pub fn from_numeric(value: i32) -> (r: Result<Signal, Error>)
        ensures
            r matches Err(e) && e.is_invalid_signal(crate::strutil::decimal_chars(value as int)),
    {
        Err(Error::InvalidSignal(crate::strutil::i64_to_decimal_string(value as i64)))
    }
}

/// A signal listener on a platform without native signal delivery:
/// construction always succeeds, and no notification ever arrives, which is
/// equivalent to "this event class cannot occur here".
pub struct FakeSignal {}

impl FakeSignal {
    /// Creates a listener whose notifications never arrive.
    pub fn new() -> Self {
        FakeSignal {}
    }

    /// Non-blocking check for a pending notification; on this platform there
    /// never is one.
    pub fn try_recv(&mut self) -> (r: Option<()>)
        ensures
            r is None,
    {
        None
    }
}

/// Returns the "terminal stop requested" listener; on this platform it never
/// fires.
pub fn tstp_signal_listener() -> (r: Result<FakeSignal, Error>)
    ensures
        r is Ok,
{
    Ok(FakeSignal::new())
}

/// Returns the "some child changed state" listener; on this platform it
/// never fires.
pub fn chld_signal_listener() -> (r: Result<FakeSignal, Error>)
    ensures
        r is Ok,
{
    Ok(FakeSignal::new())
}

/// Non-blocking check of whether any child of the current process is
/// currently stopped (suspended); on this platform the answer is always no.
pub fn poll_for_stopped_children() -> (r: Result<bool, Error>)
    ensures
        r == Ok::<bool, Error>(false),
{
    Ok(false)
}

/// Requests that a stopped process continue; not available on this platform.
pub fn continue_process(_pid: u32) -> (r: Result<(), Error>)
    ensures
        r matches Err(e) && e.is_not_supported("continuing process"@),
{
    Err(Error::NotSupportedOnThisPlatform("continuing process"))
}

/// Sends a signal to a specific process; on this platform no signal-delivery
/// facility exists, so every request fails as unsupported.
pub fn kill_process(_pid: u32, _signal: Signal) -> (r: Result<(), Error>)
    ensures
        r matches Err(e) && e.is_not_supported("killing process"@),
{
    Err(Error::NotSupportedOnThisPlatform("killing process"))
}

/// Places the caller in a new process group of its own; nothing to do here.
pub fn lead_new_process_group() -> (r: Result<(), Error>)
    ensures
        r == Ok::<(), Error>(()),
{
    Ok(())
}

/// Masks the terminal-output-stop signal; nothing to do here.
pub fn mask_sigttou() -> (r: Result<(), Error>)
    ensures
        r == Ok::<(), Error>(()),
{
    Ok(())
}

/// Decision core for a platform that delivers signals through a forced
/// termination facility: only terminate and kill are deliverable; a process
/// handle that cannot be opened, or a termination request that is not
/// accepted, is a signal-delivery failure.
pub fn forced_termination_outcome(signal: Signal, handle_opened: bool, terminate_accepted: bool) -> (r: Result<(), Error>)
    ensures
        signal is Interrupt ==> (r matches Err(e) && e.is_not_supported("killing process"@)),
        (signal is Terminate || signal is Kill) && !handle_opened
            ==> (r matches Err(e) && e is FailedToSendSignal),
        (signal is Terminate || signal is Kill) && handle_opened && !terminate_accepted
            ==> (r matches Err(e) && e is FailedToSendSignal),
        (signal is Terminate || signal is Kill) && handle_opened && terminate_accepted
            ==> r == Ok::<(), Error>(()),
{
    match signal {
        Signal::Interrupt => Err(Error::NotSupportedOnThisPlatform("killing process")),
        Signal::Terminate | Signal::Kill => {
            if !handle_opened {
                Err(Error::FailedToSendSignal)
            } else if !terminate_accepted {
                Err(Error::FailedToSendSignal)
            } else {
                Ok(())
            }
        }
    }
}

/// Law: `from_str` is a left-inverse of `as_str`.  Parsing the canonical name
/// of any member of the signal set gives back that member.
pub proof fn lemma_parse_canonical_name(sig: Signal)
    ensures
        parse_spec(signal_name(sig)) == Some(sig),
{
    reveal_strlit("TERM");
    reveal_strlit("KILL");
    reveal_strlit("INT");
    reveal_strlit("SIGTERM");
    reveal_strlit("SIGKILL");
    reveal_strlit("SIGINT");
    match sig {
        Signal::Terminate => {
            assert(chars_eq_ignore_ascii_case("TERM"@, "TERM"@));
        }
        Signal::Kill => {
            assert(!chars_eq_ignore_ascii_case("KILL"@, "TERM"@)) by {
                assert(crate::strutil::lower_char_spec("KILL"@[0])
                    != crate::strutil::lower_char_spec("TERM"@[0]));
            }
            assert(chars_eq_ignore_ascii_case("KILL"@, "KILL"@));
        }
        Signal::Interrupt => {
            assert(chars_eq_ignore_ascii_case("INT"@, "INT"@));
        }
    }
}

} // verus!
