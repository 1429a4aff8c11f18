//! Child-process supervision: one supervisor instance owns one spawned child
//! and waits for it to exit while staying responsive to job-control
//! notifications and to an externally owned cancellation source.
//!
//! The race over the event sources is an explicit finite-state loop with one
//! state ("waiting") and six labeled transition causes, each producing either
//! a terminal result or a transition back to waiting
//! (`is_wait_transition`).  `wait_poll` performs one full evaluation of that
//! race without suspending, so a caller's loop — or a suspension-based driver
//! built on `wait_transition` — realizes the wait.  On this platform the
//! three signal listeners never fire, so the proved contracts rule out
//! `Stopped` outcomes, and rule out `Cancelled` when no cancellation source
//! was supplied.

use vstd::prelude::*;
use crate::error::Error;
use crate::signal::{FakeSignal, poll_for_stopped_children};

verus! {

#[verifier::external_type_specification]
#[verifier::external_body]
/// The OS child-process resource, exclusively owned by one supervisor.
pub struct ExChild(tokio::process::Child);

#[verifier::external_type_specification]
#[verifier::external_body]
/// An externally owned, cooperatively observed cancellation flag.
pub struct ExCancellationToken(tokio_util::sync::CancellationToken);

/// The exit status of a completed process, as the plain value this layer
/// reads of it: the exit code, when the platform exposes one.
#[derive(Clone, Copy, PartialEq, Eq, Structural, Debug)]
pub struct ProcessExitStatus {
    /// The exit code the process returned, if any.
    pub code: Option<i32>,
}

impl ProcessExitStatus {
    /// Whether the status reports a successful exit.
    pub open spec fn spec_success(self) -> bool {
        self.code == Some(0i32)
    }

    /// Whether the status reports a successful exit (code zero).
    pub fn success(&self) -> (r: bool)
        ensures
            r == self.spec_success(),
    {
        match self.code {
            Some(c) => c == 0,
            None => false,
        }
    }

    /// The exit code the process returned, if any.
    pub fn code(&self) -> (r: Option<i32>)
        ensures
            r == self.code,
    {
        self.code
    }

    /// The signal that terminated the process, if any; this platform exposes
    /// no such information.
    pub fn signal(&self) -> (r: Option<i32>)
        ensures
            r is None,
    {
        None
    }
}

/// What a completed process hands back: its exit status, and any captured
/// output.  Capturing is an external collaborator's responsibility, so the
/// supervisor always reports empty output.
#[derive(Debug)]
pub struct ProcessOutput {
    /// The exit status of the process.
    pub status: ProcessExitStatus,
    /// Captured standard output; empty at this layer.
    pub stdout: Vec<u8>,
    /// Captured standard error; empty at this layer.
    pub stderr: Vec<u8>,
}

/// Represents the result of waiting for an executing process.  Exactly one
/// variant is produced per `wait` call.
#[derive(Debug)]
pub enum ProcessWaitResult {
    /// The process completed.
    Completed(ProcessOutput),
    /// The process stopped and has not yet completed.
    Stopped,
    /// The process was killed due to cancellation.
    Cancelled,
}

/// One cause resolving the race the wait loop suspends on.
#[derive(Debug)]
pub enum WaitEvent {
    /// The exit-wait resolved: the child exited with this status.
    Exited(ProcessExitStatus),
    /// The exit-wait resolved with an OS-level error.
    ExitWaitFailed(Error),
    /// The cancellation source fired.
    CancellationFired,
    /// The "terminal stop requested" listener fired.
    StopRequested,
    /// The "some child changed state" listener fired.
    ChildStateChanged,
    /// The "interrupt requested" listener fired.
    InterruptRequested,
}

/// What the wait loop does in response to one event: return a result, fail,
/// terminate the child and report cancellation, or race again.
#[derive(Debug)]
pub enum WaitStep {
    /// Return this result to the caller.
    Complete(ProcessWaitResult),
    /// Propagate this error to the caller.
    Fail(Error),
    /// Issue a best-effort termination request, then report `Cancelled`.
    TerminateThenCancel,
    /// Restart the race without returning.
    ContinueWaiting,
}

/// If `w` reports completion, its captured output is empty; capturing is an
/// external collaborator's responsibility, not this layer's.
pub open spec fn completed_output_is_empty(w: ProcessWaitResult) -> bool {
    w matches ProcessWaitResult::Completed(out) ==> (out.stdout@ == Seq::<u8>::empty()
        && out.stderr@ == Seq::<u8>::empty())
}

/// `w` reports completion with status `st` and empty captured output.
pub open spec fn is_empty_completed_output(w: ProcessWaitResult, st: ProcessExitStatus) -> bool {
    &&& w matches ProcessWaitResult::Completed(out)
    &&& out.status == st
    &&& out.stdout@ == Seq::<u8>::empty()
    &&& out.stderr@ == Seq::<u8>::empty()
}

/// The labeled transition relation of the wait loop on this platform: a
/// natural exit completes with the exit status and empty output; an
/// exit-wait error propagates; a fired cancellation terminates the child and
/// reports `Cancelled`; a stop request reports `Stopped`; a child-state
/// change never finds a stopped child here, so it restarts the race, as does
/// an interrupt (the child is assumed to receive the same interrupt and
/// produce an observable exit later).
pub open spec fn is_wait_transition(event: WaitEvent, step: WaitStep) -> bool {
    match event {
        WaitEvent::Exited(st) => step matches WaitStep::Complete(w)
            && is_empty_completed_output(w, st),
        WaitEvent::ExitWaitFailed(e) => step == WaitStep::Fail(e),
        WaitEvent::CancellationFired => step == WaitStep::TerminateThenCancel,
        WaitEvent::StopRequested => step == WaitStep::Complete(ProcessWaitResult::Stopped),
        WaitEvent::ChildStateChanged => step == WaitStep::ContinueWaiting,
        WaitEvent::InterruptRequested => step == WaitStep::ContinueWaiting,
    }
}

/// Wraps an exit status as the output of a completed process, with empty
/// captured output.
pub fn output_from_status(status: ProcessExitStatus) -> (out: ProcessOutput)
    ensures
        out.status == status,
        out.stdout@ == Seq::<u8>::empty(),
        out.stderr@ == Seq::<u8>::empty(),
{
    ProcessOutput { status, stdout: Vec::new(), stderr: Vec::new() }
}

/// How a non-blocking exit query maps to what `poll` reports: not yet exited
/// maps to nothing, an exit status maps to a completed output with that
/// status and empty captured output, a query failure propagates.
pub open spec fn is_poll_outcome(
    status: Result<Option<ProcessExitStatus>, Error>,
    r: Option<Result<ProcessOutput, Error>>,
) -> bool {
    match status {
        Ok(Some(st)) => r matches Some(Ok(out)) && out.status == st
            && out.stdout@ == Seq::<u8>::empty() && out.stderr@ == Seq::<u8>::empty(),
        Ok(None) => r is None,
        Err(e) => r matches Some(Err(e2)) && e2 == e,
    }
}

/// Maps the result of a non-blocking exit query to what `poll` reports.
pub fn poll_outcome(status: Result<Option<ProcessExitStatus>, Error>) -> (r: Option<
    Result<ProcessOutput, Error>,
>)
    ensures
        is_poll_outcome(status, r),
{
    match status {
        Ok(Some(st)) => Some(Ok(output_from_status(st))),
        Ok(None) => None,
        Err(e) => Some(Err(e)),
    }
}

/// One step of the wait loop's finite-state machine: decides, for the event
/// that won the race, whether to return, fail, terminate-and-cancel, or race
/// again.  A child-state change queries whether any tracked child actually
/// stopped; on this platform none ever is, so that event alone never
/// terminates the loop.
pub fn wait_transition(event: WaitEvent) -> (step: WaitStep)
    ensures
        is_wait_transition(event, step),
{
    match event {
        WaitEvent::Exited(st) => WaitStep::Complete(
            ProcessWaitResult::Completed(output_from_status(st)),
        ),
        WaitEvent::ExitWaitFailed(e) => WaitStep::Fail(e),
        WaitEvent::CancellationFired => WaitStep::TerminateThenCancel,
        WaitEvent::StopRequested => WaitStep::Complete(ProcessWaitResult::Stopped),
        WaitEvent::ChildStateChanged => {
            match poll_for_stopped_children() {
                Ok(true) => WaitStep::Complete(ProcessWaitResult::Stopped),
                Ok(false) => WaitStep::ContinueWaiting,
                Err(e) => WaitStep::Fail(e),
            }
        },
        WaitEvent::InterruptRequested => WaitStep::ContinueWaiting,
    }
}

/// Relies on `tokio::process::Child::try_wait`: returns `Ok(Some(status))`
/// once the child has exited, `Ok(None)` while it is still running, an error
/// if the query failed, all without blocking.  The outcome depends on the
/// state of the child process, so nothing is promised of it here.
#[verifier::external_body]
fn try_wait_status(child: &mut tokio::process::Child) -> (r: Result<
    Option<ProcessExitStatus>,
    Error,
>) {
    match child.try_wait() {
        Ok(Some(status)) => Ok(Some(ProcessExitStatus { code: status.code() })),
        Ok(None) => Ok(None),
        Err(err) => Err(Error::Os(format!("{err}"))),
    }
}

/// Relies on `tokio::process::Child::start_kill`: requests a forced exit of
/// the child without waiting for the request to take effect.  The outcome
/// depends on the state of the child process, so nothing is promised of it.
#[verifier::external_body]
fn start_kill_child(child: &mut tokio::process::Child) -> (r: Result<(), Error>) {
    match child.start_kill() {
        Ok(()) => Ok(()),
        Err(err) => Err(Error::Os(format!("{err}"))),
    }
}

/// Relies on `tokio_util::sync::CancellationToken::is_cancelled`: true
/// exactly when the token has been cancelled.  When it fires depends on the
/// token's other holders, so nothing is promised of the outcome.
#[verifier::external_body]
fn token_is_cancelled(token: &tokio_util::sync::CancellationToken) -> (r: bool) {
    token.is_cancelled()
}

/// Checks the cancellation source without blocking; a caller that supplied
/// no source gets a source that never fires.
pub fn poll_cancellation(cancel_token: &Option<tokio_util::sync::CancellationToken>) -> (r: bool)
    ensures
        cancel_token.is_none() ==> !r,
{
    match cancel_token {
        Some(token) => token_is_cancelled(token),
        None => false,
    }
}

/// Tracks a child process being awaited.
///
/// At most one in-flight `wait` may be active on a given handle at a time;
/// the handle is not internally synchronized for concurrent waiters.
pub struct ChildProcess {
    /// If available, the process ID of the child.
    pub pid: Option<u32>,
    /// Child process handle kept alive for cancellation/termination.
    pub child: tokio::process::Child,
}

impl ChildProcess {
    /// Wraps a child process and its optional process identifier; pure
    /// assembly, no I/O.
    pub fn new(pid: Option<u32>, child: tokio::process::Child) -> (r: Self)
        ensures
            r.pid == pid,
    {
        ChildProcess { pid, child }
    }

    /// Returns the process's ID.
    pub fn pid(&self) -> (r: Option<u32>)
        ensures
            r == self.pid,
    {
        self.pid
    }

    /// Terminates the process: a best-effort kill request.  A failure of the
    /// request itself is deliberately discarded — the caller has already
    /// decided to give up on the child, and a failed kill must not change
    /// the reported outcome.
    pub fn kill(&mut self)
        ensures
            final(self).pid == old(self).pid,
    {
        let _ = start_kill_child(&mut self.child);
    }

    /// Non-blocking check: nothing while the process has not exited, its
    /// exit outcome once it has, an error if querying failed.
    pub fn poll(&mut self) -> (r: Option<Result<ProcessOutput, Error>>)
        ensures
            final(self).pid == old(self).pid,
            r matches Some(Ok(out)) ==> (out.stdout@ == Seq::<u8>::empty()
                && out.stderr@ == Seq::<u8>::empty()),
    {
        let status = try_wait_status(&mut self.child);
        poll_outcome(status)
    }

    /// Evaluates the event sources once, in poll mode: exit-wait first, then
    /// the cancellation source, then the three listeners.  On this platform
    /// the listeners never fire, and an absent cancellation source never
    /// does either.
    fn poll_event(
        &mut self,
        cancel_token: &Option<tokio_util::sync::CancellationToken>,
        sigtstp: &mut FakeSignal,
        sigchld: &mut FakeSignal,
        sigint: &mut FakeSignal,
    ) -> (r: Option<WaitEvent>)
        ensures
            final(self).pid == old(self).pid,
            !(r matches Some(e) && e is StopRequested),
            !(r matches Some(e) && e is ChildStateChanged),
            !(r matches Some(e) && e is InterruptRequested),
            cancel_token.is_none() ==> !(r matches Some(e) && e is CancellationFired),
    {
        match try_wait_status(&mut self.child) {
            Ok(Some(status)) => {
                return Some(WaitEvent::Exited(status));
            },
            Ok(None) => {},
            Err(e) => {
                return Some(WaitEvent::ExitWaitFailed(e));
            },
        }
        if poll_cancellation(cancel_token) {
            return Some(WaitEvent::CancellationFired);
        }
        match sigtstp.try_recv() {
            Some(_) => {
                return Some(WaitEvent::StopRequested);
            },
            None => {},
        }
        match sigchld.try_recv() {
            Some(_) => {
                return Some(WaitEvent::ChildStateChanged);
            },
            None => {},
        }
        match sigint.try_recv() {
            Some(_) => {
                return Some(WaitEvent::InterruptRequested);
            },
            None => {},
        }
        None
    }

    /// One full evaluation of the wait race, in poll mode: evaluates every
    /// event source once without suspending, applies the transition for the
    /// event that fired, and performs its action.  Nothing is returned when
    /// no source is ready or the transition goes back to waiting; the caller
    /// restarts the race.
    ///
    /// The listeners are acquired once by the caller, before its loop, not
    /// per iteration.  The wait loop itself has no bound on its iteration
    /// count (an endlessly-signalled process can keep it racing); on this
    /// platform the listeners never fire, so no evaluation reports
    /// `Stopped`, and none reports `Cancelled` when no cancellation source
    /// was supplied.
    pub fn wait_poll(
        &mut self,
        cancel_token: &Option<tokio_util::sync::CancellationToken>,
        sigtstp: &mut FakeSignal,
        sigchld: &mut FakeSignal,
        sigint: &mut FakeSignal,
    ) -> (r: Option<Result<ProcessWaitResult, Error>>)
        ensures
            final(self).pid == old(self).pid,
            !(r matches Some(Ok(w)) && w is Stopped),
            cancel_token.is_none() ==> !(r matches Some(Ok(w)) && w is Cancelled),
            r matches Some(Ok(w)) ==> completed_output_is_empty(w),
    {
        let event = self.poll_event(cancel_token, sigtstp, sigchld, sigint);
        match event {
            None => None,
            Some(ev) => {
                match wait_transition(ev) {
                    WaitStep::Complete(res) => Some(Ok(res)),
                    WaitStep::Fail(e) => Some(Err(e)),
                    WaitStep::TerminateThenCancel => {
                        // The cancelled outcome is already decided; a failed kill
                        // is swallowed so it is still reported deterministically.
                        self.kill();
                        Some(Ok(ProcessWaitResult::Cancelled))
                    },
                    WaitStep::ContinueWaiting => None,
                }
            },
        }
    }
}

/// Law: without a fired cancellation source and without a stop request, no
/// transition of the wait loop cancels or stops — whichever other event
/// fires, its step completes, fails, or races again.
pub proof fn lemma_wait_without_cancellation_or_stop(event: WaitEvent, step: WaitStep)
    requires
        is_wait_transition(event, step),
        !(event is CancellationFired),
        !(event is StopRequested),
    ensures
        step != WaitStep::TerminateThenCancel,
        !(step matches WaitStep::Complete(w) && w is Stopped),
        step matches WaitStep::Complete(w) ==> w is Completed,
{
}

/// Law: a fired cancellation source is decisive — its transition is exactly
/// the step that terminates the child and reports `Cancelled`.
pub proof fn lemma_cancellation_is_decisive(step: WaitStep)
    requires
        is_wait_transition(WaitEvent::CancellationFired, step),
    ensures
        step == WaitStep::TerminateThenCancel,
{
}

/// Law: `poll` and the wait loop agree on a natural exit — for the same exit
/// status, the output `poll` reports and the output the wait loop completes
/// with carry the same status and the same empty captured output.
pub proof fn lemma_poll_reports_what_wait_reports(
    st: ProcessExitStatus,
    step: WaitStep,
    polled: Option<Result<ProcessOutput, Error>>,
)
    requires
        is_wait_transition(WaitEvent::Exited(st), step),
        is_poll_outcome(Ok(Some(st)), polled),
    ensures
        step matches WaitStep::Complete(w) && w matches ProcessWaitResult::Completed(out)
            && polled matches Some(Ok(pout)) && out.status == pout.status && out.stdout@
            == pout.stdout@ && out.stderr@ == pout.stderr@,
{
}

} // verus!
