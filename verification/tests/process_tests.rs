use pi_natives::error::Error;
use pi_natives::process::{
    output_from_status, poll_outcome, wait_transition, ChildProcess, ProcessExitStatus,
    ProcessOutput, ProcessWaitResult, WaitEvent, WaitStep,
};
use pi_natives::signal::{chld_signal_listener, tstp_signal_listener, FakeSignal};

fn runtime() -> tokio::runtime::Runtime {
    tokio::runtime::Builder::new_multi_thread()
        .enable_all()
        .build()
        .unwrap()
}

fn spawn(rt: &tokio::runtime::Runtime, program: &str, args: &[&str]) -> ChildProcess {
    let _guard = rt.enter();
    let mut command = tokio::process::Command::new(program);
    for arg in args {
        command.arg(arg);
    }
    let child = command.spawn().unwrap();
    let pid = child.id();
    ChildProcess::new(pid, child)
}

fn drive_wait(
    child: &mut ChildProcess,
    cancel_token: Option<tokio_util::sync::CancellationToken>,
) -> Result<ProcessWaitResult, Error> {
    let mut tstp = tstp_signal_listener().unwrap();
    let mut chld = chld_signal_listener().unwrap();
    let mut intr = FakeSignal::new();
    loop {
        if let Some(result) = child.wait_poll(&cancel_token, &mut tstp, &mut chld, &mut intr) {
            return result;
        }
    }
}

#[test]
fn new_keeps_the_pid() {
    let rt = runtime();
    let mut child = spawn(&rt, "sleep", &["0.05"]);
    assert!(child.pid().is_some());
    let _ = drive_wait(&mut child, None);
}

#[test]
fn wait_on_natural_exit_completes_successfully_after_the_child_ran() {
    let rt = runtime();
    let started = std::time::Instant::now();
    let mut child = spawn(&rt, "sleep", &["0.05"]);
    let result = drive_wait(&mut child, None);
    let elapsed = started.elapsed();
    match result {
        Ok(ProcessWaitResult::Completed(out)) => {
            assert!(out.status.success());
            assert_eq!(out.status.code(), Some(0));
            assert!(out.stdout.is_empty());
            assert!(out.stderr.is_empty());
        }
        other => panic!("expected completion, got {:?}", other),
    }
    assert!(elapsed.as_millis() >= 50);
}

#[test]
fn wait_reports_the_exit_code() {
    let rt = runtime();
    let mut child = spawn(&rt, "sh", &["-c", "exit 3"]);
    let result = drive_wait(&mut child, None);
    match result {
        Ok(ProcessWaitResult::Completed(out)) => {
            assert!(!out.status.success());
            assert_eq!(out.status.code(), Some(3));
        }
        other => panic!("expected completion, got {:?}", other),
    }
}

#[test]
fn prefired_cancellation_cancels_promptly_and_the_child_goes_away() {
    let rt = runtime();
    let mut child = spawn(&rt, "sleep", &["10"]);
    let token = tokio_util::sync::CancellationToken::new();
    token.cancel();
    let started = std::time::Instant::now();
    let result = drive_wait(&mut child, Some(token));
    assert!(matches!(result, Ok(ProcessWaitResult::Cancelled)));
    assert!(started.elapsed().as_secs() < 5);
    // After the termination attempt the process stops running: poll
    // eventually reports its exit rather than nothing.
    let deadline = std::time::Instant::now() + std::time::Duration::from_secs(5);
    loop {
        match child.poll() {
            Some(Ok(_)) => break,
            Some(Err(e)) => panic!("poll failed: {:?}", e),
            None => assert!(std::time::Instant::now() < deadline, "child still running"),
        }
    }
}

#[test]
fn poll_is_none_before_exit_and_agrees_with_wait_after() {
    let rt = runtime();
    let mut child = spawn(&rt, "sleep", &["0.3"]);
    assert!(child.poll().is_none());
    let waited = drive_wait(&mut child, None);
    let wait_status = match waited {
        Ok(ProcessWaitResult::Completed(out)) => out.status,
        other => panic!("expected completion, got {:?}", other),
    };
    // The exit status stays queryable after the wait and matches it.
    match child.poll() {
        Some(Ok(out)) => {
            assert_eq!(out.status.code(), wait_status.code());
            assert!(out.stdout.is_empty());
            assert!(out.stderr.is_empty());
        }
        other => panic!("expected the recorded exit, got {:?}", other),
    }
}

#[test]
fn kill_terminates_a_long_running_child() {
    let rt = runtime();
    let mut child = spawn(&rt, "sleep", &["10"]);
    child.kill();
    let result = drive_wait(&mut child, None);
    match result {
        Ok(ProcessWaitResult::Completed(out)) => assert!(!out.status.success()),
        other => panic!("expected completion after kill, got {:?}", other),
    }
}

#[test]
fn transition_on_exit_completes_with_that_status_and_empty_output() {
    let status = ProcessExitStatus { code: Some(7) };
    match wait_transition(WaitEvent::Exited(status)) {
        WaitStep::Complete(ProcessWaitResult::Completed(out)) => {
            assert_eq!(out.status.code(), Some(7));
            assert!(out.stdout.is_empty());
            assert!(out.stderr.is_empty());
        }
        other => panic!("expected completion, got {:?}", other),
    }
}

#[test]
fn transition_on_exit_failure_propagates_the_error() {
    let step = wait_transition(WaitEvent::ExitWaitFailed(Error::FailedToSendSignal));
    assert!(matches!(step, WaitStep::Fail(Error::FailedToSendSignal)));
}

#[test]
fn transition_on_cancellation_terminates_then_cancels() {
    let step = wait_transition(WaitEvent::CancellationFired);
    assert!(matches!(step, WaitStep::TerminateThenCancel));
}

#[test]
fn transition_on_stop_request_stops() {
    let step = wait_transition(WaitEvent::StopRequested);
    assert!(matches!(step, WaitStep::Complete(ProcessWaitResult::Stopped)));
}

#[test]
fn transition_on_informational_events_races_again() {
    assert!(matches!(
        wait_transition(WaitEvent::ChildStateChanged),
        WaitStep::ContinueWaiting
    ));
    assert!(matches!(
        wait_transition(WaitEvent::InterruptRequested),
        WaitStep::ContinueWaiting
    ));
}

#[test]
fn poll_outcome_maps_every_query_result() {
    let status = ProcessExitStatus { code: Some(0) };
    match poll_outcome(Ok(Some(status))) {
        Some(Ok(out)) => {
            assert_eq!(out.status.code(), Some(0));
            assert!(out.stdout.is_empty());
            assert!(out.stderr.is_empty());
        }
        other => panic!("expected a completed outcome, got {:?}", other),
    }
    assert!(poll_outcome(Ok(None)).is_none());
    assert!(matches!(
        poll_outcome(Err(Error::FailedToSendSignal)),
        Some(Err(Error::FailedToSendSignal))
    ));
}

#[test]
fn output_from_status_keeps_the_status_and_captures_nothing() {
    let out: ProcessOutput = output_from_status(ProcessExitStatus { code: None });
    assert_eq!(out.status.code(), None);
    assert!(!out.status.success());
    assert!(out.status.signal().is_none());
    assert!(out.stdout.is_empty());
    assert!(out.stderr.is_empty());
}
