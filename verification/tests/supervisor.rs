use supervisor::detector::kill_outcome;
use supervisor::detector::probe_targets;
use supervisor::detector::probe_tick;
use supervisor::detector::wait_outcome;
use supervisor::detector::ExitOutcome;
use supervisor::detector::KillEvent;
use supervisor::detector::ProbeState;
use supervisor::detector::TickEvent;
use supervisor::detector::WaitEvent;
use supervisor::errors::SupervisionError;
use supervisor::report::completion_value;
use supervisor::report::finalize;
use supervisor::request::RequestSpec;
use supervisor::request::Strategy;

// A program that exits 0 with no ports configured yields the completion
// value keyed by the program name.
#[test]
fn clean_exit_without_ports_succeeds() {
    let outcome = wait_outcome("true", WaitEvent::Exited(true));
    assert!(matches!(outcome, ExitOutcome::Success));
    let report = finalize("true", outcome);
    match report {
        Ok(value) => {
            assert_eq!(value.key, "true");
            assert_eq!(value.marker, "success");
        }
        Err(_) => panic!("a clean exit must not be an error"),
    }
}

// A program that exits non-zero with no ports configured fails, and the
// error message contains the program name.
#[test]
fn failed_exit_without_ports_fails() {
    let outcome = wait_outcome("false", WaitEvent::Exited(false));
    match &outcome {
        ExitOutcome::Failure(SupervisionError::ProcessFailure(message)) => {
            assert_eq!(message, "false process failed!");
            assert!(message.contains("false"));
        }
        _ => panic!("a non-zero exit must be a process failure"),
    }
    assert!(matches!(finalize("false", outcome), Err(SupervisionError::ProcessFailure(_))));
}

// A program that exits 0 quickly even though ports are configured succeeds:
// the exit check wins over the still-pending port check.
#[test]
fn quick_clean_exit_beats_configured_ports() {
    let next = probe_tick("true", TickEvent::Exited(true));
    assert!(matches!(next, ProbeState::Done(ExitOutcome::Success)));
}

// A program that exits non-zero fails even though ports were configured: the
// port signal never overrides a genuine exit status.
#[test]
fn quick_failed_exit_beats_configured_ports() {
    let next = probe_tick("false", TickEvent::Exited(false));
    match next {
        ProbeState::Done(ExitOutcome::Failure(SupervisionError::ProcessFailure(message))) => {
            assert_eq!(message, "false process failed!");
        }
        _ => panic!("the exit status must decide the outcome"),
    }
}

// A long-running program that opens one of several configured ports leads to
// the termination step, and a delivered kill completes the invocation.
#[test]
fn open_port_terminates_listener_and_succeeds() {
    let next = probe_tick("listener", TickEvent::StillRunning(vec![false, true, false]));
    assert!(matches!(next, ProbeState::Terminating));
    let outcome = kill_outcome("listener", KillEvent::Delivered);
    assert!(matches!(outcome, ExitOutcome::TerminatedByProbe));
    let report = finalize("listener", outcome);
    match report {
        Ok(value) => {
            assert_eq!(value.key, "listener");
            assert_eq!(value.marker, "success");
        }
        Err(_) => panic!("a terminated listener is a success"),
    }
}

// A single open port is sufficient; nothing is required of the other
// configured ports.
#[test]
fn any_single_open_port_suffices() {
    assert!(matches!(
        probe_tick("srv", TickEvent::StillRunning(vec![true])),
        ProbeState::Terminating
    ));
    assert!(matches!(
        probe_tick("srv", TickEvent::StillRunning(vec![false, false, true])),
        ProbeState::Terminating
    ));
}

// While no configured port answers, the detector keeps polling; refused
// connections are steady state, not errors.
#[test]
fn closed_ports_keep_polling() {
    assert!(matches!(
        probe_tick("srv", TickEvent::StillRunning(vec![false, false])),
        ProbeState::Polling
    ));
    assert!(matches!(
        probe_tick("srv", TickEvent::StillRunning(vec![])),
        ProbeState::Polling
    ));
}

// The benign race: the kill signal is rejected because the child had already
// exited. That is recovered as success, not an error.
#[test]
fn kill_race_with_exit_is_success() {
    let outcome = kill_outcome("srv", KillEvent::AlreadyExited);
    assert!(matches!(outcome, ExitOutcome::TerminatedByProbe));
    assert!(finalize("srv", outcome).is_ok());
}

// Any other kill failure is fatal, and its message names the program and the
// delivery failure.
#[test]
fn kill_failure_is_fatal() {
    let outcome = kill_outcome("srv", KillEvent::Failed(String::from("permission denied")));
    match outcome {
        ExitOutcome::Failure(SupervisionError::Kill(message)) => {
            assert_eq!(message, "Failed to kill srv: permission denied");
        }
        _ => panic!("an undelivered kill must be fatal"),
    }
}

// A failure to read the child's status is a fatal I/O error, distinct from a
// normal non-zero exit, under both strategies.
#[test]
fn status_errors_are_fatal_io() {
    let polled = probe_tick("srv", TickEvent::StatusError(String::from("wait failed")));
    match polled {
        ProbeState::Done(ExitOutcome::Failure(SupervisionError::Io(message))) => {
            assert_eq!(message, "wait failed");
        }
        _ => panic!("a status error must be a fatal I/O error"),
    }
    let waited = wait_outcome("srv", WaitEvent::WaitError(String::from("wait failed")));
    match waited {
        ExitOutcome::Failure(SupervisionError::Io(message)) => {
            assert_eq!(message, "wait failed");
        }
        _ => panic!("a wait error must be a fatal I/O error"),
    }
}

// The completion value for a given program name always has the same literal
// shape: two runs produce structurally identical values.
#[test]
fn completion_value_is_deterministic() {
    let first = completion_value("migrate");
    let second = completion_value("migrate");
    assert_eq!(first.key, second.key);
    assert_eq!(first.marker, second.marker);
    assert_eq!(first.key, "migrate");
    assert_eq!(first.marker, "success");
}

// The error messages are reachable through the accessor, for every kind.
#[test]
fn error_messages_are_exposed() {
    let spawn = SupervisionError::Spawn(String::from("No such file or directory"));
    assert_eq!(spawn.message(), "No such file or directory");
    let io = SupervisionError::Io(String::from("interrupted"));
    assert_eq!(io.message(), "interrupted");
    let failed = SupervisionError::ProcessFailure(String::from("x process failed!"));
    assert_eq!(failed.message(), "x process failed!");
    let kill = SupervisionError::Kill(String::from("Failed to kill x: busy"));
    assert_eq!(kill.message(), "Failed to kill x: busy");
}

// An empty port list selects the wait-only strategy; any port selects the
// polling strategy.
#[test]
fn ports_select_the_strategy() {
    let plain = RequestSpec::new(String::from("true"), vec![], vec![], vec![]).unwrap();
    assert_eq!(plain.strategy(), Strategy::WaitOnly);
    let probed = RequestSpec::new(String::from("true"), vec![], vec![], vec![8080]).unwrap();
    assert_eq!(probed.strategy(), Strategy::WaitOrPortProbe);
}

// A request keeps its fields; an empty program name or a duplicated
// environment key is rejected.
#[test]
fn request_validation() {
    let spec = RequestSpec::new(
        String::from("migrate"),
        vec![String::from("--all")],
        vec![(String::from("MODE"), String::from("fast"))],
        vec![5432, 5433],
    )
    .unwrap();
    assert_eq!(spec.program, "migrate");
    assert_eq!(spec.arguments, vec![String::from("--all")]);
    assert_eq!(spec.environment, vec![(String::from("MODE"), String::from("fast"))]);
    assert_eq!(spec.ports, vec![5432, 5433]);

    assert!(RequestSpec::new(String::new(), vec![], vec![], vec![]).is_none());

    let duplicated = vec![
        (String::from("MODE"), String::from("fast")),
        (String::from("MODE"), String::from("slow")),
    ];
    assert!(RequestSpec::new(String::from("migrate"), vec![], duplicated, vec![]).is_none());
}

// Probe targets pair the loopback address with each configured port, in
// order.
#[test]
fn probe_targets_are_loopback() {
    let targets = probe_targets(&vec![8080, 9090]);
    assert_eq!(targets.len(), 2);
    for (i, port) in [8080u16, 9090u16].iter().enumerate() {
        assert_eq!(targets[i].ip0, 127);
        assert_eq!(targets[i].ip1, 0);
        assert_eq!(targets[i].ip2, 0);
        assert_eq!(targets[i].ip3, 1);
        assert_eq!(targets[i].port, *port);
    }
}
