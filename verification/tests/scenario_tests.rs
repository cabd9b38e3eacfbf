use watchdog::lookup::ProcessIdentity;
use watchdog::messages;
use watchdog::monitor::{
    plan_startup, MonitorAction, MonitorEvent, MonitorMachine, MonitorPhase, StartupDecision,
    WaitOutcome,
};
use watchdog::reader::{reader_step, ReaderDecision};
use watchdog::signal::CancellationState;
use watchdog::timing::{hours_to_seconds, timer_tick, TickDecision};

fn notepad_identity() -> ProcessIdentity {
    ProcessIdentity { pid: 1234, path: b"C:\\Windows\\notepad.exe".to_vec() }
}

#[test]
fn monitor_runs_a_full_cycle() {
    let m = MonitorMachine::new(3600);
    assert!(matches!(m.phase, MonitorPhase::Idle));

    let (m, a) = m.step(MonitorEvent::SignalObserved(false));
    assert!(matches!(a, MonitorAction::Lookup));

    let (m, a) = m.step(MonitorEvent::LookupCompleted(Some(notepad_identity())));
    assert!(matches!(a, MonitorAction::Wait(3600)));

    let (m, a) = m.step(MonitorEvent::WaitCompleted(WaitOutcome::TimedOut));
    match a {
        MonitorAction::Restart(id) => {
            assert_eq!(id.pid, 1234);
            assert_eq!(id.path, b"C:\\Windows\\notepad.exe".to_vec());
        }
        _ => panic!("expected a restart action"),
    }

    let (m, a) = m.step(MonitorEvent::RestartCompleted(Ok(())));
    assert!(matches!(a, MonitorAction::ObserveSignal));
    assert!(matches!(m.phase, MonitorPhase::Idle));
    assert_eq!(m.interval_secs, 3600);
}

#[test]
fn monitor_cancelled_wait_skips_the_restart() {
    let m = MonitorMachine::new(3600);
    let (m, _) = m.step(MonitorEvent::SignalObserved(false));
    let (m, _) = m.step(MonitorEvent::LookupCompleted(Some(notepad_identity())));
    let (m, a) = m.step(MonitorEvent::WaitCompleted(WaitOutcome::Cancelled));
    assert!(matches!(a, MonitorAction::Stop));
    assert!(matches!(m.phase, MonitorPhase::Stopped));
}

#[test]
fn monitor_vanished_target_is_fatal() {
    let m = MonitorMachine::new(3600);
    let (m, _) = m.step(MonitorEvent::SignalObserved(false));
    let (m, a) = m.step(MonitorEvent::LookupCompleted(None));
    assert!(matches!(a, MonitorAction::ReportNotFoundAndStop));
    assert!(matches!(m.phase, MonitorPhase::Stopped));

    // The fatal path propagates: the signal is set, and the command reader
    // observes it within its next bounded-wait cycle and returns.
    let mut signal = CancellationState::new();
    signal.request_exit();
    assert!(matches!(reader_step(signal.is_set(), None), ReaderDecision::Stop));
}

#[test]
fn monitor_failed_restart_keeps_the_cadence() {
    let m = MonitorMachine::new(7200);
    let (m, _) = m.step(MonitorEvent::SignalObserved(false));
    let (m, _) = m.step(MonitorEvent::LookupCompleted(Some(notepad_identity())));
    let (m, _) = m.step(MonitorEvent::WaitCompleted(WaitOutcome::TimedOut));
    let (m, a) = m.step(MonitorEvent::RestartCompleted(Err(String::from("spawn refused"))));
    match a {
        MonitorAction::ReportFailureAndObserve(detail) => {
            assert_eq!(
                messages::restart_failure_line(&detail),
                "Failed to restart process: spawn refused"
            );
        }
        _ => panic!("expected a failure report"),
    }
    // The cycle was abandoned, not retried: the loop is back at its top
    // with the same interval, so the next wait uses the same cadence.
    assert!(matches!(m.phase, MonitorPhase::Idle));
    assert_eq!(m.interval_secs, 7200);
    let (_, a) = m.step(MonitorEvent::SignalObserved(false));
    assert!(matches!(a, MonitorAction::Lookup));
}

#[test]
fn monitor_stopped_stays_stopped() {
    let m = MonitorMachine::new(60);
    let (m, _) = m.step(MonitorEvent::SignalObserved(true));
    assert!(matches!(m.phase, MonitorPhase::Stopped));
    let (m, a) = m.step(MonitorEvent::SignalObserved(false));
    assert!(matches!(m.phase, MonitorPhase::Stopped));
    assert!(matches!(a, MonitorAction::Stop));
}

#[test]
fn found_target_with_zero_interval_restarts_at_once() {
    // Interval 0 hours: the wait duration is 0 seconds, so the very first
    // wait times out and the restart cycle fires immediately.
    let secs = hours_to_seconds(0).expect("0 hours always fits");
    assert_eq!(secs, 0);
    let m = MonitorMachine::new(secs);
    let (m, _) = m.step(MonitorEvent::SignalObserved(false));
    let (m, a) = m.step(MonitorEvent::LookupCompleted(Some(notepad_identity())));
    assert!(matches!(a, MonitorAction::Wait(0)));
    let (_, a) = m.step(MonitorEvent::WaitCompleted(WaitOutcome::TimedOut));
    assert!(matches!(a, MonitorAction::Restart(_)));
}

#[test]
fn missing_target_at_startup_starts_no_loop() {
    // A failed startup lookup reports "Process not found." exactly once
    // and never constructs a monitor.
    let mut lines: Vec<String> = Vec::new();
    match plan_startup(None, b'\\') {
        StartupDecision::NotFound => lines.push(messages::not_found_line()),
        StartupDecision::Proceed { .. } => panic!("nonexistent target must not proceed"),
    }
    assert_eq!(lines, vec![String::from("Process not found.")]);
}

#[test]
fn operator_exit_command_prints_one_confirmation() {
    // Operator types "1": the only line printed afterwards is the exit
    // confirmation, and every loop observes the signal and stops.
    let mut signal = CancellationState::new();
    let mut lines: Vec<String> = Vec::new();
    match reader_step(signal.is_set(), Some(String::from("1"))) {
        ReaderDecision::AcceptExit => {
            signal.request_exit();
            lines.push(messages::exit_confirmation_line());
        }
        _ => panic!("expected the exit command to be accepted"),
    }
    assert_eq!(lines, vec![String::from("Exiting program.")]);
    assert!(signal.is_set());

    // Both sibling loops join without further restart activity.
    let m = MonitorMachine::new(3600);
    let (m, a) = m.step(MonitorEvent::SignalObserved(signal.is_set()));
    assert!(matches!(a, MonitorAction::Stop));
    assert!(matches!(m.phase, MonitorPhase::Stopped));
    assert!(matches!(timer_tick(signal.is_set(), 3599), TickDecision::Stop));
}

#[test]
fn invalid_option_reprompts_then_exits() {
    // Operator types "2", then "1": one invalid-option reply with the menu
    // reprinted, then the normal exit.
    let mut signal = CancellationState::new();
    let mut lines: Vec<String> = Vec::new();
    match reader_step(signal.is_set(), Some(String::from("2"))) {
        ReaderDecision::RepromptInvalid { echo } => {
            lines.push(messages::invalid_option_line(&echo));
            lines.push(messages::menu_line());
        }
        _ => panic!("expected an invalid-option reprompt"),
    }
    match reader_step(signal.is_set(), Some(String::from("1"))) {
        ReaderDecision::AcceptExit => {
            signal.request_exit();
            lines.push(messages::exit_confirmation_line());
        }
        _ => panic!("expected the exit command to be accepted"),
    }
    assert_eq!(
        lines,
        vec![
            String::from("Invalid option 2. Please select a valid option."),
            String::from("1. Exit"),
            String::from("Exiting program."),
        ]
    );
}

#[test]
fn reader_handles_every_input_shape() {
    assert!(matches!(reader_step(true, None), ReaderDecision::Stop));
    assert!(matches!(
        reader_step(true, Some(String::from("1"))),
        ReaderDecision::Stop
    ));
    assert!(matches!(reader_step(false, None), ReaderDecision::Idle));
    assert!(matches!(
        reader_step(false, Some(String::from(" 1 \n"))),
        ReaderDecision::AcceptExit
    ));
    assert!(matches!(
        reader_step(false, Some(String::from("  \r\n"))),
        ReaderDecision::RepromptEmpty
    ));
    match reader_step(false, Some(String::from("exit"))) {
        ReaderDecision::RepromptInvalid { echo } => assert_eq!(echo, "exit"),
        _ => panic!("expected an invalid-option reprompt"),
    }
}
