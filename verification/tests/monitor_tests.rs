use conn_watchdog::args::{Args, LogLevel};
use conn_watchdog::monitor::{liveness_decision, Monitor, TickOutcome};
use conn_watchdog::run;
use conn_watchdog::timer::IdleTimerState;
use procfs::process::Process;

fn own_pid() -> i32 {
    Process::myself().expect("own process must resolve").pid
}

fn own_args() -> Args {
    Args {
        pid: own_pid(),
        port: 8080,
        timeout: 60,
        interval: 5,
        script: "./test.sh".to_string(),
        log_level: LogLevel::Error,
    }
}

#[test]
fn test_monitor_initialization() {
    let args = own_args();
    let monitor = Monitor::new(args).unwrap();
    assert_eq!(monitor.pid, own_pid());
    assert_eq!(monitor.port, 8080);
    assert_eq!(monitor.timeout, 60);
    assert_eq!(monitor.interval, 5);
}

#[test]
fn test_is_process_running() {
    let args = own_args();
    let monitor = Monitor::new(args).unwrap();
    assert!(monitor.is_process_running().unwrap());
}

#[test]
fn test_check_established_connections() {
    let args = own_args();
    let monitor = Monitor::new(args).unwrap();
    let connections = monitor.check_established_connections();
    assert!(connections.unwrap().is_empty());
}

#[test]
fn monitor_new_starts_armed_and_active() {
    let monitor = Monitor::new(own_args()).unwrap();
    assert_eq!(monitor.timer, IdleTimerState::Armed);
    assert!(!monitor.terminated);
    assert_eq!(monitor.script, "./test.sh".to_string());
}

#[test]
fn run_builds_the_monitor() {
    let monitor = run(own_args()).unwrap();
    assert_eq!(monitor.pid, own_pid());
    assert_eq!(monitor.timer, IdleTimerState::Armed);
    assert!(!monitor.terminated);
}

#[test]
fn setup_fails_fast_for_unresolvable_process() {
    let mut args = own_args();
    // A PID outside any realistic pid_max never resolves.
    args.pid = i32::MAX;
    let err = Monitor::new(args).unwrap_err();
    assert!(err.message.contains("Failed to get process info"));
}

#[test]
fn liveness_true_only_for_unchanged_identity() {
    assert!(liveness_decision(Some(41), 41));
    assert!(!liveness_decision(Some(42), 41));
    assert!(!liveness_decision(None, 41));
}

#[test]
fn liveness_false_after_process_exit() {
    let mut monitor = Monitor::new(own_args()).unwrap();
    monitor.pid = i32::MAX;
    assert!(!monitor.is_process_running().unwrap());
}

#[test]
fn liveness_false_on_identity_mismatch() {
    // The identifier still resolves, but the recorded start-time token is
    // from another life: the PID-reuse case must read as gone.
    let mut monitor = Monitor::new(own_args()).unwrap();
    monitor.initial_starttime = monitor.initial_starttime.wrapping_add(1);
    assert!(!monitor.is_process_running().unwrap());
}

#[test]
fn poll_terminates_when_process_is_gone() {
    let mut monitor = Monitor::new(own_args()).unwrap();
    monitor.pid = i32::MAX;
    let outcome = monitor.poll(0).unwrap();
    assert!(matches!(outcome, TickOutcome::Terminated));
    assert!(monitor.terminated);
    assert_eq!(monitor.timer, IdleTimerState::Armed);
}

#[test]
fn poll_samples_own_idle_port() {
    // No connection of this process is ESTABLISHED on port 8080, so the
    // first poll must start the idle timer without firing.
    let mut monitor = Monitor::new(own_args()).unwrap();
    let outcome = monitor.poll(17).unwrap();
    match outcome {
        TickOutcome::Sampled { connections_nonempty, fired } => {
            assert!(!connections_nonempty);
            assert!(!fired);
        }
        _ => panic!("expected a successful sample"),
    }
    assert_eq!(monitor.timer, IdleTimerState::Running { since: 17 });
    assert!(!monitor.terminated);
}
