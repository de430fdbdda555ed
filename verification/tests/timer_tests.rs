use conn_watchdog::args::{Args, LogLevel};
use conn_watchdog::monitor::{filter_established, Monitor};
use conn_watchdog::probe::TcpEntry;
use conn_watchdog::timer::{on_sample, IdleTimerState};
use procfs::process::Process;

fn own_args() -> Args {
    Args {
        pid: Process::myself().expect("own process must resolve").pid,
        port: 9000,
        timeout: 10,
        interval: 5,
        script: "./test.sh".to_string(),
        log_level: LogLevel::Error,
    }
}

/// Replays a run of samples `(nonempty, at)` and returns the final state and
/// the instants at which the action fired.
fn replay(mut state: IdleTimerState, samples: &[(bool, u64)], timeout: u64) -> (IdleTimerState, Vec<u64>) {
    let mut firings = Vec::new();
    for &(nonempty, at) in samples {
        let (next, fired) = on_sample(state, nonempty, at, timeout);
        state = next;
        if fired {
            firings.push(at);
        }
    }
    (state, firings)
}

#[test]
fn active_connections_never_fire() {
    let samples = [(true, 0), (true, 5), (true, 10), (true, 100), (true, 1000)];
    let (state, firings) = replay(IdleTimerState::Armed, &samples, 3);
    assert_eq!(state, IdleTimerState::Armed);
    assert!(firings.is_empty());
}

#[test]
fn empty_sample_starts_timer_and_activity_resets_it() {
    let (state, fired) = on_sample(IdleTimerState::Armed, false, 4, 60);
    assert_eq!(state, IdleTimerState::Running { since: 4 });
    assert!(!fired);
    let (state, fired) = on_sample(state, true, 9, 60);
    assert_eq!(state, IdleTimerState::Armed);
    assert!(!fired);
}

#[test]
fn fires_once_per_elapsed_timeout() {
    // timeout 10, interval 5: an unbroken idle run fires at 10 and at 20,
    // i.e. floor(elapsed / timeout) times.
    let samples = [(false, 0), (false, 5), (false, 10), (false, 15), (false, 20)];
    let (state, firings) = replay(IdleTimerState::Armed, &samples, 10);
    assert_eq!(firings, vec![10, 20]);
    assert_eq!(state, IdleTimerState::Running { since: 20 });
}

#[test]
fn zero_timeout_fires_on_first_running_sample() {
    let (state, fired) = on_sample(IdleTimerState::Armed, false, 0, 0);
    assert_eq!(state, IdleTimerState::Running { since: 0 });
    assert!(!fired);
    let (state, fired) = on_sample(state, false, 5, 0);
    assert!(fired);
    assert_eq!(state, IdleTimerState::Running { since: 5 });
}

#[test]
fn idle_scenario_fires_at_ten_and_twenty() {
    // port 9000, timeout 10 s, interval 5 s; samples at 0, 5, 10, 15, 20
    // all empty: the action fires at 10 and again at 20.
    let mut monitor = Monitor::new(own_args()).unwrap();
    let mut firings = Vec::new();
    for at in [0u64, 5, 10, 15, 20] {
        if monitor.on_sample(false, at) {
            firings.push(at);
        }
    }
    assert_eq!(firings, vec![10, 20]);
}

#[test]
fn activity_at_twelve_resets_the_cycle() {
    // The same idle run, but a connection shows up at t=12: the timer
    // re-arms and nothing fires at 15 or 20.
    let mut monitor = Monitor::new(own_args()).unwrap();
    let mut firings = Vec::new();
    for (nonempty, at) in [(false, 0u64), (false, 5), (false, 10), (true, 12), (false, 15), (false, 20)] {
        if monitor.on_sample(nonempty, at) {
            firings.push(at);
        }
    }
    assert_eq!(firings, vec![10]);
    assert_eq!(monitor.timer, IdleTimerState::Running { since: 15 });
}

#[test]
fn transient_failure_leaves_timer_as_if_skipped() {
    // Query failure at t=5 while the process is alive: at t=10 the timer is
    // exactly what it would have been had the t=5 tick not happened.
    let mut with_failure = Monitor::new(own_args()).unwrap();
    assert!(!with_failure.on_sample(false, 0));
    with_failure.on_query_failure(true);
    let fired_at_ten = with_failure.on_sample(false, 10);

    let mut skipped = Monitor::new(own_args()).unwrap();
    assert!(!skipped.on_sample(false, 0));
    let skipped_fired_at_ten = skipped.on_sample(false, 10);

    assert_eq!(fired_at_ten, skipped_fired_at_ten);
    assert_eq!(with_failure.timer, skipped.timer);
    assert!(!with_failure.terminated);
}

#[test]
fn dead_process_verdict_terminates_without_firing() {
    let mut monitor = Monitor::new(own_args()).unwrap();
    assert!(!monitor.on_sample(false, 0));
    monitor.on_query_failure(false);
    assert!(monitor.terminated);
    assert_eq!(monitor.timer, IdleTimerState::Running { since: 0 });
}

#[test]
fn filter_keeps_only_established_rows_on_the_port() {
    let rows = vec![
        TcpEntry { local_port: 9000, established: true },
        TcpEntry { local_port: 9000, established: false },
        TcpEntry { local_port: 80, established: true },
        TcpEntry { local_port: 9000, established: true },
    ];
    let kept = filter_established(&rows, 9000);
    assert_eq!(
        kept,
        vec![
            TcpEntry { local_port: 9000, established: true },
            TcpEntry { local_port: 9000, established: true },
        ]
    );
}

#[test]
fn filter_of_empty_table_is_empty() {
    let rows: Vec<TcpEntry> = Vec::new();
    assert!(filter_established(&rows, 9000).is_empty());
}
