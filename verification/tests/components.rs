//! Unit-level checks of the library's smaller pieces.

use cpu_usage::process::Process;
use cpu_usage::process::ProcessKind;
use cpu_usage::process_state::ProcessState;
use cpu_usage::process_time::ProcessTime;
use cpu_usage::profile_if::ProfileIF;

#[test]
fn state_labels() {
    assert_eq!(ProcessState::Dormant.label(), "DORMANT");
    assert_eq!(ProcessState::Waiting.label(), "WAITING");
    assert_eq!(ProcessState::Ready.label(), "READY");
    assert_eq!(ProcessState::Running.label(), "RUNNING");
}

#[test]
fn process_time_holds_figures() {
    let pt = ProcessTime::new(500, vec![100, 50]);
    assert_eq!(pt.cycle, 500);
    assert_eq!(pt.proc, vec![100, 50]);
}

#[test]
fn profile_if_starts_with_input_path() {
    let p = ProfileIF::new("trace.txt".to_string());
    assert_eq!(p.input_file_path, "trace.txt");
    assert_eq!(p.output_file_path, "");
}

#[test]
fn constructors_set_definition() {
    let p = Process::new(
        ProcessKind::Task,
        "worker".to_string(),
        ProcessState::Waiting,
        7,
        false,
        250,
        vec![20, 10],
    );
    assert_eq!(p.name, "worker");
    assert_eq!(p.kind, ProcessKind::Task);
    assert_eq!(p.priority, 7);
    assert!(!p.preemptible);
    assert_eq!(p.period, 250);
    assert_eq!(p.execution_times, vec![20, 10]);
    assert_eq!(p.exec_index, 0);
    assert_eq!(p.state, ProcessState::Waiting);
    assert_eq!(p.period_timer, 0);
    assert_eq!(p.ready_timer, 0);
    assert_eq!(p.run_timer, 0);
    assert_eq!(p.peak_occupancy, 0);
    assert!(!p.overrun_pending);

    let i = Process::intr("irq".to_string(), ProcessState::Ready, 3, true, 40, vec![5]);
    assert_eq!(i.kind, ProcessKind::Interrupt);
    assert_eq!(i.state, ProcessState::Ready);

    let t = Process::task("job".to_string(), ProcessState::Ready, 1, true, 40, vec![5]);
    assert_eq!(t.kind, ProcessKind::Task);
}

/// Driving one process by hand through a full activation.
#[test]
fn single_process_walkthrough() {
    let mut p = Process::intr("irq".to_string(), ProcessState::Waiting, 1, true, 3, vec![2]);
    assert!(p.is_waiting());
    assert!(p.go(1, 1).is_none());
    assert!(p.go(2, 1).is_none());
    // The period elapses on the third tick: the process wakes.
    let ev = p.go(3, 1).expect("wake event");
    assert!(p.is_ready());
    assert_eq!(ev.state, ProcessState::Waiting);
    assert_eq!(ev.begin, 0);
    assert_eq!(ev.end, 3);
    assert_eq!(p.period_timer, 0);
    // The tracer would dispatch it now.
    let ev = p.dispatch(4);
    assert!(p.is_running());
    assert_eq!(ev.state, ProcessState::Ready);
    assert_eq!(ev.begin, 3);
    assert_eq!(ev.end, 4);
    assert!(p.go(4, 1).is_none());
    // The second Running tick reaches the execution time: completion.
    let ev = p.go(5, 1).expect("completion event");
    assert!(p.is_waiting());
    assert_eq!(ev.state, ProcessState::Running);
    assert_eq!(ev.begin, 4);
    assert_eq!(ev.end, 5);
    assert!(!ev.overrun);
    assert_eq!(p.run_timer, 0);
    assert_eq!(p.ready_timer, 0);
    // Two Running ticks and no Ready time against a period of 3, truncated
    // to hundredths of a percent: 66.66 %.
    assert_eq!(p.peak_occupancy, 6_666);
    assert_eq!(p.peak_tick, 5);
}

/// Preempting by hand closes the Running interval and returns to Ready.
#[test]
fn preempt_returns_to_ready() {
    let mut p = Process::task("job".to_string(), ProcessState::Ready, 1, true, 10, vec![5]);
    p.dispatch(1);
    assert!(p.is_running());
    let ev = p.preempt(3);
    assert!(p.is_ready());
    assert_eq!(ev.state, ProcessState::Running);
    assert_eq!(ev.begin, 1);
    assert_eq!(ev.end, 3);
}
