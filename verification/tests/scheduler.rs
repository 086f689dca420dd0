//! End-to-end scenarios for the scheduling engine.

use cpu_usage::process::Process;
use cpu_usage::process::ProcessKind;
use cpu_usage::process_state::ProcessState;
use cpu_usage::process_tracer::ProcessTracer;

fn intr(name: &str, state: ProcessState, pri: i64, preemptible: bool, period: u64, times: Vec<u64>) -> Process {
    Process::intr(name.to_string(), state, pri, preemptible, period, times)
}

fn task(name: &str, state: ProcessState, pri: i64, preemptible: bool, period: u64, times: Vec<u64>) -> Process {
    Process::task(name.to_string(), state, pri, preemptible, period, times)
}

/// At most one process is Running, here observed at the end of a busy run.
#[test]
fn at_most_one_running() {
    let procs = vec![
        intr("i1", ProcessState::Waiting, 3, true, 7, vec![3]),
        intr("i2", ProcessState::Ready, 2, true, 5, vec![2]),
        task("t1", ProcessState::Ready, 1, true, 11, vec![6]),
    ];
    let mut tracer = ProcessTracer::new(procs, true);
    tracer.run(50);
    let running = tracer
        .procs
        .iter()
        .filter(|p| p.state == ProcessState::Running)
        .count();
    assert!(running <= 1);
}

/// Both activation timers are zero right after an activation completes.
#[test]
fn timers_zero_after_completion() {
    let procs = vec![intr("solo", ProcessState::Waiting, 1, true, 10, vec![3])];
    let mut tracer = ProcessTracer::new(procs, true);
    // Wakes at tick 10, dispatched at 11, completes at 13, then sits Waiting.
    tracer.run(14);
    assert_eq!(tracer.procs[0].state, ProcessState::Waiting);
    assert_eq!(tracer.procs[0].run_timer, 0);
    assert_eq!(tracer.procs[0].ready_timer, 0);
}

/// The busy and idle counters partition the duration exactly.
#[test]
fn busy_plus_idle_is_duration() {
    let procs = vec![
        intr("i1", ProcessState::Waiting, 2, true, 9, vec![4]),
        task("t1", ProcessState::Ready, 1, true, 6, vec![2]),
    ];
    let mut tracer = ProcessTracer::new(procs, false);
    tracer.run(123);
    assert_eq!(tracer.busy_ticks() + tracer.idle_ticks(), 123);
}

/// On equal priority the longer-waiting Ready process is dispatched first,
/// even when it was registered later.
#[test]
fn tie_break_longer_ready_wins() {
    let procs = vec![
        // Wakes at tick 3; by tick 11 it has waited 7 ticks.
        task("late", ProcessState::Waiting, 1, true, 3, vec![5]),
        // Ready from the start; by tick 11 it has waited 10 ticks.
        task("early", ProcessState::Ready, 1, true, 100, vec![5]),
        // Holds the CPU for the first 10 ticks and cannot be displaced.
        intr("hog", ProcessState::Ready, 10, false, 100, vec![10]),
    ];
    let mut tracer = ProcessTracer::new(procs, true);
    // The hog completes at tick 10; at tick 11 both tasks are Ready with
    // equal priority and ready times 7 ("late") and 10 ("early").
    tracer.run(11);
    assert_eq!(tracer.active_proc_idx, Some(1));
    assert_eq!(tracer.procs[1].state, ProcessState::Running);
    assert_eq!(tracer.procs[0].state, ProcessState::Ready);
}

/// On a full tie (priority and ready time equal) the first-registered
/// process is dispatched.
#[test]
fn tie_break_stable_on_full_tie() {
    let procs = vec![
        intr("hog", ProcessState::Ready, 10, false, 100, vec![10]),
        task("a", ProcessState::Ready, 1, true, 100, vec![5]),
        task("b", ProcessState::Ready, 1, true, 100, vec![5]),
    ];
    let mut tracer = ProcessTracer::new(procs, true);
    // Both tasks have waited 10 ticks when the hog completes.
    tracer.run(11);
    assert_eq!(tracer.active_proc_idx, Some(1));
    assert_eq!(tracer.procs[1].state, ProcessState::Running);
    assert_eq!(tracer.procs[2].state, ProcessState::Ready);
}

/// A Ready Task never preempts a Running Interrupt, even with a far higher
/// priority.
#[test]
fn interrupt_immune_to_task() {
    let procs = vec![
        intr("low_intr", ProcessState::Ready, 1, true, 100, vec![10]),
        task("high_task", ProcessState::Waiting, 5, true, 3, vec![2]),
    ];
    let mut tracer = ProcessTracer::new(procs, true);
    // The task wakes at tick 3; the interrupt keeps running regardless.
    tracer.run(6);
    assert_eq!(tracer.procs[0].state, ProcessState::Running);
    assert_eq!(tracer.procs[1].state, ProcessState::Ready);
    assert_eq!(tracer.active_proc_idx, Some(0));
}

/// With task preemption disabled, a higher-priority Ready Task is not
/// dispatched over a Running Task.
#[test]
fn task_preemption_gate_off() {
    let procs = vec![
        task("low", ProcessState::Ready, 1, true, 100, vec![10]),
        task("high", ProcessState::Waiting, 5, true, 3, vec![2]),
    ];
    let mut tracer = ProcessTracer::new(procs, false);
    tracer.run(4);
    assert_eq!(tracer.procs[0].state, ProcessState::Running);
    assert_eq!(tracer.procs[1].state, ProcessState::Ready);
}

/// With task preemption enabled, the same configuration preempts.
#[test]
fn task_preemption_gate_on() {
    let procs = vec![
        task("low", ProcessState::Ready, 1, true, 100, vec![10]),
        task("high", ProcessState::Waiting, 5, true, 3, vec![2]),
    ];
    let mut tracer = ProcessTracer::new(procs, true);
    tracer.run(4);
    assert_eq!(tracer.procs[0].state, ProcessState::Ready);
    assert_eq!(tracer.procs[1].state, ProcessState::Running);
    // The preemption is logged before the dispatch that displaced it.
    let at4: Vec<_> = tracer.trace.iter().filter(|e| e.end == 4).collect();
    assert_eq!(at4.len(), 2);
    assert_eq!(at4[0].process_id, 0);
    assert_eq!(at4[0].state, ProcessState::Running);
    assert_eq!(at4[1].process_id, 1);
    assert_eq!(at4[1].state, ProcessState::Ready);
}

/// A Running process with `preemptible = false` is never displaced, even by
/// a higher-priority Ready Interrupt.
#[test]
fn non_preemptible_runs_to_completion() {
    let procs = vec![
        intr("stubborn", ProcessState::Ready, 1, false, 100, vec![10]),
        intr("urgent", ProcessState::Waiting, 9, true, 3, vec![2]),
    ];
    let mut tracer = ProcessTracer::new(procs, true);
    tracer.run(6);
    assert_eq!(tracer.procs[0].state, ProcessState::Running);
    assert_eq!(tracer.procs[1].state, ProcessState::Ready);
}

/// A process with execution times `[100, 50]` alternates 100-tick and
/// 50-tick activations.
#[test]
fn cyclic_execution_times_alternate() {
    let procs = vec![intr("cyc", ProcessState::Waiting, 1, true, 500, vec![100, 50])];
    let mut tracer = ProcessTracer::new(procs, true);
    tracer.run(1600);
    let completions: Vec<(u64, u64)> = tracer
        .trace
        .iter()
        .filter(|e| e.state == ProcessState::Running)
        .map(|e| (e.begin, e.end))
        .collect();
    // Dispatched at 501, 1001 and 1501; Running for 100, 50 and 100 ticks.
    assert_eq!(completions, vec![(501, 600), (1001, 1050), (1501, 1600)]);
}

/// An activation that spans a whole new period is flagged as an overrun on
/// the event that closes it, and the peak occupancy exceeds 100 %.
#[test]
fn overrun_detected() {
    let procs = vec![intr("over", ProcessState::Waiting, 1, true, 500, vec![600])];
    let mut tracer = ProcessTracer::new(procs, true);
    // Wakes at 500, dispatched at 501, completes only at tick 1100.
    tracer.run(1101);
    let completions: Vec<&cpu_usage::process::TraceEvent> = tracer
        .trace
        .iter()
        .filter(|e| e.state == ProcessState::Running)
        .collect();
    assert_eq!(completions.len(), 1);
    assert_eq!(completions[0].begin, 501);
    assert_eq!(completions[0].end, 1100);
    assert!(completions[0].overrun);
    let results = tracer.proc_results();
    // 600 Running ticks against a period of 500: 120 %.
    assert_eq!(results[0].peak_occupancy, 12_000);
    assert_eq!(results[0].peak_tick, 1100);
    assert!(results[0].delayed);
}

/// Two synchronized interrupts, priorities 2 and 1, period 500, execution
/// time 100, over 5000 ticks: the higher-priority one is never delayed and
/// peaks at 20 %; the lower one always waits out the other's burst and
/// peaks at 40 %; no overruns occur; the CPU is busy for exactly the nine
/// non-overlapping 200-tick bursts.
#[test]
fn two_interrupts_end_to_end() {
    let procs = vec![
        intr("fast", ProcessState::Waiting, 2, true, 500, vec![100]),
        intr("slow", ProcessState::Waiting, 1, true, 500, vec![100]),
    ];
    let mut tracer = ProcessTracer::new(procs, true);
    tracer.run(5000);
    assert!(tracer.trace.iter().all(|e| !e.overrun));
    let results = tracer.proc_results();
    assert_eq!(results[0].peak_occupancy, 2_000);
    assert_eq!(results[0].peak_tick, 600);
    assert!(!results[0].delayed);
    assert_eq!(results[1].peak_occupancy, 4_000);
    assert_eq!(results[1].peak_tick, 700);
    assert!(!results[1].delayed);
    assert_eq!(tracer.busy_ticks(), 1800);
    assert_eq!(tracer.idle_ticks(), 3200);
    // 1800 busy ticks out of 5000: 36 %.
    assert_eq!(tracer.cpu_use_rate, 3_600);
}

/// Replaying the identical configuration produces an identical event
/// stream and identical results.
#[test]
fn replay_is_deterministic() {
    let build = || {
        vec![
            intr("i1", ProcessState::Waiting, 3, true, 7, vec![3, 1]),
            task("t1", ProcessState::Ready, 2, true, 11, vec![5]),
            task("t2", ProcessState::Ready, 2, false, 13, vec![2]),
        ]
    };
    let mut a = ProcessTracer::new(build(), true);
    let mut b = ProcessTracer::new(build(), true);
    a.run(400);
    b.run(400);
    assert_eq!(a.trace.len(), b.trace.len());
    for (x, y) in a.trace.iter().zip(b.trace.iter()) {
        assert_eq!(x.process_id, y.process_id);
        assert_eq!(x.process_name, y.process_name);
        assert_eq!(x.state, y.state);
        assert_eq!(x.begin, y.begin);
        assert_eq!(x.end, y.end);
        assert_eq!(x.overrun, y.overrun);
    }
    assert_eq!(a.cpu_use_rate, b.cpu_use_rate);
    assert_eq!(a.busy_ticks(), b.busy_ticks());
}

/// The exact event stream of a minimal run: wake, dispatch, completion.
#[test]
fn event_stream_of_minimal_run() {
    let procs = vec![intr("one", ProcessState::Waiting, 1, true, 2, vec![1])];
    let mut tracer = ProcessTracer::new(procs, true);
    tracer.run(3);
    assert_eq!(tracer.trace.len(), 3);
    // Tick 2: the period elapses; the Waiting interval [0, 2] closes.
    assert_eq!(tracer.trace[0].process_id, 0);
    assert_eq!(tracer.trace[0].process_name, "one");
    assert_eq!(tracer.trace[0].state, ProcessState::Waiting);
    assert_eq!(tracer.trace[0].begin, 0);
    assert_eq!(tracer.trace[0].end, 2);
    assert!(!tracer.trace[0].overrun);
    // Tick 3: dispatch; the Ready interval [2, 3] closes.
    assert_eq!(tracer.trace[1].state, ProcessState::Ready);
    assert_eq!(tracer.trace[1].begin, 2);
    assert_eq!(tracer.trace[1].end, 3);
    // Tick 3: the single execution tick completes; Running interval closes.
    assert_eq!(tracer.trace[2].state, ProcessState::Running);
    assert_eq!(tracer.trace[2].begin, 3);
    assert_eq!(tracer.trace[2].end, 3);
    assert_eq!(tracer.busy_ticks(), 1);
    assert_eq!(tracer.idle_ticks(), 2);
}

/// A process that starts Ready is dispatched on the first tick.
#[test]
fn initial_ready_dispatches_first_tick() {
    let procs = vec![task("eager", ProcessState::Ready, 1, true, 50, vec![5])];
    let mut tracer = ProcessTracer::new(procs, true);
    tracer.run(1);
    assert_eq!(tracer.procs[0].state, ProcessState::Running);
    assert_eq!(tracer.trace.len(), 1);
    assert_eq!(tracer.trace[0].state, ProcessState::Ready);
    assert_eq!(tracer.trace[0].begin, 0);
    assert_eq!(tracer.trace[0].end, 1);
    assert_eq!(tracer.busy_ticks(), 1);
}

/// With no process registered, every tick is idle and no event is emitted.
#[test]
fn empty_process_set_idles() {
    let mut tracer = ProcessTracer::new(vec![], true);
    tracer.run(5);
    assert_eq!(tracer.busy_ticks(), 0);
    assert_eq!(tracer.idle_ticks(), 5);
    assert_eq!(tracer.cpu_use_rate, 0);
    assert!(tracer.trace.is_empty());
    assert!(tracer.proc_results().is_empty());
}

/// A process whose period never elapses keeps the CPU idle.
#[test]
fn all_waiting_stays_idle() {
    let procs = vec![intr("sleepy", ProcessState::Waiting, 1, true, 1000, vec![5])];
    let mut tracer = ProcessTracer::new(procs, true);
    tracer.run(10);
    assert_eq!(tracer.busy_ticks(), 0);
    assert_eq!(tracer.idle_ticks(), 10);
    assert_eq!(tracer.procs[0].state, ProcessState::Waiting);
    assert!(tracer.trace.is_empty());
}

/// Identities are assigned in registration order and carried on events.
#[test]
fn ids_follow_registration_order() {
    let procs = vec![
        intr("first", ProcessState::Waiting, 1, true, 4, vec![1]),
        intr("second", ProcessState::Waiting, 2, true, 4, vec![1]),
    ];
    let tracer = ProcessTracer::new(procs, true);
    assert_eq!(tracer.procs[0].id, 0);
    assert_eq!(tracer.procs[0].name, "first");
    assert_eq!(tracer.procs[1].id, 1);
    assert_eq!(tracer.procs[1].name, "second");
}
