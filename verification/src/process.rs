//! One simulated process: its static definition (kind, priority, period,
//! execution times) and its run-time state (lifecycle state, timers, peak
//! occupancy), advanced one elapsed interval at a time.
//!
//! Every mutating method is proved equal to a spec-level transition function
//! over [`ProcessModel`], so the whole per-process state machine is a
//! mathematical function of its inputs.

use vstd::prelude::*;

use crate::process_state::ProcessState;

verus! {

/// Every simulated clock value (ticks, timers, durations) stays at or below
/// this bound, so that the timer and occupancy arithmetic cannot overflow.
pub const MAX_SIM_TIME: u64 = 1_000_000_000_000;

/// Occupancy percentages are carried as integers in hundredths of a percent:
/// an occupancy of `12_345` units means 123.45 %.
pub const OCCUPANCY_SCALE: u64 = 10_000;

/// Kind of a process: interrupt handlers are never preempted by tasks, and
/// task-to-task preemption is gated by the tracer's policy flag.
#[derive(Clone, Copy, Debug, PartialEq, Eq, Structural)]
pub enum ProcessKind {
    Interrupt,
    Task,
}

/// The mathematical value of a [`Process`]: the same fields with
/// mathematical integers and sequences in place of machine types.
pub ghost struct ProcessModel {
    pub id: int,
    pub name: Seq<char>,
    pub kind: ProcessKind,
    pub priority: int,
    pub preemptible: bool,
    pub period: int,
    pub execution_times: Seq<int>,
    pub exec_index: int,
    pub state: ProcessState,
    pub period_timer: int,
    pub ready_timer: int,
    pub run_timer: int,
    pub peak_occupancy: int,
    pub peak_tick: int,
    pub last_event_time: int,
    pub overrun_pending: bool,
}

/// The mathematical value of a [`TraceEvent`].
pub ghost struct EventModel {
    pub process_id: int,
    pub process_name: Seq<char>,
    pub state: ProcessState,
    pub begin: int,
    pub end: int,
    pub overrun: bool,
}

/// One closed interval of a process's life: the process held `state` from
/// tick `begin` to tick `end`, and `overrun` tells whether a new activation
/// period elapsed before the activation that contains this interval was
/// finished.
#[derive(Clone, Debug)]
pub struct TraceEvent {
    pub process_id: usize,
    pub process_name: String,
    pub state: ProcessState,
    pub begin: u64,
    pub end: u64,
    pub overrun: bool,
}

impl View for TraceEvent {
    type V = EventModel;

    open spec fn view(&self) -> EventModel {
        EventModel {
            process_id: self.process_id as int,
            process_name: self.process_name@,
            state: self.state,
            begin: self.begin as int,
            end: self.end as int,
            overrun: self.overrun,
        }
    }
}

/// Maps an optional emitted event to its model.
pub open spec fn opt_event_view(ev: Option<TraceEvent>) -> Option<EventModel> {
    match ev {
        Some(e) => Some(e@),
        None => None,
    }
}

/// One simulated process.
pub struct Process {
    /// Stable identity, assigned by the tracer in registration order.
    pub id: usize,
    pub name: String,
    pub kind: ProcessKind,
    /// Higher value means more urgent.
    pub priority: i64,
    /// If false, this process, once running, is never preempted.
    pub preemptible: bool,
    /// Ticks between successive activations.
    pub period: u64,
    /// Non-empty cyclic list of per-activation execution times.
    pub execution_times: Vec<u64>,
    /// Current position in `execution_times`.
    pub exec_index: usize,
    pub state: ProcessState,
    /// Time since the last activation-cycle boundary.
    pub period_timer: u64,
    /// Time spent in Ready since the current activation began.
    pub ready_timer: u64,
    /// Time spent in Running since the current activation began.
    pub run_timer: u64,
    /// Highest occupancy observed over completed activations, in hundredths
    /// of a percent, and the tick at which it was observed.
    pub peak_occupancy: u64,
    pub peak_tick: u64,
    /// Tick at which the most recent transition was logged.
    pub last_event_time: u64,
    /// Set when a new activation period elapses while the process has not
    /// returned to Waiting; reported and cleared by the next logged event.
    pub overrun_pending: bool,
}

impl View for Process {
    type V = ProcessModel;

    open spec fn view(&self) -> ProcessModel {
        ProcessModel {
            id: self.id as int,
            name: self.name@,
            kind: self.kind,
            priority: self.priority as int,
            preemptible: self.preemptible,
            period: self.period as int,
            execution_times: self.execution_times@.map_values(|t: u64| t as int),
            exec_index: self.exec_index as int,
            state: self.state,
            period_timer: self.period_timer as int,
            ready_timer: self.ready_timer as int,
            run_timer: self.run_timer as int,
            peak_occupancy: self.peak_occupancy as int,
            peak_tick: self.peak_tick as int,
            last_event_time: self.last_event_time as int,
            overrun_pending: self.overrun_pending,
        }
    }
}

impl ProcessModel {
    /// Structural well-formedness: a positive period, a non-empty list of
    /// positive execution times, and an index inside it.
    pub open spec fn wf(self) -> bool {
        &&& self.period >= 1
        &&& self.execution_times.len() >= 1
        &&& 0 <= self.exec_index < self.execution_times.len()
        &&& forall|i: int|
            0 <= i < self.execution_times.len() ==> #[trigger] self.execution_times[i] >= 1
    }

    /// All three timers are at most `b`.
    pub open spec fn timers_le(self, b: int) -> bool {
        &&& self.period_timer <= b
        &&& self.ready_timer <= b
        &&& self.run_timer <= b
    }

    /// The state a process has right after construction, before any tick.
    pub open spec fn initial(self) -> bool {
        &&& self.wf()
        &&& self.exec_index == 0
        &&& self.state == ProcessState::Waiting || self.state == ProcessState::Ready
        &&& self.period_timer == 0
        &&& self.ready_timer == 0
        &&& self.run_timer == 0
        &&& self.peak_occupancy == 0
        &&& self.peak_tick == 0
        &&& self.last_event_time == 0
        &&& !self.overrun_pending
    }

    /// The fields that no transition ever changes.
    pub open spec fn same_static(self, other: ProcessModel) -> bool {
        &&& other.id == self.id
        &&& other.name == self.name
        &&& other.kind == self.kind
        &&& other.priority == self.priority
        &&& other.preemptible == self.preemptible
        &&& other.period == self.period
        &&& other.execution_times == self.execution_times
    }
}

/// Occupancy of one activation in hundredths of a percent: the share of the
/// period spent active (Ready plus Running), truncated to the unit.
pub open spec fn occupancy_units(active_time: int, period: int) -> int {
    active_time * OCCUPANCY_SCALE / period
}

/// Closing the currently open log interval: the emitted event records the
/// state held since `last_event_time`, carrying and clearing the pending
/// overrun flag.
pub open spec fn spec_push_log(p: ProcessModel, now: int) -> (ProcessModel, EventModel) {
    (
        ProcessModel { last_event_time: now, overrun_pending: false, ..p },
        EventModel {
            process_id: p.id,
            process_name: p.name,
            state: p.state,
            begin: p.last_event_time,
            end: now,
            overrun: p.overrun_pending,
        },
    )
}

/// Waking: the Waiting interval closes and the process becomes Ready.
pub open spec fn spec_wakeup(p: ProcessModel, now: int) -> (ProcessModel, EventModel) {
    let pl = spec_push_log(p, now);
    (ProcessModel { state: ProcessState::Ready, ..pl.0 }, pl.1)
}

/// Completing an activation: the Running interval closes and the process
/// becomes Waiting.
pub open spec fn spec_waiting(p: ProcessModel, now: int) -> (ProcessModel, EventModel) {
    let pl = spec_push_log(p, now);
    (ProcessModel { state: ProcessState::Waiting, ..pl.0 }, pl.1)
}

/// Dispatching: the Ready interval closes and the process becomes Running.
pub open spec fn spec_dispatch(p: ProcessModel, now: int) -> (ProcessModel, EventModel) {
    let pl = spec_push_log(p, now);
    (ProcessModel { state: ProcessState::Running, ..pl.0 }, pl.1)
}

/// Preemption: the Running interval closes and the process becomes Ready.
pub open spec fn spec_preempt(p: ProcessModel, now: int) -> (ProcessModel, EventModel) {
    let pl = spec_push_log(p, now);
    (ProcessModel { state: ProcessState::Ready, ..pl.0 }, pl.1)
}

/// Overrun check: if a full period has elapsed while the process is still
/// Ready or Running, a deadline was missed; the flag is recorded and shows
/// up on the event that closes the activation.
pub open spec fn spec_check_cycle(p: ProcessModel) -> ProcessModel {
    if p.period_timer >= p.period && (p.state == ProcessState::Ready || p.state
        == ProcessState::Running) {
        ProcessModel { overrun_pending: true, ..p }
    } else {
        p
    }
}

/// Peak-occupancy update at activation completion: the activation's
/// occupancy replaces the recorded peak when it is strictly greater.
pub open spec fn spec_calc_cpu_usage(p: ProcessModel, now: int) -> ProcessModel {
    let rate = occupancy_units(p.run_timer + p.ready_timer, p.period);
    if rate > p.peak_occupancy {
        ProcessModel { peak_occupancy: rate, peak_tick: now, ..p }
    } else {
        p
    }
}

/// Waiting-state step: on reaching the period the process wakes and the
/// period timer restarts.
pub open spec fn spec_check_state_waiting(p: ProcessModel, now: int) -> (
    ProcessModel,
    Option<EventModel>,
) {
    if p.period_timer >= p.period {
        let pw = spec_wakeup(p, now);
        (ProcessModel { period_timer: 0, ..pw.0 }, Some(pw.1))
    } else {
        (p, None)
    }
}

/// Ready-state step: only the ready timer accumulates; dispatch is decided
/// by the tracer, not by the process.
pub open spec fn spec_check_state_ready(p: ProcessModel, elapsed: int) -> (
    ProcessModel,
    Option<EventModel>,
) {
    (ProcessModel { ready_timer: p.ready_timer + elapsed, ..p }, None)
}

/// Running-state step: the run timer accumulates; on reaching the current
/// execution time the activation completes: the execution-time index wraps
/// onward, the peak occupancy is updated, the Running interval is logged,
/// and both activation timers restart.
pub open spec fn spec_check_state_running(p: ProcessModel, now: int, elapsed: int) -> (
    ProcessModel,
    Option<EventModel>,
) {
    let p1 = ProcessModel { run_timer: p.run_timer + elapsed, ..p };
    if p1.run_timer >= p1.execution_times[p1.exec_index] {
        let next_index = if p1.exec_index + 1 >= p1.execution_times.len() {
            0
        } else {
            p1.exec_index + 1
        };
        let p2 = spec_calc_cpu_usage(ProcessModel { exec_index: next_index, ..p1 }, now);
        let pw = spec_waiting(p2, now);
        (ProcessModel { run_timer: 0, ready_timer: 0, ..pw.0 }, Some(pw.1))
    } else {
        (p1, None)
    }
}

/// State-specific part of one advance step.
pub open spec fn spec_check_state(p: ProcessModel, now: int, elapsed: int) -> (
    ProcessModel,
    Option<EventModel>,
) {
    match p.state {
        ProcessState::Waiting => spec_check_state_waiting(p, now),
        ProcessState::Ready => spec_check_state_ready(p, elapsed),
        ProcessState::Running => spec_check_state_running(p, now, elapsed),
        ProcessState::Dormant => (p, None),
    }
}

/// One full advance step of a process at tick `now`: the period timer
/// accumulates, a missed deadline is recorded, and the state-specific update
/// runs.  At most one event is emitted.
pub open spec fn spec_advance(p: ProcessModel, now: int, elapsed: int) -> (
    ProcessModel,
    Option<EventModel>,
) {
    let bumped = ProcessModel { period_timer: p.period_timer + elapsed, ..p };
    spec_check_state(spec_check_cycle(bumped), now, elapsed)
}

impl Process {
    /// Builds a process in its pre-run state.  The configuration loader is
    /// responsible for rejecting a non-positive period, an empty or
    /// non-positive execution-time list, and an initial state other than
    /// Waiting or Ready before this constructor is reached.
    pub fn new(
        kind: ProcessKind,
        name: String,
        state: ProcessState,
        priority: i64,
        preemptible: bool,
        time_cycle: u64,
        time_proc: Vec<u64>,
    ) -> (p: Process)
        requires
            time_cycle >= 1,
            time_proc@.len() >= 1,
            forall|i: int| 0 <= i < time_proc@.len() ==> #[trigger] time_proc@[i] >= 1,
            state == ProcessState::Waiting || state == ProcessState::Ready,
        ensures
            p@.initial(),
            p@.id == 0,
            p@.name == name@,
            p@.kind == kind,
            p@.priority == priority as int,
            p@.preemptible == preemptible,
            p@.period == time_cycle as int,
            p@.execution_times == time_proc@.map_values(|t: u64| t as int),
            p@.state == state,
    {
        Process {
            id: 0,
            name,
            kind,
            priority,
            preemptible,
            period: time_cycle,
            execution_times: time_proc,
            exec_index: 0,
            state,
            period_timer: 0,
            ready_timer: 0,
            run_timer: 0,
            peak_occupancy: 0,
            peak_tick: 0,
            last_event_time: 0,
            overrun_pending: false,
        }
    }

    /// Builds an interrupt-kind process.
    pub fn intr(
        name: String,
        state: ProcessState,
        priority: i64,
        preemptible: bool,
        time_cycle: u64,
        time_proc: Vec<u64>,
    ) -> (p: Process)
        requires
            time_cycle >= 1,
            time_proc@.len() >= 1,
            forall|i: int| 0 <= i < time_proc@.len() ==> #[trigger] time_proc@[i] >= 1,
            state == ProcessState::Waiting || state == ProcessState::Ready,
        ensures
            p@.initial(),
            p@.id == 0,
            p@.name == name@,
            p@.kind == ProcessKind::Interrupt,
            p@.priority == priority as int,
            p@.preemptible == preemptible,
            p@.period == time_cycle as int,
            p@.execution_times == time_proc@.map_values(|t: u64| t as int),
            p@.state == state,
    {
        Process::new(ProcessKind::Interrupt, name, state, priority, preemptible, time_cycle, time_proc)
    }

    /// Builds a task-kind process.
    pub fn task(
        name: String,
        state: ProcessState,
        priority: i64,
        preemptible: bool,
        time_cycle: u64,
        time_proc: Vec<u64>,
    ) -> (p: Process)
        requires
            time_cycle >= 1,
            time_proc@.len() >= 1,
            forall|i: int| 0 <= i < time_proc@.len() ==> #[trigger] time_proc@[i] >= 1,
            state == ProcessState::Waiting || state == ProcessState::Ready,
        ensures
            p@.initial(),
            p@.id == 0,
            p@.name == name@,
            p@.kind == ProcessKind::Task,
            p@.priority == priority as int,
            p@.preemptible == preemptible,
            p@.period == time_cycle as int,
            p@.execution_times == time_proc@.map_values(|t: u64| t as int),
            p@.state == state,
    {
        Process::new(ProcessKind::Task, name, state, priority, preemptible, time_cycle, time_proc)
    }

    /// Advances this process by `elapse` ticks of logical time, with `cpu_time`
    /// the tick being simulated.  Returns the event of the transition taken,
    /// if one was.
    pub fn go(&mut self, cpu_time: u64, elapse: u64) -> (ev: Option<TraceEvent>)
        requires
            old(self)@.wf(),
            old(self)@.period_timer + elapse <= MAX_SIM_TIME,
            old(self)@.ready_timer + elapse <= MAX_SIM_TIME,
            old(self)@.run_timer + elapse <= MAX_SIM_TIME,
        ensures
            final(self)@ == spec_advance(old(self)@, cpu_time as int, elapse as int).0,
            opt_event_view(ev) == spec_advance(old(self)@, cpu_time as int, elapse as int).1,
    {
        self.period_timer = self.period_timer + elapse;
        self.check_cycle();
        self.check_state(cpu_time, elapse)
    }

    /// Records a missed deadline when a full period has elapsed while the
    /// process is still mid-activation.
    fn check_cycle(&mut self)
        ensures
            final(self)@ == spec_check_cycle(old(self)@),
    {
        if self.period_timer >= self.period {
            match self.state {
                ProcessState::Waiting => (),
                ProcessState::Ready => self.overrun_pending = true,
                ProcessState::Running => self.overrun_pending = true,
                ProcessState::Dormant => (),
            }
        }
    }

    /// State-specific part of one advance step.
    fn check_state(&mut self, cpu_time: u64, elapse: u64) -> (ev: Option<TraceEvent>)
        requires
            old(self)@.wf(),
            old(self)@.ready_timer + elapse <= MAX_SIM_TIME,
            old(self)@.run_timer + elapse <= MAX_SIM_TIME,
        ensures
            final(self)@ == spec_check_state(old(self)@, cpu_time as int, elapse as int).0,
            opt_event_view(ev) == spec_check_state(old(self)@, cpu_time as int, elapse as int).1,
    {
        match self.state {
            ProcessState::Waiting => self.check_state_waiting(cpu_time),
            ProcessState::Ready => self.check_state_ready(elapse),
            ProcessState::Running => self.check_state_running(cpu_time, elapse),
            ProcessState::Dormant => self.check_state_dormant(),
        }
    }

    /// Waiting-state step: wake when the period has elapsed.
    fn check_state_waiting(&mut self, cpu_time: u64) -> (ev: Option<TraceEvent>)
        requires
            old(self)@.state == ProcessState::Waiting,
        ensures
            final(self)@ == spec_check_state_waiting(old(self)@, cpu_time as int).0,
            opt_event_view(ev) == spec_check_state_waiting(old(self)@, cpu_time as int).1,
    {
        if self.period_timer >= self.period {
            let ev = self.wakeup(cpu_time);
            self.period_timer = 0;
            Some(ev)
        } else {
            None
        }
    }

    /// Ready-state step: accumulate waiting time until the tracer dispatches.
    fn check_state_ready(&mut self, elapse: u64) -> (ev: Option<TraceEvent>)
        requires
            old(self)@.state == ProcessState::Ready,
            old(self)@.ready_timer + elapse <= MAX_SIM_TIME,
        ensures
            final(self)@ == spec_check_state_ready(old(self)@, elapse as int).0,
            opt_event_view(ev) == spec_check_state_ready(old(self)@, elapse as int).1,
    {
        self.ready_timer = self.ready_timer + elapse;
        None
    }

    /// Running-state step: accumulate running time; complete the activation
    /// when the current execution time is reached.
    fn check_state_running(&mut self, cpu_time: u64, elapse: u64) -> (ev: Option<TraceEvent>)
        requires
            old(self)@.wf(),
            old(self)@.state == ProcessState::Running,
            old(self)@.ready_timer <= MAX_SIM_TIME,
            old(self)@.run_timer + elapse <= MAX_SIM_TIME,
        ensures
            final(self)@ == spec_check_state_running(old(self)@, cpu_time as int, elapse as int).0,
            opt_event_view(ev) == spec_check_state_running(
                old(self)@,
                cpu_time as int,
                elapse as int,
            ).1,
    {
        self.run_timer = self.run_timer + elapse;
        if self.run_timer >= self.execution_times[self.exec_index] {
            let len = self.execution_times.len();
            self.exec_index = self.exec_index + 1;
            if self.exec_index >= len {
                self.exec_index = 0;
            }
            self.calc_cpu_usage(cpu_time);
            let ev = self.waiting(cpu_time);
            self.run_timer = 0;
            self.ready_timer = 0;
            Some(ev)
        } else {
            None
        }
    }

    /// Dormant-state step: nothing happens; the engine never enters Dormant.
    fn check_state_dormant(&mut self) -> (ev: Option<TraceEvent>)
        requires
            old(self)@.state == ProcessState::Dormant,
        ensures
            final(self)@ == old(self)@,
            ev is None,
    {
        None
    }

    /// Folds the just-finished activation's occupancy into the recorded peak.
    fn calc_cpu_usage(&mut self, cpu_time: u64)
        requires
            old(self)@.period >= 1,
            old(self)@.run_timer <= MAX_SIM_TIME,
            old(self)@.ready_timer <= MAX_SIM_TIME,
        ensures
            final(self)@ == spec_calc_cpu_usage(old(self)@, cpu_time as int),
    {
        let active_time = self.run_timer + self.ready_timer;
        let userate = active_time * OCCUPANCY_SCALE / self.period;
        if userate > self.peak_occupancy {
            self.peak_occupancy = userate;
            self.peak_tick = cpu_time;
        }
    }

    /// Transitions to Ready at a period boundary, logging the closed Waiting
    /// interval.
    pub fn wakeup(&mut self, cpu_time: u64) -> (ev: TraceEvent)
        ensures
            final(self)@ == spec_wakeup(old(self)@, cpu_time as int).0,
            ev@ == spec_wakeup(old(self)@, cpu_time as int).1,
    {
        let ev = self.push_log(cpu_time);
        self.state = ProcessState::Ready;
        ev
    }

    /// Transitions to Waiting at activation completion, logging the closed
    /// Running interval.
    pub fn waiting(&mut self, cpu_time: u64) -> (ev: TraceEvent)
        ensures
            final(self)@ == spec_waiting(old(self)@, cpu_time as int).0,
            ev@ == spec_waiting(old(self)@, cpu_time as int).1,
    {
        let ev = self.push_log(cpu_time);
        self.state = ProcessState::Waiting;
        ev
    }

    /// Transitions to Running when the tracer dispatches this process,
    /// logging the closed Ready interval.
    pub fn dispatch(&mut self, cpu_time: u64) -> (ev: TraceEvent)
        ensures
            final(self)@ == spec_dispatch(old(self)@, cpu_time as int).0,
            ev@ == spec_dispatch(old(self)@, cpu_time as int).1,
    {
        let ev = self.push_log(cpu_time);
        self.state = ProcessState::Running;
        ev
    }

    /// Transitions back to Ready when the tracer displaces this process,
    /// logging the closed Running interval.
    pub fn preempt(&mut self, cpu_time: u64) -> (ev: TraceEvent)
        ensures
            final(self)@ == spec_preempt(old(self)@, cpu_time as int).0,
            ev@ == spec_preempt(old(self)@, cpu_time as int).1,
    {
        let ev = self.push_log(cpu_time);
        self.state = ProcessState::Ready;
        ev
    }

    pub fn is_waiting(&self) -> (r: bool)
        ensures
            r == (self@.state == ProcessState::Waiting),
    {
        match self.state {
            ProcessState::Waiting => true,
            _ => false,
        }
    }

    pub fn is_ready(&self) -> (r: bool)
        ensures
            r == (self@.state == ProcessState::Ready),
    {
        match self.state {
            ProcessState::Ready => true,
            _ => false,
        }
    }

    pub fn is_running(&self) -> (r: bool)
        ensures
            r == (self@.state == ProcessState::Running),
    {
        match self.state {
            ProcessState::Running => true,
            _ => false,
        }
    }

    /// Closes the currently open log interval as an event and opens a new
    /// one at `cpu_time`.
    fn push_log(&mut self, cpu_time: u64) -> (ev: TraceEvent)
        ensures
            final(self)@ == spec_push_log(old(self)@, cpu_time as int).0,
            ev@ == spec_push_log(old(self)@, cpu_time as int).1,
    {
        let ev = TraceEvent {
            process_id: self.id,
            process_name: self.name.clone(),
            state: self.state,
            begin: self.last_event_time,
            end: cpu_time,
            overrun: self.overrun_pending,
        };
        self.last_event_time = cpu_time;
        self.overrun_pending = false;
        ev
    }
}

/// After the advance step that completes an activation (Running to Waiting),
/// both activation timers are zero.
pub proof fn lemma_completion_resets_timers(p: ProcessModel, now: int, elapsed: int)
    requires
        p.state == ProcessState::Running,
        spec_advance(p, now, elapsed).0.state == ProcessState::Waiting,
    ensures
        spec_advance(p, now, elapsed).0.run_timer == 0,
        spec_advance(p, now, elapsed).0.ready_timer == 0,
{
}

/// The event that closes an activation carries the overrun flag exactly
/// when a full period elapsed (now or earlier in the activation) before the
/// process returned to Waiting: a missed deadline is reported on the
/// closing event, and only then.
pub proof fn lemma_overrun_flag(p: ProcessModel, now: int, elapsed: int)
    requires
        p.state == ProcessState::Running,
        spec_advance(p, now, elapsed).0.state == ProcessState::Waiting,
    ensures
        spec_advance(p, now, elapsed).1 is Some,
        (spec_advance(p, now, elapsed).1 matches Some(e) ==> (e.overrun <==> (p.overrun_pending
            || p.period_timer + elapsed >= p.period))),
{
}

/// An advance step never touches a process's static definition, keeps it
/// well formed, lets each timer grow by at most `elapsed`, and never moves a
/// process into Running on its own.
pub proof fn lemma_advance_frame(p: ProcessModel, now: int, elapsed: int, b: int)
    requires
        p.wf(),
        p.timers_le(b),
        elapsed >= 0,
    ensures
        spec_advance(p, now, elapsed).0.wf(),
        p.same_static(spec_advance(p, now, elapsed).0),
        spec_advance(p, now, elapsed).0.timers_le(b + elapsed),
        spec_advance(p, now, elapsed).0.state == ProcessState::Running ==> p.state
            == ProcessState::Running,
        p.state == ProcessState::Running ==> (spec_advance(p, now, elapsed).0.state
            == ProcessState::Running || spec_advance(p, now, elapsed).0.state
            == ProcessState::Waiting),
        p.state == ProcessState::Ready ==> spec_advance(p, now, elapsed).0.state
            == ProcessState::Ready,
{
}

} // verus!
