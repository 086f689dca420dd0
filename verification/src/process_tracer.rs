//! The tick-by-tick scheduler engine.
//!
//! [`ProcessTracer`] owns the ordered set of processes and the single
//! "currently active" slot.  Each simulated tick it reconciles the active
//! slot, makes the dispatch decision (priority first, then longest waiting,
//! then registration order), advances every process by one tick, and counts
//! the tick as busy or idle.  The whole loop is proved equal to the
//! spec-level model [`spec_run_upto`], so a run is a mathematical function
//! of the configuration and the duration.

use vstd::prelude::*;

use crate::process::EventModel;
use crate::process::MAX_SIM_TIME;
use crate::process::OCCUPANCY_SCALE;
use crate::process::Process;
use crate::process::ProcessKind;
use crate::process::ProcessModel;
use crate::process::TraceEvent;
use crate::process::lemma_advance_frame;
use crate::process::spec_advance;
use crate::process::spec_dispatch;
use crate::process::spec_preempt;
use crate::process_state::ProcessState;

verus! {

/// The mathematical value of a [`ProcessTracer`].
pub ghost struct TracerModel {
    pub procs: Seq<ProcessModel>,
    pub active: Option<int>,
    pub task_use_preempt: bool,
    pub busy: int,
    pub idle: int,
    pub trace: Seq<EventModel>,
}

/// Maps an optional index to its mathematical value.
pub open spec fn opt_idx_view(r: Option<usize>) -> Option<int> {
    match r {
        Some(i) => Some(i as int),
        None => None,
    }
}

impl TracerModel {
    /// Well-formedness, maintained across every tick: every process is well
    /// formed; the active reference, when set, points into the collection at
    /// a process that is Running (or just finished, Waiting); and only the
    /// active process can be Running.
    pub open spec fn wf(self) -> bool {
        &&& forall|i: int| 0 <= i < self.procs.len() ==> (#[trigger] self.procs[i]).wf()
        &&& match self.active {
            Some(a) => 0 <= a < self.procs.len() && (self.procs[a].state == ProcessState::Running
                || self.procs[a].state == ProcessState::Waiting),
            None => true,
        }
        &&& forall|i: int|
            0 <= i < self.procs.len() && (#[trigger] self.procs[i]).state == ProcessState::Running
                ==> self.active == Some(i)
    }

    /// Every process's timers are at most `b`.
    pub open spec fn timers_le(self, b: int) -> bool {
        forall|i: int| 0 <= i < self.procs.len() ==> (#[trigger] self.procs[i]).timers_le(b)
    }

    /// The state right after construction, before any tick has run.
    pub open spec fn at_start(self) -> bool {
        &&& forall|i: int| 0 <= i < self.procs.len() ==> (#[trigger] self.procs[i]).initial()
        &&& forall|i: int| 0 <= i < self.procs.len() ==> (#[trigger] self.procs[i]).id == i
        &&& self.active is None
        &&& self.busy == 0
        &&& self.idle == 0
        &&& self.trace.len() == 0
    }
}

/// Whether the Ready process `ready` may displace the Running process
/// `running`:
/// a Task never preempts an Interrupt; the candidate must have strictly
/// higher priority; and Task-to-Task preemption is allowed only when
/// `task_use_preempt` is set.
pub open spec fn spec_may_preempt(
    running: ProcessModel,
    ready: ProcessModel,
    task_use_preempt: bool,
) -> bool {
    if ready.kind == ProcessKind::Task && running.kind == ProcessKind::Interrupt {
        false
    } else if running.priority >= ready.priority {
        false
    } else if !task_use_preempt && ready.kind == ProcessKind::Task && running.kind
        == ProcessKind::Task {
        false
    } else {
        true
    }
}

/// Whether `cand` beats `best` in the dispatch order: strictly higher
/// priority, or equal priority and strictly longer time spent Ready.
pub open spec fn spec_prefer(cand: ProcessModel, best: ProcessModel) -> bool {
    cand.priority > best.priority || (cand.priority == best.priority && cand.ready_timer
        > best.ready_timer)
}

/// The dispatch candidate among the first `n` processes: the Ready process
/// of highest priority, ties broken by the longer ready time, remaining
/// ties by the earlier registration.
pub open spec fn spec_select_ready_prefix(procs: Seq<ProcessModel>, n: int) -> Option<int>
    decreases n,
{
    if n <= 0 {
        None
    } else {
        let prev = spec_select_ready_prefix(procs, n - 1);
        if procs[n - 1].state != ProcessState::Ready {
            prev
        } else {
            match prev {
                None => Some(n - 1),
                Some(b) => if spec_prefer(procs[n - 1], procs[b]) {
                    Some(n - 1)
                } else {
                    Some(b)
                },
            }
        }
    }
}

/// The dispatch candidate among all processes.
pub open spec fn spec_select_ready(procs: Seq<ProcessModel>) -> Option<int> {
    spec_select_ready_prefix(procs, procs.len() as int)
}

/// The dispatch decision of one tick: with no active process the candidate
/// is taken as is; a preemptible active process is displaced exactly when
/// [`spec_may_preempt`] allows it; a non-preemptible active process runs to
/// completion and no preemption is evaluated.
pub open spec fn spec_decision(tm: TracerModel) -> Option<int> {
    let candidate = spec_select_ready(tm.procs);
    match tm.active {
        None => candidate,
        Some(a) => if tm.procs[a].preemptible {
            match candidate {
                Some(c) => if spec_may_preempt(tm.procs[a], tm.procs[c], tm.task_use_preempt) {
                    Some(c)
                } else {
                    None
                },
                None => None,
            }
        } else {
            None
        },
    }
}

/// Reconciling the active slot: a process that reached Waiting by its own
/// transition stops being active.
pub open spec fn spec_reconcile(tm: TracerModel) -> TracerModel {
    match tm.active {
        Some(a) => if tm.procs[a].state == ProcessState::Waiting {
            TracerModel { active: None, ..tm }
        } else {
            tm
        },
        None => tm,
    }
}

/// The dispatch step of one tick: when the decision picks a process, the
/// previous active process (if any) is preempted first, then the new one is
/// dispatched; both transitions are logged in this order.
pub open spec fn spec_dispatch_phase(tm: TracerModel, now: int) -> TracerModel {
    match spec_decision(tm) {
        None => tm,
        Some(n) => {
            let tm1 = match tm.active {
                Some(a) => {
                    let pr = spec_preempt(tm.procs[a], now);
                    TracerModel {
                        procs: tm.procs.update(a, pr.0),
                        trace: tm.trace.push(pr.1),
                        ..tm
                    }
                },
                None => tm,
            };
            let d = spec_dispatch(tm1.procs[n], now);
            TracerModel {
                procs: tm1.procs.update(n, d.0),
                active: Some(n),
                trace: tm1.trace.push(d.1),
                ..tm1
            }
        },
    }
}

/// Advancing the first `k` processes by `elapsed`, in registration order,
/// appending the event of each transition taken.
pub open spec fn spec_advance_prefix(tm: TracerModel, now: int, elapsed: int, k: int) -> TracerModel
    decreases k,
{
    if k <= 0 {
        tm
    } else {
        let tm1 = spec_advance_prefix(tm, now, elapsed, k - 1);
        let st = spec_advance(tm1.procs[k - 1], now, elapsed);
        TracerModel {
            procs: tm1.procs.update(k - 1, st.0),
            trace: match st.1 {
                Some(e) => tm1.trace.push(e),
                None => tm1.trace,
            },
            ..tm1
        }
    }
}

/// The advance step of one tick: every process advances by `elapsed`.
pub open spec fn spec_advance_phase(tm: TracerModel, now: int, elapsed: int) -> TracerModel {
    spec_advance_prefix(tm, now, elapsed, tm.procs.len() as int)
}

/// The accounting step of one tick: the tick counts as busy when a process
/// is active after the dispatch step, else as idle.
pub open spec fn spec_check_cpu_use(tm: TracerModel) -> TracerModel {
    match tm.active {
        Some(_) => TracerModel { busy: tm.busy + 1, ..tm },
        None => TracerModel { idle: tm.idle + 1, ..tm },
    }
}

/// One full tick at time `now`: reconcile, dispatch, advance all by one,
/// account.
pub open spec fn spec_tick(tm: TracerModel, now: int) -> TracerModel {
    spec_check_cpu_use(spec_advance_phase(spec_dispatch_phase(spec_reconcile(tm), now), now, 1))
}

/// The state after ticks `1, 2, ..., t` have run.
pub open spec fn spec_run_upto(tm: TracerModel, t: int) -> TracerModel
    decreases t,
{
    if t <= 0 {
        tm
    } else {
        spec_tick(spec_run_upto(tm, t - 1), t)
    }
}

/// The dispatch candidate is a Ready process in range, and it is the best
/// one: any other Ready process either has lower priority, or equal
/// priority and a shorter ready time, or is tied on both and was registered
/// later.  When there is no candidate, no process is Ready.
///
/// This is the engine's tie-break law: among Ready processes the strictly
/// greater priority wins; on equal priority the strictly larger ready time
/// wins; a full tie keeps the first-registered process.
pub proof fn lemma_select_ready_prefix_props(procs: Seq<ProcessModel>, n: int)
    requires
        0 <= n <= procs.len(),
    ensures
        match spec_select_ready_prefix(procs, n) {
            Some(b) => 0 <= b < n && procs[b].state == ProcessState::Ready && forall|i: int|
                0 <= i < n && (#[trigger] procs[i]).state == ProcessState::Ready && i != b
                    ==> (procs[b].priority > procs[i].priority || (procs[b].priority
                    == procs[i].priority && procs[b].ready_timer > procs[i].ready_timer) || (
                procs[b].priority == procs[i].priority && procs[b].ready_timer
                    == procs[i].ready_timer && b < i)),
            None => forall|i: int|
                0 <= i < n ==> (#[trigger] procs[i]).state != ProcessState::Ready,
        },
    decreases n,
{
    if n > 0 {
        lemma_select_ready_prefix_props(procs, n - 1);
    }
}

/// The tie-break law over the whole collection: the dispatch candidate is
/// the Ready process of strictly highest priority; on equal priority the
/// strictly larger ready time wins; a full tie keeps the first-registered
/// process.  When there is no candidate, no process is Ready.
pub proof fn lemma_select_ready_props(procs: Seq<ProcessModel>)
    ensures
        match spec_select_ready(procs) {
            Some(b) => 0 <= b < procs.len() && procs[b].state == ProcessState::Ready && forall|
                i: int,
            |
                0 <= i < procs.len() && (#[trigger] procs[i]).state == ProcessState::Ready && i != b
                    ==> (procs[b].priority > procs[i].priority || (procs[b].priority
                    == procs[i].priority && procs[b].ready_timer > procs[i].ready_timer) || (
                procs[b].priority == procs[i].priority && procs[b].ready_timer
                    == procs[i].ready_timer && b < i)),
            None => forall|i: int|
                0 <= i < procs.len() ==> (#[trigger] procs[i]).state != ProcessState::Ready,
        },
{
    lemma_select_ready_prefix_props(procs, procs.len() as int);
}

/// The dispatch decision, when it picks a process, picks a Ready process in
/// range.
pub proof fn lemma_decision_props(tm: TracerModel)
    requires
        tm.wf(),
    ensures
        match spec_decision(tm) {
            Some(n) => 0 <= n < tm.procs.len() && tm.procs[n].state == ProcessState::Ready,
            None => true,
        },
{
    lemma_select_ready_prefix_props(tm.procs, tm.procs.len() as int);
}

/// Reconciling changes only the active slot; afterwards the active process,
/// if any, is Running.
pub proof fn lemma_reconcile_props(tm: TracerModel)
    requires
        tm.wf(),
    ensures
        spec_reconcile(tm).wf(),
        spec_reconcile(tm).procs == tm.procs,
        spec_reconcile(tm).busy == tm.busy,
        spec_reconcile(tm).idle == tm.idle,
        spec_reconcile(tm).trace == tm.trace,
        spec_reconcile(tm).task_use_preempt == tm.task_use_preempt,
        match spec_reconcile(tm).active {
            Some(a) => 0 <= a < tm.procs.len() && tm.procs[a].state == ProcessState::Running,
            None => true,
        },
{
}

/// The dispatch step keeps the collection well formed and the active
/// process Running, and touches no timer, no static field and no counter.
pub proof fn lemma_dispatch_phase_props(tm: TracerModel, now: int)
    requires
        tm.wf(),
        match tm.active {
            Some(a) => tm.procs[a].state == ProcessState::Running,
            None => true,
        },
    ensures
        spec_dispatch_phase(tm, now).wf(),
        spec_dispatch_phase(tm, now).procs.len() == tm.procs.len(),
        forall|i: int|
            0 <= i < tm.procs.len() ==> (#[trigger] tm.procs[i]).same_static(
                spec_dispatch_phase(tm, now).procs[i],
            ),
        forall|i: int|
            0 <= i < tm.procs.len() ==> {
                let q = #[trigger] spec_dispatch_phase(tm, now).procs[i];
                q.period_timer == tm.procs[i].period_timer && q.ready_timer
                    == tm.procs[i].ready_timer && q.run_timer == tm.procs[i].run_timer
            },
        spec_dispatch_phase(tm, now).busy == tm.busy,
        spec_dispatch_phase(tm, now).idle == tm.idle,
        spec_dispatch_phase(tm, now).task_use_preempt == tm.task_use_preempt,
        match spec_dispatch_phase(tm, now).active {
            Some(a) => 0 <= a < tm.procs.len() && spec_dispatch_phase(tm, now).procs[a].state
                == ProcessState::Running,
            None => true,
        },
{
    lemma_decision_props(tm);
}

/// Advancing a prefix keeps every process well formed, lets each timer grow
/// by at most `elapsed`, never creates a Running process, and leaves the
/// processes at or past `k` untouched.
pub proof fn lemma_advance_prefix_props(tm: TracerModel, now: int, elapsed: int, k: int, b: int)
    requires
        tm.wf(),
        tm.timers_le(b),
        elapsed >= 0,
        0 <= k <= tm.procs.len(),
        match tm.active {
            Some(a) => tm.procs[a].state == ProcessState::Running,
            None => true,
        },
    ensures
        spec_advance_prefix(tm, now, elapsed, k).wf(),
        spec_advance_prefix(tm, now, elapsed, k).procs.len() == tm.procs.len(),
        spec_advance_prefix(tm, now, elapsed, k).timers_le(b + elapsed),
        forall|i: int|
            0 <= i < tm.procs.len() ==> (#[trigger] tm.procs[i]).same_static(
                spec_advance_prefix(tm, now, elapsed, k).procs[i],
            ),
        forall|i: int|
            k <= i < tm.procs.len() ==> #[trigger] spec_advance_prefix(tm, now, elapsed, k).procs[i]
                == tm.procs[i],
        spec_advance_prefix(tm, now, elapsed, k).active == tm.active,
        spec_advance_prefix(tm, now, elapsed, k).busy == tm.busy,
        spec_advance_prefix(tm, now, elapsed, k).idle == tm.idle,
        spec_advance_prefix(tm, now, elapsed, k).task_use_preempt == tm.task_use_preempt,
        match spec_advance_prefix(tm, now, elapsed, k).active {
            Some(a) => spec_advance_prefix(tm, now, elapsed, k).procs[a].state
                == ProcessState::Running || spec_advance_prefix(tm, now, elapsed, k).procs[a].state
                == ProcessState::Waiting,
            None => true,
        },
    decreases k,
{
    if k > 0 {
        lemma_advance_prefix_props(tm, now, elapsed, k - 1, b);
        let tm1 = spec_advance_prefix(tm, now, elapsed, k - 1);
        lemma_advance_frame(tm1.procs[k - 1], now, elapsed, b);
    }
}

/// One tick keeps the engine well formed, lets each timer grow by at most
/// one, accounts exactly one tick as busy or idle, and touches no static
/// field of any process.
pub proof fn lemma_tick_props(tm: TracerModel, now: int, b: int)
    requires
        tm.wf(),
        tm.timers_le(b),
    ensures
        spec_tick(tm, now).wf(),
        spec_tick(tm, now).procs.len() == tm.procs.len(),
        spec_tick(tm, now).timers_le(b + 1),
        forall|i: int|
            0 <= i < tm.procs.len() ==> (#[trigger] tm.procs[i]).same_static(
                spec_tick(tm, now).procs[i],
            ),
        spec_tick(tm, now).busy + spec_tick(tm, now).idle == tm.busy + tm.idle + 1,
        spec_tick(tm, now).busy >= tm.busy,
        spec_tick(tm, now).idle >= tm.idle,
        spec_tick(tm, now).task_use_preempt == tm.task_use_preempt,
    {
    let tm1 = spec_reconcile(tm);
    lemma_reconcile_props(tm);
    let tm2 = spec_dispatch_phase(tm1, now);
    lemma_dispatch_phase_props(tm1, now);
    assert(tm2.timers_le(b));
    let tm3 = spec_advance_phase(tm2, now, 1);
    lemma_advance_prefix_props(tm2, now, 1, tm2.procs.len() as int, b);
}

/// Running ticks `1..=t` keeps the engine well formed, bounds every timer
/// by `b + t`, accounts exactly `t` ticks in total, and touches no static
/// field of any process.
pub proof fn lemma_run_upto_props(tm: TracerModel, t: int, b: int)
    requires
        tm.wf(),
        tm.timers_le(b),
        t >= 0,
    ensures
        spec_run_upto(tm, t).wf(),
        spec_run_upto(tm, t).procs.len() == tm.procs.len(),
        spec_run_upto(tm, t).timers_le(b + t),
        forall|i: int|
            0 <= i < tm.procs.len() ==> (#[trigger] tm.procs[i]).same_static(
                spec_run_upto(tm, t).procs[i],
            ),
        spec_run_upto(tm, t).busy + spec_run_upto(tm, t).idle == tm.busy + tm.idle + t,
        spec_run_upto(tm, t).busy >= tm.busy,
        spec_run_upto(tm, t).idle >= tm.idle,
        spec_run_upto(tm, t).task_use_preempt == tm.task_use_preempt,
    decreases t,
{
    if t > 0 {
        lemma_run_upto_props(tm, t - 1, b);
        lemma_tick_props(spec_run_upto(tm, t - 1), t, b + (t - 1));
    }
}

/// In a well-formed engine, at most one process is Running.
pub proof fn lemma_at_most_one_running(tm: TracerModel)
    requires
        tm.wf(),
    ensures
        forall|i: int, j: int|
            0 <= i < tm.procs.len() && 0 <= j < tm.procs.len() && (#[trigger] tm.procs[i]).state
                == ProcessState::Running && (#[trigger] tm.procs[j]).state == ProcessState::Running
                ==> i == j,
{
}

/// A Ready Task never preempts a Running Interrupt, whatever the priorities
/// and whatever the task-preemption policy.
pub proof fn lemma_interrupt_immunity(
    running: ProcessModel,
    ready: ProcessModel,
    task_use_preempt: bool,
)
    requires
        running.kind == ProcessKind::Interrupt,
        ready.kind == ProcessKind::Task,
    ensures
        !spec_may_preempt(running, ready, task_use_preempt),
{
}

/// The task-preemption gate: between two Tasks, preemption never happens
/// with the policy off, and happens exactly on strict priority improvement
/// with the policy on.
pub proof fn lemma_task_preemption_gate(running: ProcessModel, ready: ProcessModel)
    requires
        running.kind == ProcessKind::Task,
        ready.kind == ProcessKind::Task,
    ensures
        !spec_may_preempt(running, ready, false),
        spec_may_preempt(running, ready, true) == (ready.priority > running.priority),
{
}

/// When the preemption policy forbids displacing the active process by the
/// selected candidate — in particular when the candidate is a Task and the
/// active process an Interrupt, or both are Tasks and task preemption is
/// off — the dispatch step leaves the engine unchanged.
pub proof fn lemma_gate_closed_no_dispatch(tm: TracerModel, now: int, a: int, c: int)
    requires
        tm.wf(),
        tm.active == Some(a),
        spec_select_ready(tm.procs) == Some(c),
        !spec_may_preempt(tm.procs[a], tm.procs[c], tm.task_use_preempt),
    ensures
        spec_dispatch_phase(tm, now) == tm,
{
}

/// A non-preemptible active process is never displaced: the dispatch step
/// leaves the engine unchanged, whatever is Ready.
pub proof fn lemma_non_preemptible_runs_on(tm: TracerModel, now: int, a: int)
    requires
        tm.wf(),
        tm.active == Some(a),
        !tm.procs[a].preemptible,
    ensures
        spec_dispatch_phase(tm, now) == tm,
{
}

/// At every tick of a run that starts from a fresh configuration, at most
/// one process is Running.
pub proof fn lemma_run_at_most_one_running(tm: TracerModel, t: int)
    requires
        tm.at_start(),
        t >= 0,
    ensures
        forall|i: int, j: int|
            0 <= i < spec_run_upto(tm, t).procs.len() && 0 <= j < spec_run_upto(tm, t).procs.len()
                && (#[trigger] spec_run_upto(tm, t).procs[i]).state == ProcessState::Running && (
            #[trigger] spec_run_upto(tm, t).procs[j]).state == ProcessState::Running ==> i == j,
{
    assert(tm.wf());
    assert(tm.timers_le(0));
    lemma_run_upto_props(tm, t, 0);
    lemma_at_most_one_running(spec_run_upto(tm, t));
}

/// Replaying the same configuration for the same duration yields the same
/// trace and the same final state: the engine is a function of its inputs.
pub proof fn lemma_replay_deterministic(tm1: TracerModel, tm2: TracerModel, t: int)
    requires
        tm1 == tm2,
    ensures
        spec_run_upto(tm1, t) == spec_run_upto(tm2, t),
        spec_run_upto(tm1, t).trace == spec_run_upto(tm2, t).trace,
{
}

/// Per-process outcome of a run, for reporting.
pub struct ProcResult {
    pub name: String,
    /// Peak occupancy over the run, in hundredths of a percent.
    pub peak_occupancy: u64,
    /// The tick at which the peak was recorded.
    pub peak_tick: u64,
    /// Whether the peak exceeds 100 %: the process missed a deadline.
    pub delayed: bool,
}

/// Drives an ordered collection of processes through the simulated window
/// and accounts aggregate CPU use.
pub struct ProcessTracer {
    /// The processes, in registration order; index is identity.
    pub procs: Vec<Process>,
    /// The currently active (Running) process, as an index into `procs`.
    pub active_proc_idx: Option<usize>,
    /// Whether a Ready Task may preempt a Running Task.
    pub task_use_preempt: bool,
    /// Aggregate CPU use over the run, in hundredths of a percent; set when
    /// `run` returns.
    pub cpu_use_rate: u64,
    pub cpu_use_busy: u64,
    pub cpu_use_idle: u64,
    /// The transition events of the run, in emission order.
    pub trace: Vec<TraceEvent>,
}

impl View for ProcessTracer {
    type V = TracerModel;

    open spec fn view(&self) -> TracerModel {
        TracerModel {
            procs: self.procs@.map_values(|p: Process| p@),
            active: opt_idx_view(self.active_proc_idx),
            task_use_preempt: self.task_use_preempt,
            busy: self.cpu_use_busy as int,
            idle: self.cpu_use_idle as int,
            trace: self.trace@.map_values(|e: TraceEvent| e@),
        }
    }
}

impl ProcessTracer {
    /// Builds the engine over freshly configured processes, assigning each
    /// its identity in registration order.
    pub fn new(procs: Vec<Process>, task_use_preempt: bool) -> (t: ProcessTracer)
        requires
            forall|i: int| 0 <= i < procs@.len() ==> (#[trigger] procs@[i])@.initial(),
        ensures
            t@.at_start(),
            t@.wf(),
            t@.timers_le(0),
            t@.task_use_preempt == task_use_preempt,
            t@.procs.len() == procs@.len(),
            forall|i: int|
                0 <= i < procs@.len() ==> #[trigger] t@.procs[i] == (ProcessModel {
                    id: i,
                    ..procs@[i]@
                }),
            t.cpu_use_rate == 0,
    {
        let mut data = ProcessTracer {
            procs,
            active_proc_idx: None,
            task_use_preempt,
            cpu_use_rate: 0,
            cpu_use_busy: 0,
            cpu_use_idle: 0,
            trace: Vec::new(),
        };
        let ghost orig = data.procs@;
        let n = data.procs.len();
        let mut idx: usize = 0;
        while idx < n
            invariant
                n == data.procs@.len(),
                idx <= n,
                orig.len() == n,
                forall|j: int| 0 <= j < n ==> (#[trigger] orig[j])@.initial(),
                forall|j: int|
                    0 <= j < idx ==> #[trigger] data.procs@[j]@ == (ProcessModel {
                        id: j,
                        ..orig[j]@
                    }),
                forall|j: int| idx <= j < n ==> #[trigger] data.procs@[j] == orig[j],
                data.active_proc_idx is None,
                data.task_use_preempt == task_use_preempt,
                data.cpu_use_rate == 0,
                data.cpu_use_busy == 0,
                data.cpu_use_idle == 0,
                data.trace@.len() == 0,
            decreases n - idx,
        {
            let p = &mut data.procs[idx];
            p.id = idx;
            idx = idx + 1;
        }
        data
    }

    /// Clears the active slot when its process has reached Waiting by its
    /// own transition in the previous tick.
    fn check_running_proc(&mut self)
        requires
            old(self)@.wf(),
        ensures
            final(self)@ == spec_reconcile(old(self)@),
    {
        match self.active_proc_idx {
            Some(idx) => {
                if self.procs[idx].is_waiting() {
                    self.active_proc_idx = None;
                }
            },
            None => (),
        }
    }

    /// Picks the dispatch candidate: the Ready process of highest priority,
    /// ties broken by the longer ready time, remaining ties by registration
    /// order.
    fn get_prior_ready_proc(&self) -> (r: Option<usize>)
        ensures
            opt_idx_view(r) == spec_select_ready(self@.procs),
    {
        let mut result: Option<usize> = None;
        let mut max_pri: i64 = 0;
        let mut max_ready: u64 = 0;
        let n = self.procs.len();
        let mut i: usize = 0;
        while i < n
            invariant
                n == self.procs@.len(),
                i <= n,
                match result {
                    Some(b) => b < n && Some(b as int) == spec_select_ready_prefix(
                        self@.procs,
                        i as int,
                    ) && max_pri as int == self@.procs[b as int].priority && max_ready as int
                        == self@.procs[b as int].ready_timer,
                    None => spec_select_ready_prefix(self@.procs, i as int) is None,
                },
            decreases n - i,
        {
            if self.procs[i].is_ready() {
                match result {
                    Some(_b) => {
                        if self.procs[i].priority > max_pri {
                            result = Some(i);
                            max_pri = self.procs[i].priority;
                            max_ready = self.procs[i].ready_timer;
                        } else if self.procs[i].priority == max_pri {
                            if self.procs[i].ready_timer > max_ready {
                                result = Some(i);
                                max_pri = self.procs[i].priority;
                                max_ready = self.procs[i].ready_timer;
                            }
                        }
                    },
                    None => {
                        result = Some(i);
                        max_pri = self.procs[i].priority;
                        max_ready = self.procs[i].ready_timer;
                    },
                }
            }
            i = i + 1;
        }
        result
    }

    /// Whether `ready` may displace `running` under this engine's policy.
    fn check_prior_process(&self, running: &Process, ready: &Process) -> (r: bool)
        ensures
            r == spec_may_preempt(running@, ready@, self@.task_use_preempt),
    {
        if let ProcessKind::Task = ready.kind {
            if let ProcessKind::Interrupt = running.kind {
                return false;
            }
        }
        if running.priority >= ready.priority {
            return false;
        }
        if !self.task_use_preempt {
            if let ProcessKind::Task = ready.kind {
                if let ProcessKind::Task = running.kind {
                    return false;
                }
            }
        }
        true
    }

    /// The dispatch decision of this tick.
    fn get_prior_proc(&self) -> (r: Option<usize>)
        requires
            self@.wf(),
        ensures
            opt_idx_view(r) == spec_decision(self@),
    {
        proof {
            lemma_select_ready_prefix_props(self@.procs, self@.procs.len() as int);
        }
        let ready_proc_idx = self.get_prior_ready_proc();
        match self.active_proc_idx {
            Some(active_idx) => {
                if self.procs[active_idx].preemptible {
                    match ready_proc_idx {
                        Some(ready_idx) => {
                            if self.check_prior_process(
                                &self.procs[active_idx],
                                &self.procs[ready_idx],
                            ) {
                                Some(ready_idx)
                            } else {
                                None
                            }
                        },
                        None => None,
                    }
                } else {
                    None
                }
            },
            None => ready_proc_idx,
        }
    }

    /// Performs the dispatch decision: preempts the previous active process
    /// if one is displaced, then dispatches the new one, logging both
    /// transitions in this order.
    fn check_dispatch(&mut self, cpu_time: u64)
        requires
            old(self)@.wf(),
        ensures
            final(self)@ == spec_dispatch_phase(old(self)@, cpu_time as int),
    {
        let ghost tm0 = old(self)@;
        proof {
            lemma_decision_props(tm0);
        }
        let next_proc = self.get_prior_proc();
        match next_proc {
            Some(next_idx) => {
                match self.active_proc_idx {
                    Some(active_idx) => {
                        let ev = self.procs[active_idx].preempt(cpu_time);
                        self.trace.push(ev);
                        proof {
                            let pr = spec_preempt(tm0.procs[active_idx as int], cpu_time as int);
                            assert(self.procs@.map_values(|p: Process| p@) =~= tm0.procs.update(
                                active_idx as int,
                                pr.0,
                            ));
                            assert(self.trace@.map_values(|e: TraceEvent| e@) =~= tm0.trace.push(
                                pr.1,
                            ));
                        }
                    },
                    None => (),
                }
                let ghost tm1 = self@;
                self.active_proc_idx = Some(next_idx);
                let ev = self.procs[next_idx].dispatch(cpu_time);
                self.trace.push(ev);
                proof {
                    let d = spec_dispatch(tm1.procs[next_idx as int], cpu_time as int);
                    assert(self.procs@.map_values(|p: Process| p@) =~= tm1.procs.update(
                        next_idx as int,
                        d.0,
                    ));
                    assert(self.trace@.map_values(|e: TraceEvent| e@) =~= tm1.trace.push(d.1));
                }
            },
            None => (),
        }
    }

    /// Advances every process by `elapse` ticks, in registration order,
    /// collecting the events of the transitions taken.
    fn go_time(&mut self, cpu_time: u64, elapse: u64)
        requires
            old(self)@.wf(),
            elapse <= MAX_SIM_TIME,
            old(self)@.timers_le(MAX_SIM_TIME - elapse),
        ensures
            final(self)@ == spec_advance_phase(old(self)@, cpu_time as int, elapse as int),
    {
        let ghost tm0 = old(self)@;
        let n = self.procs.len();
        let mut i: usize = 0;
        while i < n
            invariant
                n == self.procs@.len(),
                i <= n,
                tm0.procs.len() == n,
                tm0.wf(),
                tm0.timers_le(MAX_SIM_TIME - elapse),
                elapse <= MAX_SIM_TIME,
                self@ == spec_advance_prefix(tm0, cpu_time as int, elapse as int, i as int),
                forall|j: int| i <= j < n ==> #[trigger] self@.procs[j] == tm0.procs[j],
            decreases n - i,
        {
            let ghost tm_prev = self@;
            let ev = self.procs[i].go(cpu_time, elapse);
            match ev {
                Some(e) => self.trace.push(e),
                None => (),
            }
            proof {
                let st = spec_advance(tm_prev.procs[i as int], cpu_time as int, elapse as int);
                assert(self.procs@.map_values(|p: Process| p@) =~= tm_prev.procs.update(
                    i as int,
                    st.0,
                ));
                match st.1 {
                    Some(e) => {
                        assert(self.trace@.map_values(|e: TraceEvent| e@) =~= tm_prev.trace.push(
                            e,
                        ));
                    },
                    None => (),
                }
                assert(self@ == spec_advance_prefix(
                    tm0,
                    cpu_time as int,
                    elapse as int,
                    i + 1,
                ));
            }
            i = i + 1;
        }
    }

    /// Accounts the tick that just ran: busy when a process is active, idle
    /// otherwise.
    fn check_cpu_use(&mut self)
        requires
            old(self)@.busy < MAX_SIM_TIME,
            old(self)@.idle < MAX_SIM_TIME,
        ensures
            final(self)@ == spec_check_cpu_use(old(self)@),
    {
        match self.active_proc_idx {
            Some(_idx) => {
                self.cpu_use_busy = self.cpu_use_busy + 1;
            },
            None => {
                self.cpu_use_idle = self.cpu_use_idle + 1;
            },
        }
    }

    /// Runs the simulation for ticks `1..=trace_time` and computes the
    /// aggregate CPU-use rate.  The run is a pure function of the
    /// configuration: the final state and the whole trace equal the
    /// spec-level model of the tick loop, and the busy and idle counters
    /// partition the duration exactly.
    pub fn run(&mut self, trace_time: u64)
        requires
            old(self)@.at_start(),
            1 <= trace_time <= MAX_SIM_TIME,
        ensures
            final(self)@ == spec_run_upto(old(self)@, trace_time as int),
            final(self)@.wf(),
            final(self)@.busy + final(self)@.idle == trace_time,
            final(self).cpu_use_rate as int == spec_run_upto(old(self)@, trace_time as int).busy
                * OCCUPANCY_SCALE / trace_time as int,
            final(self).cpu_use_rate <= OCCUPANCY_SCALE,
    {
        let ghost init = self@;
        proof {
            assert(init.wf());
            assert(init.timers_le(0));
        }
        let timemax = trace_time;
        let mut cpu_time: u64 = 1;
        while cpu_time <= timemax
            invariant
                1 <= cpu_time <= timemax + 1,
                1 <= timemax <= MAX_SIM_TIME,
                self@ == spec_run_upto(init, cpu_time - 1),
                self@.wf(),
                self@.timers_le(cpu_time - 1),
                self@.busy + self@.idle == cpu_time - 1,
                self@.busy >= 0,
                self@.idle >= 0,
            decreases timemax + 1 - cpu_time,
        {
            let ghost pre = self@;
            self.check_running_proc();
            proof {
                lemma_reconcile_props(pre);
            }
            self.check_dispatch(cpu_time);
            proof {
                lemma_dispatch_phase_props(spec_reconcile(pre), cpu_time as int);
            }
            self.go_time(cpu_time, 1);
            proof {
                lemma_advance_prefix_props(
                    spec_dispatch_phase(spec_reconcile(pre), cpu_time as int),
                    cpu_time as int,
                    1,
                    pre.procs.len() as int,
                    cpu_time - 1,
                );
            }
            self.check_cpu_use();
            proof {
                assert(self@ == spec_tick(pre, cpu_time as int));
                assert(self@ == spec_run_upto(init, cpu_time as int));
                lemma_tick_props(pre, cpu_time as int, cpu_time - 1);
            }
            cpu_time = cpu_time + 1;
        }
        self.cpu_use_rate = self.cpu_use_busy * OCCUPANCY_SCALE / timemax;
        proof {
            lemma_run_upto_props(init, timemax as int, 0);
            // the busy count is at most the duration, so the rate is at
            // most 100 %
            let busy = self@.busy;
            assert(busy * OCCUPANCY_SCALE <= timemax as int * OCCUPANCY_SCALE);
            vstd::arithmetic::div_mod::lemma_div_is_ordered(
                busy * OCCUPANCY_SCALE,
                timemax as int * OCCUPANCY_SCALE,
                timemax as int,
            );
            vstd::arithmetic::div_mod::lemma_div_multiples_vanish(
                OCCUPANCY_SCALE as int,
                timemax as int,
            );
        }
    }

    /// The busy-tick count of the run so far.
    pub fn busy_ticks(&self) -> (r: u64)
        ensures
            r as int == self@.busy,
    {
        self.cpu_use_busy
    }

    /// The idle-tick count of the run so far.
    pub fn idle_ticks(&self) -> (r: u64)
        ensures
            r as int == self@.idle,
    {
        self.cpu_use_idle
    }

    /// Per-process outcomes: each process's name, peak occupancy, the tick
    /// of the peak, and whether the peak exceeds 100 % (a missed deadline).
    pub fn proc_results(&self) -> (r: Vec<ProcResult>)
        ensures
            r@.len() == self@.procs.len(),
            forall|i: int|
                0 <= i < r@.len() ==> {
                    let pr = #[trigger] r@[i];
                    &&& pr.name@ == self@.procs[i].name
                    &&& pr.peak_occupancy as int == self@.procs[i].peak_occupancy
                    &&& pr.peak_tick as int == self@.procs[i].peak_tick
                    &&& pr.delayed == (self@.procs[i].peak_occupancy > OCCUPANCY_SCALE)
                },
    {
        let mut out: Vec<ProcResult> = Vec::new();
        let n = self.procs.len();
        let mut i: usize = 0;
        while i < n
            invariant
                n == self.procs@.len(),
                i <= n,
                out@.len() == i,
                forall|j: int|
                    0 <= j < i ==> {
                        let pr = #[trigger] out@[j];
                        &&& pr.name@ == self@.procs[j].name
                        &&& pr.peak_occupancy as int == self@.procs[j].peak_occupancy
                        &&& pr.peak_tick as int == self@.procs[j].peak_tick
                        &&& pr.delayed == (self@.procs[j].peak_occupancy > OCCUPANCY_SCALE)
                    },
            decreases n - i,
        {
            let p = &self.procs[i];
            out.push(
                ProcResult {
                    name: p.name.clone(),
                    peak_occupancy: p.peak_occupancy,
                    peak_tick: p.peak_tick,
                    delayed: p.peak_occupancy > OCCUPANCY_SCALE,
                },
            );
            i = i + 1;
        }
        out
    }
}

} // verus!
