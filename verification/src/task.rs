//! One download task and the state machine its runner drives.
//!
//! A task moves `Pending -> Running <-> Paused -> {Completed, Failed,
//! Cancelled}`; `Pending -> Cancelled` and `Running -> Cancelled` are direct
//! edges, and the three end states are terminal. The runner is an outside
//! loop: it calls `checkpoint` to learn the next action, performs the fetch
//! that the action names, and hands the outcome back through `record`.
//! Manager operations only write the control slot through `signal`; the
//! state itself changes at checkpoints alone.

use vstd::prelude::*;

verus! {

/// How often one sub-unit fetch is retried before the task fails.
pub const MAX_RETRIES: u32 = 3;

/// Lifecycle states of a task.
#[derive(Clone, Copy, PartialEq, Eq, Structural, Debug)]
pub enum TaskState {
    Pending,
    Running,
    Paused,
    Cancelled,
    Completed,
    Failed,
}

/// A request relayed to the runner through the control slot (latest wins).
#[derive(Clone, Copy, PartialEq, Eq, Structural, Debug)]
pub enum ControlSignal {
    Pause,
    Resume,
    Cancel,
}

/// The outcome of one sub-unit fetch, as the runner reports it.
#[derive(Clone, Copy, PartialEq, Eq, Structural, Debug)]
pub enum FetchOutcome {
    Success,
    Retryable,
    Fatal,
}

/// What the runner is to do next, as decided at a checkpoint.
///
/// `FetchList` asks for the sub-unit list (to learn the total),
/// `Fetch(i)` for sub-unit `i`, `Idle` to wait for a signal (paused),
/// `Done` to stop (terminal state reached).
#[derive(Clone, Copy, PartialEq, Eq, Structural, Debug)]
pub enum RunnerAction {
    FetchList,
    Fetch(u32),
    Idle,
    Done,
}

/// Progress counters of a task: completed sub-units against the known total.
#[derive(Clone, Copy, PartialEq, Eq, Structural, Debug)]
pub struct Progress {
    pub completed: u32,
    pub total: Option<u32>,
}

/// The metadata a task keeps of its owning item: enough to resume fetching
/// and to compute the destination directory.
#[derive(Debug)]
pub struct TaskPayload {
    pub comic_id: i64,
    pub comic_title: String,
}

/// One unit of download work, keyed by its chapter id.
#[derive(Debug)]
pub struct Task {
    pub chapter_id: i64,
    pub payload: TaskPayload,
    pub state: TaskState,
    pub control: Option<ControlSignal>,
    pub progress: Progress,
    pub retries: u32,
}

/// Everything that may happen to one task.
#[derive(Clone, Copy, PartialEq, Eq, Structural, Debug)]
pub enum TaskEvent {
    Signal(ControlSignal),
    Checkpoint,
    TotalKnown(u32),
    Fetched(FetchOutcome),
}

/// A state a signal can still reach.
pub open spec fn live_state(st: TaskState) -> bool {
    st is Pending || st is Running || st is Paused
}

/// A state no event leaves again.
pub open spec fn terminal_state(st: TaskState) -> bool {
    st is Cancelled || st is Completed || st is Failed
}

/// How a consumed signal moves the state. Signals that do not apply to the
/// current state are dropped without effect.
pub open spec fn apply_signal(st: TaskState, sig: ControlSignal) -> TaskState {
    match sig {
        ControlSignal::Cancel => if live_state(st) { TaskState::Cancelled } else { st },
        ControlSignal::Pause => if st is Running { TaskState::Paused } else { st },
        ControlSignal::Resume => if st is Paused { TaskState::Running } else { st },
    }
}

/// The first half of a checkpoint: take the pending signal, if any, out of
/// the control slot and apply it.
pub open spec fn consume_signal(t: Task) -> Task {
    match t.control {
        None => t,
        Some(sig) => Task { state: apply_signal(t.state, sig), control: None, ..t },
    }
}

/// The second half of a checkpoint: choose the next action from the state.
/// A pending or running task learns its total first, then fetches the next
/// sub-unit — always the one at index `completed` — and completes when the
/// total is reached.
pub open spec fn checkpoint_action(t: Task) -> RunnerAction {
    let u = consume_signal(t);
    if u.state is Pending || u.state is Running {
        match u.progress.total {
            None => RunnerAction::FetchList,
            Some(n) => if u.progress.completed >= n {
                RunnerAction::Done
            } else {
                RunnerAction::Fetch(u.progress.completed)
            },
        }
    } else if u.state is Paused {
        RunnerAction::Idle
    } else {
        RunnerAction::Done
    }
}

/// How one event changes a task.
pub open spec fn task_step(t: Task, ev: TaskEvent) -> Task {
    match ev {
        TaskEvent::Signal(sig) => if live_state(t.state) {
            Task { control: Some(sig), ..t }
        } else {
            t
        },
        TaskEvent::Checkpoint => {
            let u = consume_signal(t);
            if u.state is Pending || u.state is Running {
                match u.progress.total {
                    None => Task { state: TaskState::Running, ..u },
                    Some(n) => if u.progress.completed >= n {
                        Task { state: TaskState::Completed, ..u }
                    } else {
                        Task { state: TaskState::Running, ..u }
                    },
                }
            } else {
                u
            }
        },
        TaskEvent::TotalKnown(n) => if t.state is Running && t.progress.total is None
            && t.progress.completed <= n {
            Task { progress: Progress { completed: t.progress.completed, total: Some(n) }, ..t }
        } else {
            t
        },
        TaskEvent::Fetched(oc) => if t.state is Running {
            match oc {
                FetchOutcome::Success => if t.progress.total matches Some(n)
                    && t.progress.completed < n {
                    Task {
                        progress: Progress {
                            completed: (t.progress.completed + 1) as u32,
                            total: t.progress.total,
                        },
                        retries: 0,
                        ..t
                    }
                } else {
                    t
                },
                FetchOutcome::Retryable => if t.retries + 1 >= MAX_RETRIES {
                    Task { state: TaskState::Failed, ..t }
                } else {
                    Task { retries: (t.retries + 1) as u32, ..t }
                },
                FetchOutcome::Fatal => Task { state: TaskState::Failed, ..t },
            }
        } else {
            t
        },
    }
}

/// The task after a whole sequence of events.
pub open spec fn task_run(t: Task, evs: Seq<TaskEvent>) -> Task
    decreases evs.len(),
{
    if evs.len() == 0 {
        t
    } else {
        task_run(task_step(t, evs[0]), evs.drop_first())
    }
}

/// The task `Task::new` builds: pending, no signal, no progress.
pub open spec fn initial_task(chapter_id: i64, payload: TaskPayload) -> Task {
    Task {
        chapter_id,
        payload,
        state: TaskState::Pending,
        control: None,
        progress: Progress { completed: 0, total: None },
        retries: 0,
    }
}

impl Task {
    /// Internal consistency: progress never exceeds an established total, a
    /// completed task has exhausted its total, nothing is completed before
    /// the total is known, and the retry counter stays within its bound.
    pub open spec fn wf(self) -> bool {
        &&& (self.progress.total matches Some(n) ==> self.progress.completed <= n)
        &&& (self.progress.total is None ==> self.progress.completed == 0)
        &&& (self.state is Completed ==> (self.progress.total matches Some(n)
            && self.progress.completed == n))
        &&& self.retries <= MAX_RETRIES
    }

    /// A fresh task: pending, no signal, no progress.
    pub fn new(chapter_id: i64, payload: TaskPayload) -> (r: Task)
        ensures
            r == initial_task(chapter_id, payload),
            r.wf(),
    {
        Task {
            chapter_id,
            payload,
            state: TaskState::Pending,
            control: None,
            progress: Progress { completed: 0, total: None },
            retries: 0,
        }
    }

    /// Write the control slot (latest wins). A no-op on a terminal task.
    pub fn signal(&mut self, sig: ControlSignal)
        ensures
            *final(self) == task_step(*old(self), TaskEvent::Signal(sig)),
    {
        if matches!(self.state, TaskState::Pending | TaskState::Running | TaskState::Paused) {
            self.control = Some(sig);
        }
    }

    /// A runner checkpoint: consume the pending signal, transition, and
    /// return the next action.
    pub fn checkpoint(&mut self) -> (r: RunnerAction)
        ensures
            *final(self) == task_step(*old(self), TaskEvent::Checkpoint),
            r == checkpoint_action(*old(self)),
    {
        if let Some(sig) = self.control {
            self.control = None;
            self.state = match sig {
                ControlSignal::Cancel => if matches!(
                    self.state,
                    TaskState::Pending | TaskState::Running | TaskState::Paused,
                ) {
                    TaskState::Cancelled
                } else {
                    self.state
                },
                ControlSignal::Pause => if matches!(self.state, TaskState::Running) {
                    TaskState::Paused
                } else {
                    self.state
                },
                ControlSignal::Resume => if matches!(self.state, TaskState::Paused) {
                    TaskState::Running
                } else {
                    self.state
                },
            };
        }
        match self.state {
            TaskState::Pending | TaskState::Running => {
                match self.progress.total {
                    None => {
                        self.state = TaskState::Running;
                        RunnerAction::FetchList
                    },
                    Some(n) => {
                        if self.progress.completed >= n {
                            self.state = TaskState::Completed;
                            RunnerAction::Done
                        } else {
                            self.state = TaskState::Running;
                            RunnerAction::Fetch(self.progress.completed)
                        }
                    },
                }
            },
            TaskState::Paused => RunnerAction::Idle,
            _ => RunnerAction::Done,
        }
    }

    /// The sub-unit list arrived: establish the total. Ignored unless the
    /// task is running, the total is still unknown and the already completed
    /// count fits under it.
    pub fn set_total(&mut self, n: u32)
        ensures
            *final(self) == task_step(*old(self), TaskEvent::TotalKnown(n)),
    {
        if matches!(self.state, TaskState::Running) && self.progress.total.is_none()
            && self.progress.completed <= n {
            self.progress = Progress { completed: self.progress.completed, total: Some(n) };
        }
    }

    /// One fetch came back — the sub-unit list or one sub-unit: count a
    /// success, retry a transient failure up to the bound, fail the task on
    /// a fatal one. Ignored unless the task is running.
    pub fn record(&mut self, oc: FetchOutcome)
        ensures
            *final(self) == task_step(*old(self), TaskEvent::Fetched(oc)),
    {
        if matches!(self.state, TaskState::Running) {
            match oc {
                FetchOutcome::Success => {
                    let countable = match self.progress.total {
                        Some(n) => self.progress.completed < n,
                        None => false,
                    };
                    if countable {
                        self.progress = Progress {
                            completed: self.progress.completed + 1,
                            total: self.progress.total,
                        };
                        self.retries = 0;
                    }
                },
                FetchOutcome::Retryable => {
                    if self.retries >= MAX_RETRIES - 1 {
                        self.state = TaskState::Failed;
                    } else {
                        self.retries = self.retries + 1;
                    }
                },
                FetchOutcome::Fatal => {
                    self.state = TaskState::Failed;
                },
            }
        }
    }
}

/// Every event keeps a task well-formed.
pub proof fn lemma_step_preserves_wf(t: Task, ev: TaskEvent)
    requires
        t.wf(),
    ensures
        task_step(t, ev).wf(),
{
}

/// Law (progress monotonicity, one event): `completed` never decreases, and
/// once the total is established it never changes and `completed` stays
/// within it.
pub proof fn lemma_progress_monotone_step(t: Task, ev: TaskEvent)
    requires
        t.wf(),
    ensures
        task_step(t, ev).progress.completed >= t.progress.completed,
        t.progress.total matches Some(n) ==> task_step(t, ev).progress.total == t.progress.total
            && task_step(t, ev).progress.completed <= n,
{
}

/// Law (progress monotonicity, whole run): along any sequence of events —
/// signals, checkpoints, fetch outcomes, in any interleaving — `completed`
/// never decreases and never exceeds a total established at the start.
pub proof fn lemma_progress_monotone_run(t: Task, evs: Seq<TaskEvent>)
    requires
        t.wf(),
    ensures
        task_run(t, evs).wf(),
        task_run(t, evs).progress.completed >= t.progress.completed,
        t.progress.total matches Some(n) ==> task_run(t, evs).progress.total == t.progress.total
            && task_run(t, evs).progress.completed <= n,
    decreases evs.len(),
{
    if evs.len() > 0 {
        lemma_step_preserves_wf(t, evs[0]);
        lemma_progress_monotone_step(t, evs[0]);
        lemma_progress_monotone_run(task_step(t, evs[0]), evs.drop_first());
    }
}

/// A terminal state never changes again, whatever event arrives: no
/// resurrection of a cancelled, completed or failed task.
pub proof fn lemma_terminal_stable(t: Task, evs: Seq<TaskEvent>)
    requires
        terminal_state(t.state),
    ensures
        task_run(t, evs).state == t.state,
    decreases evs.len(),
{
    if evs.len() > 0 {
        lemma_terminal_stable(task_step(t, evs[0]), evs.drop_first());
    }
}

/// Law (cancellation safety): once a task is cancelled, every later
/// checkpoint still finds it cancelled and answers `Done` — no further fetch
/// is ever requested for that key.
pub proof fn lemma_cancelled_no_fetch(t: Task, evs: Seq<TaskEvent>)
    requires
        t.state is Cancelled,
    ensures
        task_run(t, evs).state is Cancelled,
        !(checkpoint_action(task_run(t, evs)) matches RunnerAction::Fetch(_)),
        checkpoint_action(task_run(t, evs)) == RunnerAction::Done,
{
    lemma_terminal_stable(t, evs);
}

/// A checkpoint only ever asks for the sub-unit at index `completed`: the
/// next one after those already done.
pub proof fn lemma_fetch_targets_next(t: Task)
    ensures
        checkpoint_action(t) matches RunnerAction::Fetch(i)
            ==> i == consume_signal(t).progress.completed && i == t.progress.completed,
{
}

/// Law (resumability): whatever happened in between — pauses, resumes, any
/// interleaving of events — a later checkpoint never asks again for a
/// sub-unit that was already complete at the start. Work done before a pause
/// is never re-fetched.
pub proof fn lemma_no_refetch(t: Task, evs: Seq<TaskEvent>)
    requires
        t.wf(),
    ensures
        checkpoint_action(task_run(t, evs)) matches RunnerAction::Fetch(i)
            ==> i >= t.progress.completed,
{
    lemma_progress_monotone_run(t, evs);
    lemma_fetch_targets_next(task_run(t, evs));
}

} // verus!
