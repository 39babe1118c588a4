//! The task registry: the single source of truth for task state and control
//! signalling, keyed by chapter id. Every mutation goes through it; a key
//! maps to at most one task at any time.

use vstd::prelude::*;

use crate::error::DownloadError;
use crate::task::{
    initial_task, task_step, checkpoint_action, live_state, ControlSignal, FetchOutcome, Progress,
    RunnerAction, Task, TaskEvent, TaskPayload, TaskState,
};

verus! {

/// No two tasks share a key.
pub open spec fn keys_unique(s: Seq<Task>) -> bool {
    forall|i: int, j: int| 0 <= i < j < s.len()
        ==> s[i].chapter_id != s[j].chapter_id
}

/// Whether some task in `s` carries the key.
pub open spec fn has_key(s: Seq<Task>, key: i64) -> bool {
    exists|i: int| 0 <= i < s.len() && s[i].chapter_id == key
}

/// The index of the task with the key (meaningful only under `has_key`;
/// unique under `keys_unique`).
pub open spec fn key_index(s: Seq<Task>, key: i64) -> int {
    choose|i: int| 0 <= i < s.len() && s[i].chapter_id == key
}

/// Under unique keys, any index holding the key is the one `key_index` names.
pub proof fn lemma_key_index_unique(s: Seq<Task>, key: i64, i: int)
    requires
        keys_unique(s),
        0 <= i < s.len(),
        s[i].chapter_id == key,
    ensures
        has_key(s, key),
        key_index(s, key) == i,
{
    assert(has_key(s, key));
    let j = key_index(s, key);
    if i < j {
        assert(s[i].chapter_id != s[j].chapter_id);
    } else if j < i {
        assert(s[j].chapter_id != s[i].chapter_id);
    }
}

/// A consistent read-only snapshot of one task, as `get` hands it out.
#[derive(Clone, Copy, PartialEq, Eq, Structural, Debug)]
pub struct TaskSnapshot {
    pub chapter_id: i64,
    pub state: TaskState,
    pub progress: Progress,
}

/// The snapshot a task yields.
pub open spec fn snapshot_of(t: Task) -> TaskSnapshot {
    TaskSnapshot { chapter_id: t.chapter_id, state: t.state, progress: t.progress }
}

/// The registry itself: an exclusive-access store of tasks. Callers hold it
/// only for short, non-suspending critical sections.
pub struct TaskRegistry {
    pub tasks: Vec<Task>,
}

impl TaskRegistry {
    /// Keys are unique and every task is internally consistent.
    pub open spec fn wf(self) -> bool {
        &&& keys_unique(self.tasks@)
        &&& forall|i: int| 0 <= i < self.tasks@.len() ==> (#[trigger] self.tasks@[i]).wf()
    }

    pub fn new() -> (r: TaskRegistry)
        ensures
            r.tasks@.len() == 0,
            r.wf(),
    {
        TaskRegistry { tasks: Vec::new() }
    }

    /// The index of the task with `key`, if the registry holds one.
    fn find(&self, key: i64) -> (r: Option<usize>)
        requires
            self.wf(),
        ensures
            match r {
                Some(i) => i < self.tasks@.len() && self.tasks@[i as int].chapter_id == key
                    && has_key(self.tasks@, key) && key_index(self.tasks@, key) == i,
                None => !has_key(self.tasks@, key),
            },
    {
        let n = self.tasks.len();
        let mut i: usize = 0;
        while i < n
            invariant
                self.wf(),
                i <= n,
                n == self.tasks@.len(),
                forall|j: int| 0 <= j < i ==> self.tasks@[j].chapter_id != key,
            decreases n - i,
        {
            if self.tasks[i].chapter_id == key {
                proof {
                    lemma_key_index_unique(self.tasks@, key, i as int);
                }
                return Some(i);
            }
            i = i + 1;
        }
        None
    }

    /// Idempotent creation (the invariant of §task lifecycle): a key with a
    /// live task is left untouched; a terminal task is superseded by a fresh
    /// pending one; an unknown key gains a fresh pending task. Returns true
    /// exactly when a fresh task was installed — when a new runner must be
    /// spawned.
    pub fn upsert(&mut self, key: i64, payload: TaskPayload) -> (r: bool)
        requires
            old(self).wf(),
        ensures
            final(self).wf(),
            has_key(final(self).tasks@, key),
            ({
                let s = old(self).tasks@;
                if has_key(s, key) && live_state(s[key_index(s, key)].state) {
                    r == false && final(self).tasks@ == s
                } else if has_key(s, key) {
                    r == true && final(self).tasks@ == s.update(
                        key_index(s, key),
                        initial_task(key, payload),
                    )
                } else {
                    r == true && final(self).tasks@ == s.push(initial_task(key, payload))
                }
            }),
    {
        match self.find(key) {
            Some(i) => {
                let live = matches!(
                    self.tasks[i].state,
                    TaskState::Pending | TaskState::Running | TaskState::Paused,
                );
                if live {
                    false
                } else {
                    let fresh = Task::new(key, payload);
                    self.tasks[i] = fresh;
                    proof {
                        assert forall|a: int, b: int| 0 <= a < b < self.tasks@.len()
                            implies self.tasks@[a].chapter_id != self.tasks@[b].chapter_id by {
                            assert(old(self).tasks@[a].chapter_id == self.tasks@[a].chapter_id);
                            assert(old(self).tasks@[b].chapter_id == self.tasks@[b].chapter_id);
                        }
                    }
                    true
                }
            },
            None => {
                let fresh = Task::new(key, payload);
                self.tasks.push(fresh);
                proof {
                    lemma_key_index_unique(self.tasks@, key, self.tasks@.len() - 1);
                }
                true
            },
        }
    }

    /// A consistent snapshot of the task under `key`.
    pub fn get(&self, key: i64) -> (r: Option<TaskSnapshot>)
        requires
            self.wf(),
        ensures
            r is Some <==> has_key(self.tasks@, key),
            r matches Some(snap)
                ==> snap == snapshot_of(self.tasks@[key_index(self.tasks@, key)]),
    {
        match self.find(key) {
            Some(i) => {
                let t = &self.tasks[i];
                Some(TaskSnapshot { chapter_id: t.chapter_id, state: t.state, progress: t.progress })
            },
            None => None,
        }
    }

    /// Relay a pause, resume or cancel request to the task under `key`.
    /// Signalling a task not in a live state is a no-op, not an error;
    /// an unknown key fails with `TaskNotFound`.
    pub fn signal(&mut self, key: i64, sig: ControlSignal) -> (r: Result<(), DownloadError>)
        requires
            old(self).wf(),
        ensures
            final(self).wf(),
            ({
                let s = old(self).tasks@;
                match r {
                    Ok(()) => has_key(s, key) && final(self).tasks@ == s.update(
                        key_index(s, key),
                        task_step(s[key_index(s, key)], TaskEvent::Signal(sig)),
                    ),
                    Err(e) => e is TaskNotFound && !has_key(s, key)
                        && final(self).tasks@ == s,
                }
            }),
    {
        match self.find(key) {
            Some(i) => {
                self.tasks[i].signal(sig);
                proof {
                    self.lemma_update_keeps_wf(*old(self), i as int, TaskEvent::Signal(sig));
                }
                Ok(())
            },
            None => Err(DownloadError::TaskNotFound),
        }
    }

    /// A runner checkpoint on the task under `key`: consume the pending
    /// signal, transition, and return the action the runner is to take.
    pub fn checkpoint(&mut self, key: i64) -> (r: Result<RunnerAction, DownloadError>)
        requires
            old(self).wf(),
        ensures
            final(self).wf(),
            ({
                let s = old(self).tasks@;
                match r {
                    Ok(a) => has_key(s, key) && a == checkpoint_action(s[key_index(s, key)])
                        && final(self).tasks@ == s.update(
                        key_index(s, key),
                        task_step(s[key_index(s, key)], TaskEvent::Checkpoint),
                    ),
                    Err(e) => e is TaskNotFound && !has_key(s, key)
                        && final(self).tasks@ == s,
                }
            }),
    {
        match self.find(key) {
            Some(i) => {
                let a = self.tasks[i].checkpoint();
                proof {
                    self.lemma_update_keeps_wf(*old(self), i as int, TaskEvent::Checkpoint);
                }
                Ok(a)
            },
            None => Err(DownloadError::TaskNotFound),
        }
    }

    /// The runner learned the sub-unit total of the task under `key`.
    pub fn set_total(&mut self, key: i64, n: u32) -> (r: Result<(), DownloadError>)
        requires
            old(self).wf(),
        ensures
            final(self).wf(),
            ({
                let s = old(self).tasks@;
                match r {
                    Ok(()) => has_key(s, key) && final(self).tasks@ == s.update(
                        key_index(s, key),
                        task_step(s[key_index(s, key)], TaskEvent::TotalKnown(n)),
                    ),
                    Err(e) => e is TaskNotFound && !has_key(s, key)
                        && final(self).tasks@ == s,
                }
            }),
    {
        match self.find(key) {
            Some(i) => {
                self.tasks[i].set_total(n);
                proof {
                    self.lemma_update_keeps_wf(*old(self), i as int, TaskEvent::TotalKnown(n));
                }
                Ok(())
            },
            None => Err(DownloadError::TaskNotFound),
        }
    }

    /// The runner reports one sub-unit fetch outcome for the task under `key`.
    pub fn record(&mut self, key: i64, oc: FetchOutcome) -> (r: Result<(), DownloadError>)
        requires
            old(self).wf(),
        ensures
            final(self).wf(),
            ({
                let s = old(self).tasks@;
                match r {
                    Ok(()) => has_key(s, key) && final(self).tasks@ == s.update(
                        key_index(s, key),
                        task_step(s[key_index(s, key)], TaskEvent::Fetched(oc)),
                    ),
                    Err(e) => e is TaskNotFound && !has_key(s, key)
                        && final(self).tasks@ == s,
                }
            }),
    {
        match self.find(key) {
            Some(i) => {
                self.tasks[i].record(oc);
                proof {
                    self.lemma_update_keeps_wf(*old(self), i as int, TaskEvent::Fetched(oc));
                }
                Ok(())
            },
            None => Err(DownloadError::TaskNotFound),
        }
    }

    /// Stepping one task in place keeps the registry well-formed: events do
    /// not change the key, and every step preserves the task's consistency.
    proof fn lemma_update_keeps_wf(&self, prev: TaskRegistry, i: int, ev: TaskEvent)
        requires
            prev.wf(),
            0 <= i < prev.tasks@.len(),
            self.tasks@ == prev.tasks@.update(i, task_step(prev.tasks@[i], ev)),
        ensures
            self.wf(),
    {
        crate::task::lemma_step_preserves_wf(prev.tasks@[i], ev);
        assert forall|a: int, b: int| 0 <= a < b < self.tasks@.len()
            implies self.tasks@[a].chapter_id != self.tasks@[b].chapter_id by {
            assert(prev.tasks@[a].chapter_id != prev.tasks@[b].chapter_id);
        }
    }
}

} // verus!
