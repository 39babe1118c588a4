//! The download manager: the public-facing coordinator. It owns the task
//! registry, validates every intent against it, and decides when a new
//! runner has to be spawned. All four operations enqueue intent and return
//! at once; actual state change is observed asynchronously through `get`
//! snapshots or progress events.

use vstd::prelude::*;

use crate::comic::{comic_tracked, has_chapter, payload_valid, undownloaded_ids, Comic};
use crate::error::DownloadError;
use crate::registry::{has_key, key_index, lemma_key_index_unique, TaskRegistry};
use crate::task::{task_step, initial_task, ControlSignal, TaskEvent, TaskPayload};

verus! {

/// The payload a task keeps of its comic.
pub open spec fn payload_of(c: Comic) -> TaskPayload {
    TaskPayload { comic_id: c.id, comic_title: c.name }
}

/// The chapters the selection step queues for one comic: those not yet
/// downloaded.
pub open spec fn plan_of(c: Comic) -> Seq<i64> {
    undownloaded_ids(c.chapter_infos@)
}

/// A key the selection step over `comics` may create a task for: a missing
/// chapter of a locally tracked comic. The frame clauses below promise that
/// no other key ever appears.
pub open spec fn planned_key(comics: Seq<Comic>, k: i64) -> bool {
    exists|ci: int| 0 <= ci < comics.len() && comic_tracked(comics[ci])
        && #[trigger] plan_of(comics[ci]).contains(k)
}

/// A comic the selection step cannot serve: tracked, with chapters left to
/// queue, but without the title that keys its destination. Only such a comic
/// makes the selection step fail.
pub open spec fn selection_blocked(c: Comic) -> bool {
    comic_tracked(c) && plan_of(c).len() > 0 && c.name@.len() == 0
}

pub struct DownloadManager {
    pub registry: TaskRegistry,
}

impl DownloadManager {
    pub open spec fn wf(self) -> bool {
        self.registry.wf()
    }

    pub fn new() -> (r: DownloadManager)
        ensures
            r.registry.tasks@.len() == 0,
            r.wf(),
    {
        DownloadManager { registry: TaskRegistry::new() }
    }

    /// Create (or revive) the download task for one chapter. Fails only on a
    /// structurally invalid payload — a missing title or a chapter the comic
    /// does not contain; otherwise it always succeeds and is safe to call
    /// repeatedly: a live task under the key is left exactly as it was.
    /// `Ok(true)` says a fresh task was installed and a runner must be
    /// spawned; `Ok(false)` says a live task already drives the key.
    pub fn create_download_task(&mut self, comic: &Comic, chapter_id: i64) -> (r: Result<
        bool,
        DownloadError,
    >)
        requires
            old(self).wf(),
        ensures
            final(self).wf(),
            ({
                let s = old(self).registry.tasks@;
                match r {
                    Ok(spawned) => payload_valid(*comic, chapter_id)
                        && has_key(final(self).registry.tasks@, chapter_id)
                        && if has_key(s, chapter_id)
                            && crate::task::live_state(s[key_index(s, chapter_id)].state) {
                            spawned == false && final(self).registry.tasks@ == s
                        } else if has_key(s, chapter_id) {
                            spawned == true && final(self).registry.tasks@ == s.update(
                                key_index(s, chapter_id),
                                initial_task(chapter_id, payload_of(*comic)),
                            )
                        } else {
                            spawned == true && final(self).registry.tasks@ == s.push(
                                initial_task(chapter_id, payload_of(*comic)),
                            )
                        },
                    Err(e) => e is InvalidPayload && !payload_valid(*comic, chapter_id)
                        && final(self).registry.tasks@ == s,
                }
            }),
    {
        if comic.name.as_str().is_empty() || !comic.contains_chapter(chapter_id) {
            return Err(DownloadError::InvalidPayload);
        }
        let payload = TaskPayload { comic_id: comic.id, comic_title: comic.name.clone() };
        let spawned = self.registry.upsert(chapter_id, payload);
        Ok(spawned)
    }

    /// Ask the runner of the chapter's task to pause. Unknown keys fail with
    /// `TaskNotFound`; a task no longer live absorbs the signal silently.
    pub fn pause_download_task(&mut self, chapter_id: i64) -> (r: Result<(), DownloadError>)
        requires
            old(self).wf(),
        ensures
            final(self).wf(),
            signal_outcome(old(self).registry.tasks@, final(self).registry.tasks@, chapter_id,
                ControlSignal::Pause, r),
    {
        self.registry.signal(chapter_id, ControlSignal::Pause)
    }

    /// Ask the runner of the chapter's task to resume after a pause.
    pub fn resume_download_task(&mut self, chapter_id: i64) -> (r: Result<(), DownloadError>)
        requires
            old(self).wf(),
        ensures
            final(self).wf(),
            signal_outcome(old(self).registry.tasks@, final(self).registry.tasks@, chapter_id,
                ControlSignal::Resume, r),
    {
        self.registry.signal(chapter_id, ControlSignal::Resume)
    }

    /// Ask the runner of the chapter's task to cancel.
    pub fn cancel_download_task(&mut self, chapter_id: i64) -> (r: Result<(), DownloadError>)
        requires
            old(self).wf(),
        ensures
            final(self).wf(),
            signal_outcome(old(self).registry.tasks@, final(self).registry.tasks@, chapter_id,
                ControlSignal::Cancel, r),
    {
        self.registry.signal(chapter_id, ControlSignal::Cancel)
    }

    /// Queue every chapter of `ids` for download. With chapters to queue
    /// this fails exactly when the comic's title is missing, and then before
    /// any task is created; with nothing to queue it is a successful no-op.
    /// No key beyond `ids` is ever created.
    fn queue_chapters(&mut self, comic: &Comic, ids: &Vec<i64>) -> (r: Result<(), DownloadError>)
        requires
            old(self).wf(),
            forall|j: int| 0 <= j < ids@.len()
                ==> has_chapter(comic.chapter_infos@, #[trigger] ids@[j]),
        ensures
            final(self).wf(),
            forall|k: i64| has_key(old(self).registry.tasks@, k)
                ==> has_key(final(self).registry.tasks@, k),
            forall|k: i64| has_key(final(self).registry.tasks@, k)
                ==> has_key(old(self).registry.tasks@, k) || ids@.contains(k),
            match r {
                Ok(()) => (ids@.len() > 0 ==> comic.name@.len() > 0)
                    && forall|j: int| 0 <= j < ids@.len()
                        ==> has_key(final(self).registry.tasks@, #[trigger] ids@[j]),
                Err(e) => e is InvalidPayload && comic.name@.len() == 0 && ids@.len() > 0
                    && final(self).registry.tasks@ == old(self).registry.tasks@,
            },
    {
        let n = ids.len();
        if n > 0 && comic.name.as_str().is_empty() {
            return Err(DownloadError::InvalidPayload);
        }
        let mut i: usize = 0;
        while i < n
            invariant
                self.wf(),
                n > 0 ==> comic.name@.len() > 0,
                i <= n,
                n == ids@.len(),
                forall|j: int| 0 <= j < ids@.len()
                    ==> has_chapter(comic.chapter_infos@, #[trigger] ids@[j]),
                forall|k: i64| has_key(old(self).registry.tasks@, k)
                    ==> has_key(self.registry.tasks@, k),
                forall|k: i64| has_key(self.registry.tasks@, k)
                    ==> has_key(old(self).registry.tasks@, k) || ids@.contains(k),
                forall|j: int| 0 <= j < i ==> has_key(self.registry.tasks@, #[trigger] ids@[j]),
            decreases n - i,
        {
            let ghost before = self.registry.tasks@;
            let result = self.create_download_task(comic, ids[i]);
            proof {
                assert(result is Ok);
                let after = self.registry.tasks@;
                assert forall|j: int| 0 <= j < before.len()
                    implies after[j].chapter_id == before[j].chapter_id by {
                    if has_key(before, ids@[i as int]) {
                        lemma_key_index_unique(before, ids@[i as int],
                            key_index(before, ids@[i as int]));
                    }
                }
                lemma_registry_grows(before, after);
                assert forall|k: i64| has_key(after, k)
                    implies has_key(before, k) || ids@.contains(k) by {
                    let w = choose|w: int| 0 <= w < after.len() && after[w].chapter_id == k;
                    if w < before.len() {
                        assert(after[w].chapter_id == before[w].chapter_id);
                        assert(has_key(before, k));
                    } else {
                        assert(after == before.push(
                            initial_task(ids@[i as int], payload_of(*comic)),
                        ));
                        assert(after[w].chapter_id == ids@[i as int]);
                        assert(ids@[i as int] == k);
                        assert(ids@.contains(k));
                    }
                }
            }
            i = i + 1;
        }
        Ok(())
    }

    /// One-call download of a whole comic: plan every chapter not yet
    /// downloaded and create a task for each — and for no other key. Fails
    /// exactly when nothing is left to download or the title is missing;
    /// then the registry is untouched.
    pub fn queue_comic(&mut self, comic: &Comic) -> (r: Result<usize, DownloadError>)
        requires
            old(self).wf(),
        ensures
            final(self).wf(),
            forall|k: i64| has_key(old(self).registry.tasks@, k)
                ==> has_key(final(self).registry.tasks@, k),
            forall|k: i64| has_key(final(self).registry.tasks@, k)
                ==> has_key(old(self).registry.tasks@, k) || plan_of(*comic).contains(k),
            ({
                let plan = undownloaded_ids(comic.chapter_infos@);
                match r {
                    Ok(n) => n == plan.len() && n > 0 && comic.name@.len() > 0
                        && forall|j: int| 0 <= j < plan.len()
                            ==> has_key(final(self).registry.tasks@, #[trigger] plan[j]),
                    Err(e) => e is InvalidPayload && (plan.len() == 0 || comic.name@.len() == 0)
                        && final(self).registry.tasks@ == old(self).registry.tasks@,
                }
            }),
    {
        let ids = match comic.plan_download() {
            Ok(ids) => ids,
            Err(e) => {
                return Err(e);
            },
        };
        proof {
            crate::comic::lemma_undownloaded_are_chapters(comic.chapter_infos@);
        }
        match self.queue_chapters(comic, &ids) {
            Ok(()) => Ok(ids.len()),
            Err(e) => Err(e),
        }
    }

    /// The selection step of a collection sync: keep only comics already
    /// tracked locally (at least one chapter downloaded) and queue every
    /// chapter of theirs not yet downloaded — and no other key, for no other
    /// item. Comics with nothing new are visited and contribute no tasks.
    /// Success is owed unless some tracked comic with chapters to queue has
    /// no title, and then the failure names the malformed payload.
    pub fn queue_new_from(&mut self, comics: &Vec<Comic>) -> (r: Result<(), DownloadError>)
        requires
            old(self).wf(),
        ensures
            final(self).wf(),
            forall|k: i64| has_key(old(self).registry.tasks@, k)
                ==> has_key(final(self).registry.tasks@, k),
            forall|k: i64| has_key(final(self).registry.tasks@, k)
                ==> has_key(old(self).registry.tasks@, k) || planned_key(comics@, k),
            match r {
                Ok(()) => (forall|ci: int, j: int|
                    0 <= ci < comics@.len() && comic_tracked(comics@[ci])
                        && 0 <= j < plan_of(comics@[ci]).len()
                    ==> has_key(final(self).registry.tasks@, #[trigger] plan_of(comics@[ci])[j]))
                    && (forall|ci: int| 0 <= ci < comics@.len()
                        ==> !selection_blocked(#[trigger] comics@[ci])),
                Err(e) => e is InvalidPayload && exists|ci: int|
                    0 <= ci < comics@.len() && selection_blocked(#[trigger] comics@[ci]),
            },
    {
        let n = comics.len();
        let mut ci: usize = 0;
        while ci < n
            invariant
                self.wf(),
                ci <= n,
                n == comics@.len(),
                forall|k: i64| has_key(old(self).registry.tasks@, k)
                    ==> has_key(self.registry.tasks@, k),
                forall|k: i64| has_key(self.registry.tasks@, k)
                    ==> has_key(old(self).registry.tasks@, k) || planned_key(comics@, k),
                forall|c: int, j: int|
                    0 <= c < ci && comic_tracked(comics@[c])
                        && 0 <= j < plan_of(comics@[c]).len()
                    ==> has_key(self.registry.tasks@, #[trigger] plan_of(comics@[c])[j]),
                forall|c: int| 0 <= c < ci ==> !selection_blocked(#[trigger] comics@[c]),
            decreases n - ci,
        {
            let comic = &comics[ci];
            if comic.has_downloaded_chapter() {
                let ids = comic.chapters_to_download();
                proof {
                    crate::comic::lemma_undownloaded_are_chapters(comic.chapter_infos@);
                }
                let ghost mid = self.registry.tasks@;
                match self.queue_chapters(comic, &ids) {
                    Ok(()) => {},
                    Err(e) => {
                        proof {
                            assert(selection_blocked(comics@[ci as int]));
                        }
                        return Err(e);
                    },
                }
                proof {
                    assert forall|k: i64| has_key(self.registry.tasks@, k)
                        implies has_key(old(self).registry.tasks@, k)
                            || planned_key(comics@, k) by {
                        if !has_key(old(self).registry.tasks@, k) && !has_key(mid, k) {
                            assert(ids@.contains(k));
                            assert(plan_of(comics@[ci as int]).contains(k));
                            assert(planned_key(comics@, k));
                        }
                    }
                }
            }
            ci = ci + 1;
        }
        Ok(())
    }
}

/// What a pause/resume/cancel operation may do to the registry: on success
/// the signalled task stepped, nothing else moved; on failure the key was
/// unknown and nothing moved at all.
pub open spec fn signal_outcome(
    s: Seq<crate::task::Task>,
    t: Seq<crate::task::Task>,
    key: i64,
    sig: ControlSignal,
    r: Result<(), DownloadError>,
) -> bool {
    match r {
        Ok(()) => has_key(s, key) && t == s.update(
            key_index(s, key),
            task_step(s[key_index(s, key)], TaskEvent::Signal(sig)),
        ),
        Err(e) => e is TaskNotFound && !has_key(s, key) && t == s,
    }
}

/// A store that keeps every slot's key (and possibly grows) keeps every key.
proof fn lemma_registry_grows(s: Seq<crate::task::Task>, t: Seq<crate::task::Task>)
    requires
        s.len() <= t.len(),
        forall|j: int| 0 <= j < s.len() ==> t[j].chapter_id == s[j].chapter_id,
    ensures
        forall|k: i64| has_key(s, k) ==> has_key(t, k),
{
    assert forall|k: i64| has_key(s, k) implies has_key(t, k) by {
        let i = choose|i: int| 0 <= i < s.len() && s[i].chapter_id == k;
        assert(t[i].chapter_id == k);
    }
}

} // verus!
