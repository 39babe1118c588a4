//! The collection sync orchestrator: a one-shot, two-phase fan-out/fan-in
//! workflow that refreshes the favorite collection and queues new downloads.
//!
//! Phase one enumerates the collection pages (unbounded — the calls are few
//! and cheap); phase two fetches every item's detail, bounded by the permit
//! pool. Any single failure aborts the whole run: a failed session yields no
//! comics, so no download task is ever created from a partial view. The
//! async fan-out itself lives outside; it reports every fetch result back
//! into this session, which decides everything.

use vstd::prelude::*;

use crate::comic::Comic;
use crate::error::DownloadError;
use crate::limiter::Limiter;
use crate::manager::DownloadManager;
use crate::util::{parse_i64, parse_i64_ok, parse_i64_value};

verus! {

/// One entry of a favorite-collection page, with its id as the remote side
/// sends it: a decimal string.
#[derive(Debug)]
pub struct FavoriteItem {
    pub id: String,
}

/// One page of the favorite collection: its entries, the page size, and the
/// collection's total entry count as the remote side sends it.
#[derive(Debug)]
pub struct FavoritePage {
    pub list: Vec<FavoriteItem>,
    pub count: i64,
    pub total: String,
}

/// Where a sync run stands.
#[derive(Clone, Copy, PartialEq, Eq, Structural, Debug)]
pub enum SyncPhase {
    FetchingFirstPage,
    FetchingPages,
    FetchingDetails,
    Finished,
    Failed,
}

/// The ordered progress milestones of a sync run. Delivery is advisory and
/// best-effort; a consumer that misses one misses no state.
#[derive(Clone, Copy, PartialEq, Eq, Structural, Debug)]
pub enum SyncMilestone {
    GettingFolders,
    GettingComics { total: u64 },
    ComicGot { current: u64, total: u64 },
    DownloadTaskCreated,
}

/// A detail fetch the session asks the outside loop to start: the item's
/// position and its parsed comic id.
#[derive(Clone, Copy, PartialEq, Eq, Structural, Debug)]
pub struct DetailRequest {
    pub item_index: usize,
    pub comic_id: i64,
}

/// A first page is usable when its page size is positive and its total is a
/// non-negative number.
pub open spec fn first_page_ok(p: FavoritePage) -> bool {
    p.count > 0 && parse_i64_ok(p.total@) && parse_i64_value(p.total@) >= 0
}

/// How many pages the collection spans under its pagination:
/// `total / count + 1`.
pub open spec fn page_count_of(p: FavoritePage) -> int {
    parse_i64_value(p.total@) / (p.count as int) + 1
}

/// Whether every remaining page of phase one has arrived.
pub open spec fn all_received(slots: Seq<Option<Vec<FavoriteItem>>>) -> bool {
    forall|i: int| 0 <= i < slots.len() ==> slots[i] is Some
}

/// The items the received pages hold, in page order; a slot still empty
/// contributes nothing.
pub open spec fn gathered_items(slots: Seq<Option<Vec<FavoriteItem>>>) -> Seq<FavoriteItem>
    decreases slots.len(),
{
    if slots.len() == 0 {
        Seq::empty()
    } else {
        gathered_items(slots.drop_last()) + match slots.last() {
            Some(v) => v@,
            None => Seq::empty(),
        }
    }
}

/// One sync run. The outside loop owns the fetches; the session owns every
/// decision and all aggregation.
pub struct SyncSession {
    pub phase: SyncPhase,
    /// One slot per remaining page of phase one (slot `i` holds page
    /// `i + 2`), filled as pages arrive, each exactly once.
    pub page_slots: Vec<Option<Vec<FavoriteItem>>>,
    /// Fan-in of phase one: discovered items, in discovery order.
    pub items: Vec<FavoriteItem>,
    /// Items whose detail fetch has started.
    pub dispatched: usize,
    /// Items whose detail fetch has completed successfully.
    pub details_done: usize,
    /// Fan-in of phase two: details, in completion order.
    pub comics: Vec<Comic>,
    /// The permit pool bounding phase two.
    pub limiter: Limiter,
}

impl SyncSession {
    /// Phase bookkeeping: counters fit each other, and the permits held are
    /// exactly the detail fetches outstanding.
    pub open spec fn wf(self) -> bool {
        &&& self.limiter.wf()
        &&& match self.phase {
            SyncPhase::FetchingFirstPage => self.items@.len() == 0 && self.dispatched == 0
                && self.details_done == 0 && self.comics@.len() == 0
                && self.limiter.in_flight == 0 && self.page_slots@.len() == 0,
            SyncPhase::FetchingPages => self.page_slots@.len() >= 1 && self.dispatched == 0
                && self.details_done == 0 && self.comics@.len() == 0
                && self.limiter.in_flight == 0,
            SyncPhase::FetchingDetails => self.details_done <= self.dispatched
                && self.dispatched <= self.items@.len()
                && self.comics@.len() == self.details_done
                && self.limiter.in_flight as int == self.dispatched - self.details_done
                && self.page_slots@.len() == 0,
            SyncPhase::Finished => self.details_done == self.dispatched
                && self.dispatched == self.items@.len()
                && self.comics@.len() == self.details_done && self.limiter.in_flight == 0
                && self.page_slots@.len() == 0,
            SyncPhase::Failed => true,
        }
    }

    /// Begin a sync run with the given detail-fetch concurrency bound. The
    /// returned milestone is the first of the run: enumeration started.
    pub fn start(capacity: u32) -> (r: (SyncSession, SyncMilestone))
        ensures
            r.0.wf(),
            r.0.phase is FetchingFirstPage,
            r.0.limiter.capacity == capacity,
            r.0.items@.len() == 0,
            r.0.comics@.len() == 0,
            r.1 is GettingFolders,
    {
        let session = SyncSession {
            phase: SyncPhase::FetchingFirstPage,
            page_slots: Vec::new(),
            items: Vec::new(),
            dispatched: 0,
            details_done: 0,
            comics: Vec::new(),
            limiter: Limiter::new(capacity),
        };
        (session, SyncMilestone::GettingFolders)
    }

    /// The first collection page arrived (or failed). On success the session
    /// learns the page count, keeps the page's items, and answers how many
    /// pages the collection spans; the outside loop fans out one fetch per
    /// remaining page, unbounded. A collection that fits one page completes
    /// enumeration at once, and the enrichment-started milestone comes back
    /// with the answer. Any failure — transport, an unusable page size, a
    /// malformed total — fails the whole run.
    pub fn on_first_page(&mut self, fetched: Result<FavoritePage, DownloadError>) -> (r: Result<
        (u64, Option<SyncMilestone>),
        DownloadError,
    >)
        requires
            old(self).wf(),
            old(self).phase is FetchingFirstPage,
        ensures
            final(self).wf(),
            final(self).limiter == old(self).limiter,
            match r {
                Ok(res) => {
                    &&& fetched matches Ok(p) && first_page_ok(p) && res.0 == page_count_of(p)
                        && final(self).items@ == old(self).items@ + p.list@
                    &&& final(self).comics@.len() == 0
                    &&& if res.0 == 1 {
                        final(self).phase is FetchingDetails
                            && final(self).page_slots@.len() == 0
                            && res.1 == Some(
                            SyncMilestone::GettingComics { total: final(self).items@.len() as u64 },
                        )
                    } else {
                        final(self).phase is FetchingPages
                            && final(self).page_slots@.len() == res.0 - 1
                            && (forall|i: int| 0 <= i < final(self).page_slots@.len()
                                ==> final(self).page_slots@[i] is None)
                            && res.1 is None
                    }
                },
                Err(e) => {
                    &&& final(self).phase is Failed
                    &&& final(self).comics@.len() == 0
                    &&& match fetched {
                        Err(fe) => e == fe,
                        Ok(p) => e is InvalidPayload && !first_page_ok(p),
                    }
                },
            },
    {
        let page = match fetched {
            Ok(page) => page,
            Err(e) => {
                self.phase = SyncPhase::Failed;
                return Err(e);
            },
        };
        let total = match parse_i64(page.total.as_str()) {
            Some(t) => t,
            None => {
                self.phase = SyncPhase::Failed;
                return Err(DownloadError::InvalidPayload);
            },
        };
        if page.count <= 0 || total < 0 {
            self.phase = SyncPhase::Failed;
            return Err(DownloadError::InvalidPayload);
        }
        let tu: u64 = total as u64;
        let cu: u64 = page.count as u64;
        proof {
            assert(tu / cu <= tu) by (nonlinear_arith)
                requires cu >= 1,
            ;
        }
        let page_count: u64 = tu / cu + 1;
        let mut list = page.list;
        self.items.append(&mut list);
        if page_count == 1 {
            self.phase = SyncPhase::FetchingDetails;
            let milestone_total: u64 = self.items.len() as u64;
            return Ok((1, Some(SyncMilestone::GettingComics { total: milestone_total })));
        }
        let slots_needed: u64 = page_count - 1;
        let ghost items_now = self.items@;
        let mut created: u64 = 0;
        while created < slots_needed
            invariant
                created <= slots_needed,
                self.page_slots@.len() == created,
                forall|i: int| 0 <= i < self.page_slots@.len()
                    ==> self.page_slots@[i] is None,
                self.items@ == items_now,
                self.limiter == old(self).limiter,
                self.dispatched == old(self).dispatched,
                self.details_done == old(self).details_done,
                self.comics@ == old(self).comics@,
                self.phase == old(self).phase,
            decreases slots_needed - created,
        {
            self.page_slots.push(None);
            created = created + 1;
        }
        self.phase = SyncPhase::FetchingPages;
        Ok((page_count, None))
    }

    /// One remaining collection page arrived (or failed), named by its page
    /// number. Each page fills its own slot, exactly once, so the discovery
    /// list comes out in page order whatever order the network answers in;
    /// when the last slot fills, enumeration is complete and the returned
    /// milestone carries the item total. Any single page failure aborts the
    /// whole run with that failure.
    pub fn on_page(&mut self, page: u64, fetched: Result<FavoritePage, DownloadError>) -> (r:
        Result<Option<SyncMilestone>, DownloadError>)
        requires
            old(self).wf(),
            old(self).phase is FetchingPages,
            2 <= page,
            page - 2 < old(self).page_slots@.len(),
            old(self).page_slots@[page - 2] is None,
        ensures
            final(self).wf(),
            final(self).limiter == old(self).limiter,
            match r {
                Ok(m) => fetched matches Ok(p) && ({
                    let slots = old(self).page_slots@.update(page - 2, Some(p.list));
                    &&& final(self).comics@.len() == 0
                    &&& if all_received(slots) {
                        final(self).phase is FetchingDetails
                            && final(self).items@ == old(self).items@ + gathered_items(slots)
                            && final(self).page_slots@.len() == 0
                            && m == Some(
                            SyncMilestone::GettingComics { total: final(self).items@.len() as u64 },
                        )
                    } else {
                        final(self).phase is FetchingPages
                            && final(self).page_slots@ == slots
                            && final(self).items@ == old(self).items@
                            && m is None
                    }
                }),
                Err(e) => {
                    &&& final(self).phase is Failed
                    &&& final(self).comics@.len() == 0
                    &&& fetched matches Err(fe) && e == fe
                },
            },
    {
        let data = match fetched {
            Ok(data) => data,
            Err(e) => {
                self.phase = SyncPhase::Failed;
                return Err(e);
            },
        };
        let idx = (page - 2) as usize;
        self.page_slots[idx] = Some(data.list);
        let ghost slots = self.page_slots@;
        let n = self.page_slots.len();
        let mut complete = true;
        let mut i: usize = 0;
        while i < n
            invariant
                i <= n,
                n == self.page_slots@.len(),
                self.page_slots@ == slots,
                complete == (forall|j: int| 0 <= j < i ==> self.page_slots@[j] is Some),
                self.items@ == old(self).items@,
                self.limiter == old(self).limiter,
                self.dispatched == old(self).dispatched,
                self.details_done == old(self).details_done,
                self.comics@ == old(self).comics@,
                self.phase == old(self).phase,
            decreases n - i,
        {
            if self.page_slots[i].is_none() {
                complete = false;
            }
            i = i + 1;
        }
        if !complete {
            return Ok(None);
        }
        let ghost base_items = self.items@;
        while self.page_slots.len() > 0
            invariant
                self.page_slots@.len() <= slots.len(),
                self.page_slots@ == slots.subrange(
                    slots.len() - self.page_slots@.len(),
                    slots.len() as int,
                ),
                self.items@ == base_items + gathered_items(
                    slots.subrange(0, slots.len() - self.page_slots@.len()),
                ),
                self.limiter == old(self).limiter,
                self.dispatched == old(self).dispatched,
                self.details_done == old(self).details_done,
                self.comics@ == old(self).comics@,
                self.phase == old(self).phase,
            decreases self.page_slots@.len(),
        {
            let ghost consumed = slots.len() - self.page_slots@.len();
            let slot = self.page_slots.remove(0);
            proof {
                assert(slot == slots[consumed]);
                assert(self.page_slots@ =~= slots.subrange(consumed + 1, slots.len() as int));
                assert(slots.subrange(0, consumed + 1).drop_last()
                    =~= slots.subrange(0, consumed));
                assert(slots.subrange(0, consumed + 1).last() == slots[consumed]);
            }
            if let Some(mut list) = slot {
                self.items.append(&mut list);
            }
            proof {
                assert(self.items@ == base_items + gathered_items(
                    slots.subrange(0, consumed + 1),
                ));
            }
        }
        proof {
            assert(slots.subrange(0, slots.len() as int) =~= slots);
        }
        self.phase = SyncPhase::FetchingDetails;
        let milestone_total: u64 = self.items.len() as u64;
        Ok(Some(SyncMilestone::GettingComics { total: milestone_total }))
    }

    /// Try to start the next detail fetch. Yields nothing while every item
    /// is dispatched or the permit pool is exhausted — at most `capacity`
    /// detail fetches are ever outstanding. A malformed item id fails the
    /// run (and the permit taken for it goes straight back).
    pub fn try_dispatch_detail(&mut self) -> (r: Result<Option<DetailRequest>, DownloadError>)
        requires
            old(self).wf(),
            old(self).phase is FetchingDetails,
        ensures
            final(self).wf(),
            final(self).limiter.capacity == old(self).limiter.capacity,
            final(self).items@ == old(self).items@,
            final(self).comics@ == old(self).comics@,
            final(self).details_done == old(self).details_done,
            match r {
                Ok(req) => match req {
                    Some(rq) => {
                        &&& rq.item_index == old(self).dispatched
                        &&& old(self).dispatched < old(self).items@.len()
                        &&& parse_i64_ok(old(self).items@[rq.item_index as int].id@)
                        &&& rq.comic_id == parse_i64_value(
                            old(self).items@[rq.item_index as int].id@,
                        )
                        &&& final(self).dispatched == old(self).dispatched + 1
                        &&& final(self).limiter.in_flight == old(self).limiter.in_flight + 1
                        &&& final(self).limiter.in_flight <= final(self).limiter.capacity
                        &&& final(self).phase is FetchingDetails
                    },
                    None => {
                        &&& *final(self) == *old(self)
                        &&& (old(self).dispatched == old(self).items@.len()
                            || old(self).limiter.in_flight == old(self).limiter.capacity)
                    },
                },
                Err(e) => {
                    &&& final(self).phase is Failed
                    &&& e is InvalidPayload
                    &&& old(self).dispatched < old(self).items@.len()
                    &&& !parse_i64_ok(old(self).items@[old(self).dispatched as int].id@)
                    &&& final(self).limiter == old(self).limiter
                },
            },
    {
        if self.dispatched == self.items.len() {
            return Ok(None);
        }
        if !self.limiter.try_acquire() {
            return Ok(None);
        }
        let idx = self.dispatched;
        let aid = match parse_i64(self.items[idx].id.as_str()) {
            Some(aid) => aid,
            None => {
                self.limiter.release();
                self.phase = SyncPhase::Failed;
                return Err(DownloadError::InvalidPayload);
            },
        };
        self.dispatched = self.dispatched + 1;
        Ok(Some(DetailRequest { item_index: idx, comic_id: aid }))
    }

    /// One detail fetch completed (or failed). Its permit goes back on every
    /// path. A success joins the fan-in list in completion order and yields
    /// the per-item milestone; the last one finishes the run. Any single
    /// failure aborts the whole run with that failure.
    pub fn on_detail(&mut self, fetched: Result<Comic, DownloadError>) -> (r: Result<
        SyncMilestone,
        DownloadError,
    >)
        requires
            old(self).wf(),
            old(self).phase is FetchingDetails,
            old(self).details_done < old(self).dispatched,
        ensures
            final(self).wf(),
            final(self).limiter.capacity == old(self).limiter.capacity,
            final(self).limiter.in_flight == old(self).limiter.in_flight - 1,
            final(self).items@ == old(self).items@,
            match r {
                Ok(m) => {
                    &&& fetched matches Ok(c)
                    &&& (fetched matches Ok(c) ==> final(self).comics@ == old(self).comics@.push(c))
                    &&& final(self).details_done == old(self).details_done + 1
                    &&& m == SyncMilestone::ComicGot {
                        current: (old(self).details_done + 1) as u64,
                        total: old(self).items@.len() as u64,
                    }
                    &&& final(self).phase == (if old(self).details_done + 1
                        == old(self).items@.len() {
                        SyncPhase::Finished
                    } else {
                        SyncPhase::FetchingDetails
                    })
                },
                Err(e) => {
                    &&& final(self).phase is Failed
                    &&& final(self).comics@ == old(self).comics@
                    &&& fetched matches Err(fe) && e == fe
                },
            },
    {
        self.limiter.release();
        let comic = match fetched {
            Ok(comic) => comic,
            Err(e) => {
                self.phase = SyncPhase::Failed;
                return Err(e);
            },
        };
        self.comics.push(comic);
        self.details_done = self.details_done + 1;
        let current: u64 = self.details_done as u64;
        let total: u64 = self.items.len() as u64;
        if self.details_done == self.items.len() {
            self.phase = SyncPhase::Finished;
        }
        Ok(SyncMilestone::ComicGot { current, total })
    }

    /// Hand the gathered details over for the selection step. Only a
    /// finished run — every page in, every detail in — has any: a failed
    /// run yields nothing to queue from.
    pub fn into_comics(self) -> (r: Vec<Comic>)
        requires
            self.wf(),
            self.phase is Finished,
        ensures
            r@ == self.comics@,
            r@.len() == self.items@.len(),
    {
        self.comics
    }
}

/// Complete a sync run against the download manager: the selection step of
/// the workflow, and the only path from a session into the manager.
///
/// Law (all-or-nothing fan-in): a run that did not finish — because any one
/// page or detail fetch failed — leaves the registry exactly as it was:
/// zero download tasks are created from a partial collection view. A
/// finished run queues every not-yet-downloaded chapter of every locally
/// tracked comic, and no other key for no other item; it fails only when
/// some tracked comic with chapters to queue has no title.
pub fn finish_sync(session: SyncSession, mgr: &mut DownloadManager) -> (r: Result<
    SyncMilestone,
    DownloadError,
>)
    requires
        session.wf(),
        old(mgr).wf(),
    ensures
        final(mgr).wf(),
        !(session.phase is Finished) ==> final(mgr).registry.tasks@ == old(mgr).registry.tasks@
            && (r matches Err(e) && e is Aggregate),
        forall|k: i64|
            crate::registry::has_key(old(mgr).registry.tasks@, k)
                ==> crate::registry::has_key(final(mgr).registry.tasks@, k),
        forall|k: i64|
            crate::registry::has_key(final(mgr).registry.tasks@, k)
                ==> crate::registry::has_key(old(mgr).registry.tasks@, k)
                    || crate::manager::planned_key(session.comics@, k),
        r matches Ok(m) ==> m is DownloadTaskCreated && session.phase is Finished
            && (forall|ci: int, j: int|
            0 <= ci < session.comics@.len() && crate::comic::comic_tracked(session.comics@[ci])
                && 0 <= j < crate::manager::plan_of(session.comics@[ci]).len()
                ==> crate::registry::has_key(
                final(mgr).registry.tasks@,
                #[trigger] crate::manager::plan_of(session.comics@[ci])[j],
            ))
            && (forall|ci: int| 0 <= ci < session.comics@.len()
                ==> !crate::manager::selection_blocked(#[trigger] session.comics@[ci])),
        session.phase is Finished ==> (r matches Err(e) ==> e is InvalidPayload
            && exists|ci: int| 0 <= ci < session.comics@.len()
                && crate::manager::selection_blocked(#[trigger] session.comics@[ci])),
{
    if !matches!(session.phase, SyncPhase::Finished) {
        return Err(DownloadError::Aggregate);
    }
    let comics = session.into_comics();
    match mgr.queue_new_from(&comics) {
        Ok(()) => Ok(SyncMilestone::DownloadTaskCreated),
        Err(e) => Err(e),
    }
}

/// What a favorite-toggle call did on the remote side.
#[derive(Clone, Copy, PartialEq, Eq, Structural, Debug)]
pub enum ToggleType {
    Favorite,
    Unfavorite,
}

/// The force-sync trick pairs two toggles of one item so the collection
/// comes back unchanged. That worked only if the two calls cancelled out:
/// one favorite, one unfavorite, in either order. Two alike mean the pair
/// failed as a whole.
pub fn check_toggle_pair(first: ToggleType, second: ToggleType) -> (r: Result<
    (),
    DownloadError,
>)
    ensures
        r is Ok <==> first != second,
        r matches Err(e) ==> e is Aggregate,
{
    if first == second {
        Err(DownloadError::Aggregate)
    } else {
        Ok(())
    }
}

/// Law (bounded concurrency): in a well-formed session the detail fetches
/// outstanding — dispatched but not completed — are exactly the permits
/// held, and never more than the pool's capacity.
pub proof fn lemma_outstanding_bounded(s: SyncSession)
    requires
        s.wf(),
        s.phase is FetchingDetails,
    ensures
        s.dispatched - s.details_done == s.limiter.in_flight,
        s.dispatched - s.details_done <= s.limiter.capacity,
{
}

} // verus!
