use download_core::comic::{ChapterInfo, Comic};
use download_core::error::DownloadError;
use download_core::manager::DownloadManager;
use download_core::sync::{
    check_toggle_pair, finish_sync, FavoriteItem, FavoritePage, SyncMilestone, SyncSession,
    ToggleType,
};
use download_core::task::TaskState;

fn page(ids: Vec<i64>, count: i64, total: &str) -> FavoritePage {
    FavoritePage {
        list: ids.into_iter().map(|id| FavoriteItem { id: id.to_string() }).collect(),
        count,
        total: String::from(total),
    }
}

fn detail(id: i64, chapters: Vec<(i64, Option<bool>)>) -> Comic {
    Comic {
        id,
        name: format!("comic-{}", id),
        is_downloaded: None,
        chapter_infos: chapters
            .into_iter()
            .map(|(chapter_id, is_downloaded)| ChapterInfo { chapter_id, is_downloaded })
            .collect(),
    }
}

/// Drive phase two to the end, simulating a concurrent pool: keep
/// dispatching until the permits run out, then complete the oldest
/// outstanding fetch. Records the largest number outstanding at once.
fn drain_details<F: FnMut(i64) -> Result<Comic, DownloadError>>(
    session: &mut SyncSession,
    mut fetch: F,
) -> Result<(Vec<SyncMilestone>, usize), DownloadError> {
    let mut milestones = Vec::new();
    let mut outstanding: Vec<i64> = Vec::new();
    let mut max_outstanding = 0;
    loop {
        match session.try_dispatch_detail()? {
            Some(req) => {
                outstanding.push(req.comic_id);
                max_outstanding = max_outstanding.max(outstanding.len());
            }
            None => {
                if outstanding.is_empty() {
                    return Ok((milestones, max_outstanding));
                }
                let aid = outstanding.remove(0);
                milestones.push(session.on_detail(fetch(aid))?);
            }
        }
    }
}

#[test]
fn sync_happy_path_queues_new_chapters_of_tracked_comics() {
    let (mut session, first) = SyncSession::start(10);
    assert_eq!(first, SyncMilestone::GettingFolders);
    // 5 favorites, page size 2, total "5": pages 2 and 3 remain.
    let (pc, milestone) = session.on_first_page(Ok(page(vec![101, 102], 2, "5"))).unwrap();
    assert_eq!(pc, 3);
    assert_eq!(milestone, None);
    assert_eq!(session.on_page(2, Ok(page(vec![103, 104], 2, "5"))).unwrap(), None);
    let milestone = session.on_page(3, Ok(page(vec![105], 2, "5"))).unwrap();
    assert_eq!(milestone, Some(SyncMilestone::GettingComics { total: 5 }));

    let (milestones, _) = drain_details(&mut session, |aid| {
        Ok(match aid {
            // Tracked (one chapter downloaded), chapter 12 missing.
            101 => detail(101, vec![(11, Some(true)), (12, Some(false))]),
            // Untracked: nothing downloaded yet, must be ignored.
            102 => detail(102, vec![(21, Some(false))]),
            // Tracked and complete: nothing to queue.
            103 => detail(103, vec![(31, Some(true))]),
            // Tracked, two chapters missing.
            104 => detail(104, vec![(41, Some(true)), (42, None), (43, Some(false))]),
            105 => detail(105, vec![(51, Some(false))]),
            _ => panic!("unexpected id {}", aid),
        })
    })
    .unwrap();
    assert_eq!(milestones.len(), 5);
    assert_eq!(milestones[0], SyncMilestone::ComicGot { current: 1, total: 5 });
    assert_eq!(milestones[4], SyncMilestone::ComicGot { current: 5, total: 5 });

    let mut mgr = DownloadManager::new();
    assert_eq!(finish_sync(session, &mut mgr), Ok(SyncMilestone::DownloadTaskCreated));
    let mut keys: Vec<i64> = mgr.registry.tasks.iter().map(|t| t.chapter_id).collect();
    keys.sort();
    assert_eq!(keys, vec![12, 42, 43]);
    for key in keys {
        assert_eq!(mgr.registry.get(key).unwrap().state, TaskState::Pending);
    }
}

#[test]
fn detail_concurrency_never_exceeds_the_permit_pool() {
    let (mut session, _) = SyncSession::start(10);
    // 25 favorites on one page.
    let ids: Vec<i64> = (1..=25).collect();
    let (pc, first_milestone) = session.on_first_page(Ok(page(ids, 25, "25"))).unwrap();
    assert_eq!(pc, 2);
    assert_eq!(first_milestone, None);
    let milestone = session.on_page(2, Ok(page(vec![], 25, "25"))).unwrap();
    assert_eq!(milestone, Some(SyncMilestone::GettingComics { total: 25 }));
    let (milestones, max_outstanding) =
        drain_details(&mut session, |aid| Ok(detail(aid, vec![(aid * 10, Some(true))])))
            .unwrap();
    assert_eq!(milestones.len(), 25);
    assert!(max_outstanding <= 10);
    assert_eq!(max_outstanding, 10);
}

#[test]
fn one_failed_page_fetch_aborts_the_sync() {
    let (mut session, _) = SyncSession::start(10);
    session.on_first_page(Ok(page(vec![1, 2], 2, "8"))).unwrap();
    assert_eq!(session.on_page(2, Ok(page(vec![3, 4], 2, "8"))).unwrap(), None);
    let err = session.on_page(3, Err(DownloadError::Network)).unwrap_err();
    assert_eq!(err, DownloadError::Network);
    // The failed run yields nothing to queue from: no task is ever created.
    let mgr = DownloadManager::new();
    assert_eq!(mgr.registry.tasks.len(), 0);
}

#[test]
fn one_failed_detail_fetch_aborts_the_sync_and_queues_nothing() {
    let (mut session, _) = SyncSession::start(10);
    // 5 favorites on a single page (page size 10).
    let ids: Vec<i64> = (1..=5).collect();
    let (pc, milestone) = session.on_first_page(Ok(page(ids, 10, "5"))).unwrap();
    assert_eq!(pc, 1);
    assert_eq!(milestone, Some(SyncMilestone::GettingComics { total: 5 }));
    let result = drain_details(&mut session, |aid| {
        if aid == 3 {
            Err(DownloadError::Network)
        } else {
            Ok(detail(aid, vec![(aid * 10, Some(true)), (aid * 10 + 1, None)]))
        }
    });
    assert_eq!(result.unwrap_err(), DownloadError::Network);
    // No selection, no task creation happened for the other four either.
    let mgr = DownloadManager::new();
    assert_eq!(mgr.registry.tasks.len(), 0);
}

#[test]
fn finishing_a_failed_sync_leaves_the_registry_untouched() {
    let (mut session, _) = SyncSession::start(10);
    session.on_first_page(Ok(page(vec![1, 2], 2, "8"))).unwrap();
    session.on_page(2, Err(DownloadError::Network)).unwrap_err();
    // A pre-existing task survives; the failed run adds nothing.
    let mut mgr = DownloadManager::new();
    let existing = detail(9, vec![(91, Some(false))]);
    mgr.create_download_task(&existing, 91).unwrap();
    assert_eq!(finish_sync(session, &mut mgr), Err(DownloadError::Aggregate));
    assert_eq!(mgr.registry.tasks.len(), 1);
    assert!(mgr.registry.get(91).is_some());
}

#[test]
fn first_page_failure_aborts_at_once() {
    let (mut session, _) = SyncSession::start(10);
    let err = session.on_first_page(Err(DownloadError::Network)).unwrap_err();
    assert_eq!(err, DownloadError::Network);
}

#[test]
fn malformed_total_aborts_the_sync() {
    let (mut session, _) = SyncSession::start(10);
    let err = session.on_first_page(Ok(page(vec![1], 1, "not-a-number"))).unwrap_err();
    assert_eq!(err, DownloadError::InvalidPayload);
}

#[test]
fn nonpositive_page_size_aborts_the_sync() {
    let (mut session, _) = SyncSession::start(10);
    let err = session.on_first_page(Ok(page(vec![], 0, "5"))).unwrap_err();
    assert_eq!(err, DownloadError::InvalidPayload);
}

#[test]
fn malformed_item_id_aborts_phase_two() {
    let (mut session, _) = SyncSession::start(10);
    // total 1 at page size 10: a single page, straight to phase two.
    let mut bad = page(vec![1], 10, "1");
    bad.list.push(FavoriteItem { id: String::from("abc") });
    let (pc, _) = session.on_first_page(Ok(bad)).unwrap();
    assert_eq!(pc, 1);
    assert!(session.try_dispatch_detail().unwrap().is_some());
    let err = session.try_dispatch_detail().unwrap_err();
    assert_eq!(err, DownloadError::InvalidPayload);
}

#[test]
fn pages_arriving_out_of_order_keep_discovery_order() {
    let (mut session, _) = SyncSession::start(10);
    // total 5, page size 2: pages 2 and 3 remain. Page 3 answers first.
    let (pc, _) = session.on_first_page(Ok(page(vec![1, 2], 2, "5"))).unwrap();
    assert_eq!(pc, 3);
    assert_eq!(session.on_page(3, Ok(page(vec![5], 2, "5"))).unwrap(), None);
    let milestone = session.on_page(2, Ok(page(vec![3, 4], 2, "5"))).unwrap();
    assert_eq!(milestone, Some(SyncMilestone::GettingComics { total: 5 }));
    // The discovery list is in page order, not arrival order.
    let ids: Vec<String> = session.items.iter().map(|item| item.id.clone()).collect();
    assert_eq!(ids, vec!["1", "2", "3", "4", "5"]);
}

#[test]
fn selection_fails_only_for_a_nameless_tracked_comic_with_work() {
    // Tracked, chapters to queue, but no title: the selection step fails
    // with the malformed payload, before creating anything.
    let mut mgr = DownloadManager::new();
    let mut nameless = detail(1, vec![(11, Some(true)), (12, Some(false))]);
    nameless.name = String::new();
    assert_eq!(mgr.queue_new_from(&vec![nameless]), Err(DownloadError::InvalidPayload));
    assert_eq!(mgr.registry.tasks.len(), 0);

    // Success is owed otherwise: an untracked comic without a title is
    // skipped, and a tracked but complete one contributes nothing.
    let mut mgr = DownloadManager::new();
    let mut untracked = detail(2, vec![(21, Some(false))]);
    untracked.name = String::new();
    let mut complete = detail(3, vec![(31, Some(true))]);
    complete.name = String::new();
    assert_eq!(mgr.queue_new_from(&vec![untracked, complete]), Ok(()));
    assert_eq!(mgr.registry.tasks.len(), 0);
}

#[test]
fn finished_sync_with_a_nameless_tracked_comic_reports_the_payload() {
    let (mut session, _) = SyncSession::start(10);
    let (pc, _) = session.on_first_page(Ok(page(vec![1], 10, "1"))).unwrap();
    assert_eq!(pc, 1);
    let _ = drain_details(&mut session, |aid| {
        let mut c = detail(aid, vec![(11, Some(true)), (12, None)]);
        c.name = String::new();
        Ok(c)
    })
    .unwrap();
    let mut mgr = DownloadManager::new();
    assert_eq!(finish_sync(session, &mut mgr), Err(DownloadError::InvalidPayload));
    assert_eq!(mgr.registry.tasks.len(), 0);
}

#[test]
fn toggle_pair_must_cancel_out() {
    assert_eq!(check_toggle_pair(ToggleType::Favorite, ToggleType::Unfavorite), Ok(()));
    assert_eq!(check_toggle_pair(ToggleType::Unfavorite, ToggleType::Favorite), Ok(()));
    assert_eq!(
        check_toggle_pair(ToggleType::Favorite, ToggleType::Favorite),
        Err(DownloadError::Aggregate)
    );
    assert_eq!(
        check_toggle_pair(ToggleType::Unfavorite, ToggleType::Unfavorite),
        Err(DownloadError::Aggregate)
    );
}

#[test]
fn single_page_collection_skips_phase_one_fan_out() {
    let (mut session, _) = SyncSession::start(10);
    // total 3, page size 10: one page holds everything; the
    // enrichment-started milestone comes back at once.
    let (pc, milestone) = session.on_first_page(Ok(page(vec![1, 2, 3], 10, "3"))).unwrap();
    assert_eq!(pc, 1);
    assert_eq!(milestone, Some(SyncMilestone::GettingComics { total: 3 }));
    let (milestones, _) =
        drain_details(&mut session, |aid| Ok(detail(aid, vec![(aid, None)]))).unwrap();
    assert_eq!(milestones.len(), 3);
    assert_eq!(session.into_comics().len(), 3);
}
