use download_core::catalog::{sort_newest_first, CatalogEntry};
use download_core::comic::{ChapterInfo, Comic};
use download_core::config::{Config, LoggerAction, ProxyMode};
use download_core::error::DownloadError;
use download_core::util::{dir_total_size, greet, parse_i64};

#[test]
fn greet_formats_the_probe_reply() {
    assert_eq!(greet("World"), "Hello, World! You've been greeted from Rust!");
    assert_eq!(greet(""), "Hello, ! You've been greeted from Rust!");
}

#[test]
fn parse_accepts_plain_decimals() {
    assert_eq!(parse_i64("0"), Some(0));
    assert_eq!(parse_i64("123"), Some(123));
    assert_eq!(parse_i64("007"), Some(7));
    assert_eq!(parse_i64("9223372036854775807"), Some(i64::MAX));
}

#[test]
fn parse_accepts_a_leading_plus_sign() {
    assert_eq!(parse_i64("+12"), Some(12));
    assert_eq!(parse_i64("+0"), Some(0));
    assert_eq!(parse_i64("+9223372036854775807"), Some(i64::MAX));
}

#[test]
fn parse_accepts_negative_decimals() {
    assert_eq!(parse_i64("-45"), Some(-45));
    assert_eq!(parse_i64("-0"), Some(0));
    assert_eq!(parse_i64("-9223372036854775808"), Some(i64::MIN));
}

#[test]
fn parse_rejects_everything_else() {
    assert_eq!(parse_i64(""), None);
    assert_eq!(parse_i64("-"), None);
    assert_eq!(parse_i64("12a"), None);
    assert_eq!(parse_i64("a12"), None);
    assert_eq!(parse_i64(" 12"), None);
    assert_eq!(parse_i64("+"), None);
    assert_eq!(parse_i64("++1"), None);
    assert_eq!(parse_i64("+-1"), None);
    assert_eq!(parse_i64("1.5"), None);
    assert_eq!(parse_i64("9223372036854775808"), None);
    assert_eq!(parse_i64("-9223372036854775809"), None);
    assert_eq!(parse_i64("99999999999999999999999999"), None);
}

#[test]
fn dir_size_sums_exactly() {
    assert_eq!(dir_total_size(&vec![]), 0);
    assert_eq!(dir_total_size(&vec![1, 2, 3]), 6);
    assert_eq!(dir_total_size(&vec![0, u64::MAX]), u64::MAX);
}

#[test]
fn dir_size_saturates_instead_of_wrapping() {
    assert_eq!(dir_total_size(&vec![u64::MAX, 1]), u64::MAX);
    assert_eq!(dir_total_size(&vec![u64::MAX / 2 + 1, u64::MAX / 2 + 1]), u64::MAX);
    assert_eq!(dir_total_size(&vec![u64::MAX, u64::MAX, 5]), u64::MAX);
}

#[test]
fn catalog_sorts_newest_first() {
    let entries = vec![
        CatalogEntry { index: 0, modified: 5 },
        CatalogEntry { index: 1, modified: 9 },
        CatalogEntry { index: 2, modified: 1 },
        CatalogEntry { index: 3, modified: 7 },
    ];
    let sorted = sort_newest_first(entries);
    let order: Vec<usize> = sorted.iter().map(|e| e.index).collect();
    assert_eq!(order, vec![1, 3, 0, 2]);
}

#[test]
fn catalog_sort_keeps_equal_times_and_all_entries() {
    let entries = vec![
        CatalogEntry { index: 0, modified: 3 },
        CatalogEntry { index: 1, modified: 3 },
        CatalogEntry { index: 2, modified: 8 },
        CatalogEntry { index: 3, modified: 3 },
    ];
    let sorted = sort_newest_first(entries);
    assert_eq!(sorted.len(), 4);
    assert_eq!(sorted[0].modified, 8);
    let mut tail: Vec<usize> = sorted[1..].iter().map(|e| e.index).collect();
    tail.sort();
    assert_eq!(tail, vec![0, 1, 3]);
}

#[test]
fn save_plan_detects_proxy_and_logger_changes() {
    let base = Config {
        proxy_mode: ProxyMode::NoProxy,
        proxy_host: String::from("127.0.0.1"),
        proxy_port: 7890,
        enable_file_logger: true,
        download_dir: String::from("/downloads"),
    };
    let same = Config { proxy_host: String::from("127.0.0.1"), ..clone_config(&base) };
    let plan = base.plan_save(&same);
    assert!(!plan.proxy_changed);
    assert_eq!(plan.logger, LoggerAction::Keep);

    let mut proxied = clone_config(&base);
    proxied.proxy_mode = ProxyMode::Custom;
    let plan = base.plan_save(&proxied);
    assert!(plan.proxy_changed);
    assert_eq!(plan.logger, LoggerAction::Keep);

    let mut host_changed = clone_config(&base);
    host_changed.proxy_host = String::from("10.0.0.1");
    assert!(base.plan_save(&host_changed).proxy_changed);

    let mut port_changed = clone_config(&base);
    port_changed.proxy_port = 1080;
    assert!(base.plan_save(&port_changed).proxy_changed);

    let mut logger_off = clone_config(&base);
    logger_off.enable_file_logger = false;
    let plan = base.plan_save(&logger_off);
    assert!(!plan.proxy_changed);
    assert_eq!(plan.logger, LoggerAction::Disable);

    let plan = logger_off.plan_save(&base);
    assert_eq!(plan.logger, LoggerAction::Reload);
}

fn clone_config(c: &Config) -> Config {
    Config {
        proxy_mode: c.proxy_mode,
        proxy_host: c.proxy_host.clone(),
        proxy_port: c.proxy_port,
        enable_file_logger: c.enable_file_logger,
        download_dir: c.download_dir.clone(),
    }
}

#[test]
fn stripping_for_metadata_clears_every_download_flag() {
    let comic = Comic {
        id: 7,
        name: String::from("A"),
        is_downloaded: Some(true),
        chapter_infos: vec![
            ChapterInfo { chapter_id: 1, is_downloaded: Some(true) },
            ChapterInfo { chapter_id: 2, is_downloaded: Some(false) },
            ChapterInfo { chapter_id: 3, is_downloaded: None },
        ],
    };
    let stripped = comic.stripped_for_metadata();
    assert_eq!(stripped.id, 7);
    assert_eq!(stripped.name, "A");
    assert_eq!(stripped.is_downloaded, None);
    let ids: Vec<i64> = stripped.chapter_infos.iter().map(|c| c.chapter_id).collect();
    assert_eq!(ids, vec![1, 2, 3]);
    assert!(stripped.chapter_infos.iter().all(|c| c.is_downloaded.is_none()));
}

#[test]
fn plan_download_lists_missing_chapters_in_order() {
    let comic = Comic {
        id: 7,
        name: String::from("A"),
        is_downloaded: None,
        chapter_infos: vec![
            ChapterInfo { chapter_id: 4, is_downloaded: Some(true) },
            ChapterInfo { chapter_id: 5, is_downloaded: Some(false) },
            ChapterInfo { chapter_id: 6, is_downloaded: None },
        ],
    };
    assert_eq!(comic.plan_download(), Ok(vec![5, 6]));
}

#[test]
fn plan_download_of_a_complete_comic_fails() {
    let comic = Comic {
        id: 7,
        name: String::from("A"),
        is_downloaded: Some(true),
        chapter_infos: vec![ChapterInfo { chapter_id: 4, is_downloaded: Some(true) }],
    };
    assert_eq!(comic.plan_download(), Err(DownloadError::InvalidPayload));
}

#[test]
fn error_titles_are_short_and_human_readable() {
    assert_eq!(DownloadError::Network.title(), "network error");
    assert_eq!(DownloadError::TaskNotFound.title(), "task not found");
    assert_eq!(DownloadError::InvalidPayload.title(), "invalid payload");
    assert_eq!(DownloadError::Aggregate.title(), "aggregate failure");
    assert_eq!(DownloadError::Io.title(), "io error");
}
