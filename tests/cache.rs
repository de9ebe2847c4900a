use memo::cache::{
    cleanup_temp_dirs, commit_cache_dir, create_temp_cache_dir, digest_dir, get_cache_dir,
    get_cache_paths, get_cache_paths_in_dir, is_memo_disabled, memo_complete, retention_cutoff,
    ModifiedTime, RenameOutcome, RootEntry, SweepAction, ORPHAN_MAX_AGE_SECS,
};
use memo::error::MemoError;
use std::io;
use std::path::PathBuf;

fn names(items: &[&str]) -> Vec<String> {
    items.iter().map(|s| s.to_string()).collect()
}

#[test]
fn test_get_cache_paths() {
    let path = PathBuf::from("/tmp/cache");
    let (json, out, err) = get_cache_paths(path.to_str().unwrap(), "abc123");

    assert_eq!(PathBuf::from(json), PathBuf::from("/tmp/cache/abc123/meta.json"));
    assert_eq!(PathBuf::from(out), PathBuf::from("/tmp/cache/abc123/stdout"));
    assert_eq!(PathBuf::from(err), PathBuf::from("/tmp/cache/abc123/stderr"));
}

#[test]
fn paths_in_dir_use_fixed_names() {
    let (json, out, err) = get_cache_paths_in_dir("/c/d/");
    assert_eq!(json, "/c/d/meta.json");
    assert_eq!(out, "/c/d/stdout");
    assert_eq!(err, "/c/d/stderr");
    assert_eq!(digest_dir("/c", "k"), "/c/k");
    assert_eq!(digest_dir("", "k"), "k");
}

#[test]
fn complete_only_with_all_three_files() {
    assert!(memo_complete(&names(&["meta.json", "stdout", "stderr"])));
    assert!(memo_complete(&names(&["stderr", "extra", "stdout", "meta.json"])));
    assert!(!memo_complete(&names(&["meta.json", "stdout"])));
    assert!(!memo_complete(&names(&["stdout", "stderr"])));
    assert!(!memo_complete(&names(&["meta.json", "stderr"])));
    assert!(!memo_complete(&names(&[])));
    assert!(!memo_complete(&names(&["meta.jso", "stdout", "stderr"])));
}

#[test]
fn disabled_only_by_exactly_one() {
    assert!(is_memo_disabled(Some("1")));
    assert!(!is_memo_disabled(Some("0")));
    assert!(!is_memo_disabled(Some("")));
    assert!(!is_memo_disabled(Some("11")));
    assert!(!is_memo_disabled(Some("true")));
    assert!(!is_memo_disabled(None));
}

#[test]
fn cache_dir_prefers_cache_home() {
    assert_eq!(get_cache_dir(Some("/x/cache"), Some("/home/u")).unwrap(), "/x/cache/memo");
    assert_eq!(get_cache_dir(None, Some("/home/u")).unwrap(), "/home/u/.cache/memo");
    assert_eq!(get_cache_dir(None, Some("/")).unwrap(), "/.cache/memo");
    assert!(matches!(get_cache_dir(None, None), Err(MemoError::HomeNotFound)));
}

#[test]
fn staging_name_holds_digest_pid_and_time() {
    let t = create_temp_cache_dir("/c", "abc", 4242, 1700000000123456789);
    assert_eq!(t.path, "/c/abc.tmp.4242.1700000000123456789");
    assert!(!t.is_committed());
    let (json, out, err) = t.get_paths();
    assert_eq!(json, "/c/abc.tmp.4242.1700000000123456789/meta.json");
    assert_eq!(out, "/c/abc.tmp.4242.1700000000123456789/stdout");
    assert_eq!(err, "/c/abc.tmp.4242.1700000000123456789/stderr");
    let t = create_temp_cache_dir("/c/", "d", 0, -5);
    assert_eq!(t.path, "/c/d.tmp.0.-5");
    let t = create_temp_cache_dir("/c", "d", u32::MAX, i64::MIN);
    assert_eq!(t.path, "/c/d.tmp.4294967295.-9223372036854775808");
}

#[test]
fn commit_won_lost_or_failed() {
    let mut won = create_temp_cache_dir("/c", "k", 1, 2);
    assert_eq!(commit_cache_dir(&mut won, RenameOutcome::Renamed).unwrap(), true);
    assert!(won.is_committed());

    let mut lost = create_temp_cache_dir("/c", "k", 2, 3);
    assert_eq!(commit_cache_dir(&mut lost, RenameOutcome::DestinationExists).unwrap(), false);
    assert!(!lost.is_committed());

    let mut failed = create_temp_cache_dir("/c", "k", 3, 4);
    let e = io::Error::new(io::ErrorKind::PermissionDenied, "denied");
    let r = commit_cache_dir(&mut failed, RenameOutcome::Failed(e));
    assert_eq!(r.unwrap_err().kind(), io::ErrorKind::PermissionDenied);
    assert!(!failed.is_committed());
}

fn entry(name: &str, is_dir: bool, modified: ModifiedTime) -> RootEntry {
    RootEntry { name: name.to_string(), is_dir, modified }
}

#[test]
fn sweep_removes_only_aged_staging_directories() {
    const DAY: i128 = 86_400 * 1_000_000_000;
    let now: i128 = 1_700_000_000 * 1_000_000_000;
    let cutoff = retention_cutoff(now, ORPHAN_MAX_AGE_SECS);
    assert_eq!(cutoff, Some(now - DAY));
    let entries = vec![
        entry("k1.tmp.10.20", true, ModifiedTime::Known(now - 2 * DAY)),
        entry("k2.tmp.10.21", true, ModifiedTime::Known(now - DAY / 2)),
        entry("k3.tmp.10.22", true, ModifiedTime::Known(now - DAY)),
        entry("k4.tmp.10.23", true, ModifiedTime::MetadataUnreadable),
        entry("k5.tmp.10.24", true, ModifiedTime::TimeUnreadable),
        entry("k6.tmp.10.25", false, ModifiedTime::Known(now - 3 * DAY)),
        entry("0123abcd", true, ModifiedTime::Known(now - 3 * DAY)),
    ];
    let actions = cleanup_temp_dirs(&entries, cutoff);
    assert_eq!(
        actions,
        vec![
            SweepAction::Remove,
            SweepAction::KeepRecent,
            SweepAction::KeepRecent,
            SweepAction::SkipMetadataError,
            SweepAction::SkipTimeError,
            SweepAction::Ignore,
            SweepAction::Ignore,
        ]
    );
}

#[test]
fn sweep_without_cutoff_keeps_everything() {
    let entries = vec![
        entry("k.tmp.1.2", true, ModifiedTime::Known(0)),
        entry("k", true, ModifiedTime::Known(0)),
    ];
    assert_eq!(
        cleanup_temp_dirs(&entries, None),
        vec![SweepAction::SkipNoCutoff, SweepAction::Ignore]
    );
    assert_eq!(cleanup_temp_dirs(&vec![], Some(5)), vec![]);
}

#[test]
fn cutoff_cannot_go_below_the_earliest_instant() {
    assert_eq!(retention_cutoff(i128::MIN + 10, 1), None);
    assert_eq!(retention_cutoff(0, 0), Some(0));
    assert_eq!(retention_cutoff(5_000_000_000, 2), Some(3_000_000_000));
}
