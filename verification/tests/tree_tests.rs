use file_syncer::tree::filter_walk_records;
use file_syncer::tree::is_metadata_path;
use file_syncer::tree::EntryKind;
use file_syncer::tree::FileRecord;

fn record(path: &str, kind: EntryKind) -> FileRecord {
    FileRecord {
        rel_path: path.to_string(),
        kind,
        permissions: 0o644,
    }
}

#[test]
fn metadata_directory_is_detected_only_at_the_top_level() {
    assert!(is_metadata_path(".git"));
    assert!(is_metadata_path(".git/config"));
    assert!(is_metadata_path(".git/objects/ab/cd"));
    assert!(!is_metadata_path("src/.git"));
    assert!(!is_metadata_path("src/.git/config"));
    assert!(!is_metadata_path(".gitignore"));
    assert!(!is_metadata_path("git"));
    assert!(!is_metadata_path(""));
}

#[test]
fn filter_drops_the_metadata_tree_and_keeps_the_rest_in_order() {
    let records = vec![
        record(".git", EntryKind::Directory),
        record(".git/config", EntryKind::File),
        record("test.txt", EntryKind::File),
        record("subdir", EntryKind::Directory),
        record("subdir/.git", EntryKind::Directory),
        record("subdir/.git/config", EntryKind::File),
        record("subdir/test2.txt", EntryKind::File),
    ];
    let kept = filter_walk_records(&records);
    let paths: Vec<&str> = kept.iter().map(|r| r.rel_path.as_str()).collect();
    assert_eq!(
        paths,
        vec![
            "test.txt",
            "subdir",
            "subdir/.git",
            "subdir/.git/config",
            "subdir/test2.txt"
        ]
    );
}
