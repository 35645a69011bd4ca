use file_syncer::generate_commit_message;
use file_syncer::FileChangeStats;

#[test]
fn generate_commit_message_formats_output() {
    let stats = FileChangeStats {
        added: vec!["file.txt".into()],
        modified: vec![],
        deleted: vec![],
    };
    let (subject, body) = generate_commit_message(&stats);
    assert_eq!(subject, "Sync 1 file (1 added)");
    assert_eq!(body, "Added files:\n  + file.txt");

    let stats = FileChangeStats {
        added: vec!["new1.txt".into(), "new2.txt".into()],
        modified: vec!["mod.txt".into()],
        deleted: vec!["old.txt".into()],
    };
    let (subject, body) = generate_commit_message(&stats);
    assert_eq!(subject, "Sync 4 files (2 added, 1 modified, 1 deleted)");
    assert!(body.contains("Added files:\n  + new1.txt\n  + new2.txt"));
    assert!(body.contains("Modified files:\n  ~ mod.txt"));
    assert!(body.contains("Deleted files:\n  - old.txt"));
}

#[test]
fn generate_commit_message_orders_sections_and_separates_them() {
    let stats = FileChangeStats {
        added: vec!["a.txt".into()],
        modified: vec!["m.txt".into()],
        deleted: vec!["d.txt".into()],
    };
    let (_, body) = generate_commit_message(&stats);
    assert_eq!(
        body,
        "Added files:\n  + a.txt\n\nModified files:\n  ~ m.txt\n\nDeleted files:\n  - d.txt"
    );
}

#[test]
fn generate_commit_message_with_no_changes_has_no_parenthetical() {
    let stats = FileChangeStats {
        added: vec![],
        modified: vec![],
        deleted: vec![],
    };
    let (subject, body) = generate_commit_message(&stats);
    assert_eq!(subject, "Sync 0 files");
    assert_eq!(body, "");
}

#[test]
fn generate_commit_message_counts_ten_and_more() {
    let stats = FileChangeStats {
        added: (0..12).map(|i| format!("f{i}.txt")).collect(),
        modified: vec![],
        deleted: vec![],
    };
    let (subject, _) = generate_commit_message(&stats);
    assert_eq!(subject, "Sync 12 files (12 added)");
}

#[test]
fn generate_commit_message_skips_empty_categories_in_summary() {
    let stats = FileChangeStats {
        added: vec![],
        modified: vec!["m.txt".into()],
        deleted: vec!["d1.txt".into(), "d2.txt".into()],
    };
    let (subject, body) = generate_commit_message(&stats);
    assert_eq!(subject, "Sync 3 files (1 modified, 2 deleted)");
    assert_eq!(
        body,
        "Modified files:\n  ~ m.txt\n\nDeleted files:\n  - d1.txt\n  - d2.txt"
    );
}
