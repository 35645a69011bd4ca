use file_syncer::parse_git_status;
use file_syncer::FileChangeStats;

#[test]
fn parse_git_status_collects_stats() {
    let stats = parse_git_status("A  newfile.txt");
    assert_eq!(
        stats,
        FileChangeStats {
            added: vec!["newfile.txt".into()],
            modified: vec![],
            deleted: vec![],
        }
    );

    let mixed = parse_git_status("A  added.txt\nM  modified.txt\nD  deleted.txt");
    assert_eq!(mixed.added, vec!["added.txt".to_string()]);
    assert_eq!(mixed.modified, vec!["modified.txt".to_string()]);
    assert_eq!(mixed.deleted, vec!["deleted.txt".to_string()]);

    let renamed = parse_git_status("R  old-name.txt -> new-name.txt");
    assert_eq!(renamed.modified, vec!["new-name.txt".to_string()]);
}

#[test]
fn parse_git_status_reads_every_known_code() {
    let stats = parse_git_status("?? untracked.txt\n M edited.txt\nMM both.txt\n D gone.txt");
    assert_eq!(stats.added, vec!["untracked.txt".to_string()]);
    assert_eq!(
        stats.modified,
        vec!["edited.txt".to_string(), "both.txt".to_string()]
    );
    assert_eq!(stats.deleted, vec!["gone.txt".to_string()]);
}

#[test]
fn parse_git_status_ignores_short_and_unknown_lines() {
    let stats = parse_git_status("\nXY mystery.txt\nab\nA  kept.txt\n");
    assert_eq!(stats.added, vec!["kept.txt".to_string()]);
    assert!(stats.modified.is_empty());
    assert!(stats.deleted.is_empty());
}

#[test]
fn parse_git_status_takes_rename_text_as_is_without_separator() {
    let stats = parse_git_status("R  lone-name.txt");
    assert_eq!(stats.modified, vec!["lone-name.txt".to_string()]);
}

#[test]
fn parse_git_status_keeps_report_order() {
    let stats = parse_git_status("A  b.txt\nA  a.txt\nD  z.txt\nD  y.txt");
    assert_eq!(stats.added, vec!["b.txt".to_string(), "a.txt".to_string()]);
    assert_eq!(stats.deleted, vec!["z.txt".to_string(), "y.txt".to_string()]);
}
