use file_syncer::engine::pull_start;
use file_syncer::engine::pull_step;
use file_syncer::engine::push_start;
use file_syncer::engine::push_step;
use file_syncer::engine::PullPhase;
use file_syncer::engine::PushPhase;
use file_syncer::engine::SyncAction;
use file_syncer::engine::SyncEvent;
use file_syncer::engine::SyncFlow;
use file_syncer::engine::start_sync;
use file_syncer::Config;
use file_syncer::Mode;

#[test]
fn push_with_no_changes_is_a_noop() {
    let (phase, action) = push_start();
    assert_eq!(action, SyncAction::CloneBranch);

    let (phase, action) = push_step(phase, &SyncEvent::Succeeded);
    assert_eq!(action, SyncAction::MirrorFiles);
    let (phase, action) = push_step(phase, &SyncEvent::Succeeded);
    assert_eq!(action, SyncAction::QueryStatus);
    let (phase, action) = push_step(phase, &SyncEvent::StatusReport("  \n".to_string()));
    assert_eq!(phase, PushPhase::Done);
    assert_eq!(action, SyncAction::Finish);
}

#[test]
fn push_with_one_new_file_commits_the_classified_message() {
    let (phase, _) = push_start();
    let (phase, _) = push_step(phase, &SyncEvent::Succeeded);
    let (phase, _) = push_step(phase, &SyncEvent::Succeeded);

    let report = SyncEvent::StatusReport("A  new-file.txt".to_string());
    let (phase, action) = push_step(phase, &report);
    assert_eq!(action, SyncAction::StageAll);
    match &phase {
        PushPhase::Staging(subject, body) => {
            assert_eq!(subject, "Sync 1 file (1 added)");
            assert_eq!(body, "Added files:\n  + new-file.txt");
        }
        other => panic!("unexpected phase {other:?}"),
    }

    let (phase, action) = push_step(phase, &SyncEvent::Succeeded);
    assert_eq!(
        action,
        SyncAction::Commit(
            "Sync 1 file (1 added)".to_string(),
            "Added files:\n  + new-file.txt".to_string()
        )
    );
    let (phase, action) = push_step(phase, &SyncEvent::Succeeded);
    assert_eq!(action, SyncAction::PushBranch);
    let (phase, action) = push_step(phase, &SyncEvent::Succeeded);
    assert_eq!(phase, PushPhase::Done);
    assert_eq!(action, SyncAction::Finish);
}

#[test]
fn push_falls_back_to_the_default_branch_once() {
    let (phase, _) = push_start();
    let (phase, action) = push_step(phase, &SyncEvent::Failed);
    assert_eq!(phase, PushPhase::CloningDefault);
    assert_eq!(action, SyncAction::CloneDefault);
    let (phase, action) = push_step(phase, &SyncEvent::Succeeded);
    assert_eq!(phase, PushPhase::CreatingBranch);
    assert_eq!(action, SyncAction::CreateBranch);
    let (_, action) = push_step(phase, &SyncEvent::Succeeded);
    assert_eq!(action, SyncAction::MirrorFiles);

    let (phase, _) = push_start();
    let (phase, _) = push_step(phase, &SyncEvent::Failed);
    let (phase, action) = push_step(phase, &SyncEvent::Failed);
    assert_eq!(phase, PushPhase::Failed);
    assert_eq!(action, SyncAction::Abort);
}

#[test]
fn push_aborts_on_any_later_failure() {
    let (phase, _) = push_start();
    let (phase, _) = push_step(phase, &SyncEvent::Succeeded);
    let (phase, action) = push_step(phase, &SyncEvent::Failed);
    assert_eq!(phase, PushPhase::Failed);
    assert_eq!(action, SyncAction::Abort);
}

#[test]
fn pull_clones_mirrors_and_finishes() {
    let (phase, action) = pull_start();
    assert_eq!(action, SyncAction::CloneBranch);
    let (phase, action) = pull_step(phase, &SyncEvent::Succeeded);
    assert_eq!(phase, PullPhase::Mirroring);
    assert_eq!(action, SyncAction::MirrorFiles);
    let (phase, action) = pull_step(phase, &SyncEvent::Succeeded);
    assert_eq!(phase, PullPhase::Done);
    assert_eq!(action, SyncAction::Finish);
}

#[test]
fn pull_aborts_when_the_clone_fails() {
    let (phase, _) = pull_start();
    let (phase, action) = pull_step(phase, &SyncEvent::Failed);
    assert_eq!(phase, PullPhase::Failed);
    assert_eq!(action, SyncAction::Abort);
}

#[test]
fn start_sync_checks_the_configuration_and_picks_the_flow() {
    let config = Config {
        mode: Mode::Push,
        folder_path: "/tmp/src".to_string(),
        repo_url: "https://example.com/repo.git".to_string(),
        branch: "main".to_string(),
        ssh_key_path: None,
        compress: false,
    };
    let (flow, action) = start_sync(&config).unwrap();
    assert_eq!(flow, SyncFlow::Push(PushPhase::Cloning));
    assert_eq!(action, SyncAction::CloneBranch);

    let mut pull_config = config.clone();
    pull_config.mode = Mode::Pull;
    let (flow, _) = start_sync(&pull_config).unwrap();
    assert_eq!(flow, SyncFlow::Pull(PullPhase::Cloning));

    let mut bad = config.clone();
    bad.repo_url = " ".to_string();
    assert!(start_sync(&bad).is_err());
}
