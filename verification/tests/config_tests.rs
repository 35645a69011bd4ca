use file_syncer::config::SyncError;
use file_syncer::Config;
use file_syncer::Mode;
use file_syncer::validate_config;

fn base_config() -> Config {
    Config {
        mode: Mode::Push,
        folder_path: "/tmp/test".to_string(),
        repo_url: "https://github.com/user/repo.git".to_string(),
        branch: "main".to_string(),
        ssh_key_path: None,
        compress: false,
    }
}

#[test]
fn validate_config_accepts_valid_modes() {
    let config = Config {
        mode: Mode::Push,
        folder_path: "/tmp/test".to_string(),
        repo_url: "https://github.com/user/repo.git".to_string(),
        branch: "main".to_string(),
        ssh_key_path: None,
        compress: false,
    };

    assert!(validate_config(&config).is_ok());
}

#[test]
fn validate_config_requires_folder_path() {
    let config = Config {
        mode: Mode::Push,
        folder_path: String::new(),
        repo_url: "https://github.com/user/repo.git".to_string(),
        branch: "main".to_string(),
        ssh_key_path: None,
        compress: false,
    };

    assert!(validate_config(&config).is_err());
}

#[test]
fn validate_config_rejects_missing_repo() {
    let config = Config {
        mode: Mode::Push,
        folder_path: "/tmp/test".to_string(),
        repo_url: "".to_string(),
        branch: "main".to_string(),
        ssh_key_path: None,
        compress: false,
    };

    assert!(validate_config(&config).is_err());
}

#[test]
fn validate_config_names_the_missing_value() {
    let mut config = base_config();
    config.folder_path = String::new();
    assert_eq!(validate_config(&config), Err(SyncError::MissingFolderPath));

    let mut config = base_config();
    config.repo_url = "   ".to_string();
    assert_eq!(validate_config(&config), Err(SyncError::MissingRepoUrl));
}

#[test]
fn mode_parse_knows_both_directions() {
    assert_eq!(Mode::parse("push"), Ok(Mode::Push));
    assert_eq!(Mode::parse("pull"), Ok(Mode::Pull));
    assert_eq!(Mode::parse("sync"), Err(SyncError::UnknownMode));
    assert_eq!(Mode::parse(""), Err(SyncError::UnknownMode));
}

#[test]
fn sync_error_messages_describe_each_case() {
    assert_eq!(
        SyncError::MissingFolderPath.message(),
        "folder path is required"
    );
    assert_eq!(
        SyncError::MissingRepoUrl.message(),
        "repository URL is required"
    );
    assert_eq!(
        SyncError::UnknownMode.message(),
        "mode must be either 'push' or 'pull'"
    );
    assert_eq!(
        SyncError::Encoding.message(),
        "compressed data could not be decoded"
    );
}
