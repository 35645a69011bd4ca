//! A git-backed file mirroring library.
//!
//! The synchronization engine here covers: the reversible naming convention
//! for transparently compressed files, per-file transform decisions, the
//! exclusion rule for the VCS metadata directory, parsing of working-tree
//! status reports, commit-message synthesis, shell escaping for the SSH
//! transport command, and the step-by-step orchestration of a push or pull
//! flow. All file and process I/O is left to the embedding application.

pub mod codec;
pub mod config;
pub mod engine;
pub mod message;
pub mod paths;
pub mod shell;
pub mod status;
pub mod text;
pub mod tree;

pub use codec::transform_file;
pub use config::validate_config;
pub use config::Config;
pub use config::Mode;
pub use message::generate_commit_message;
pub use status::parse_git_status;
pub use status::FileChangeStats;

pub use shell::build_git_ssh_command;
pub use shell::escape_shell_arg;
pub use paths::compress_relative_path;
pub use paths::decompress_relative_path;
pub use paths::is_gzipped_file;
pub use paths::original_file_name;
