//! The configuration of one sync invocation and its validation.

use vstd::prelude::*;
use vstd::string::StrSliceExecFns;

use crate::text::is_blank;
use crate::text::is_blank_spec;
use crate::text::str_eq;

verus! {

/// The direction of one synchronization: local to remote, or remote to
/// local.
#[derive(Debug, Clone, PartialEq, Eq, Structural)]
pub enum Mode {
    Push,
    Pull,
}

/// The errors this library raises, by the rule that raises them.
#[derive(Debug, Clone, Copy, PartialEq, Eq, Structural)]
pub enum SyncError {
    /// The folder path is required but empty.
    MissingFolderPath,
    /// The repository URL is required but blank.
    MissingRepoUrl,
    /// The mode name is neither of the two known ones.
    UnknownMode,
    /// A compressed stream could not be decoded.
    Encoding,
}

impl SyncError {
    /// A one-line description of the error.
    pub fn message(&self) -> (r: String)
        ensures
            *self is MissingFolderPath ==> r@ == "folder path is required"@,
            *self is MissingRepoUrl ==> r@ == "repository URL is required"@,
            *self is UnknownMode ==> r@ == "mode must be either 'push' or 'pull'"@,
            *self is Encoding ==> r@ == "compressed data could not be decoded"@,
    {
        match self {
            SyncError::MissingFolderPath => "folder path is required".to_owned(),
            SyncError::MissingRepoUrl => "repository URL is required".to_owned(),
            SyncError::UnknownMode => "mode must be either 'push' or 'pull'".to_owned(),
            SyncError::Encoding => "compressed data could not be decoded".to_owned(),
        }
    }
}

impl Mode {
    /// Parses the textual mode name.
    pub fn parse(s: &str) -> (r: Result<Mode, SyncError>)
        ensures
            s@ == "push"@ ==> r == Ok::<Mode, SyncError>(Mode::Push),
            s@ == "pull"@ ==> r == Ok::<Mode, SyncError>(Mode::Pull),
            s@ != "push"@ && s@ != "pull"@ ==> r == Err::<Mode, SyncError>(SyncError::UnknownMode),
    {
        proof {
            reveal_strlit("push");
            reveal_strlit("pull");
            assert("push"@[2] == 's' && "pull"@[2] == 'l');
        }
        if str_eq(s, "push") {
            Ok(Mode::Push)
        } else if str_eq(s, "pull") {
            Ok(Mode::Pull)
        } else {
            Err(SyncError::UnknownMode)
        }
    }
}

/// Everything one sync invocation needs: the direction, the local folder,
/// the remote repository and branch, an optional signing key, and whether
/// files are compressed in transit.
#[derive(Debug, Clone, PartialEq, Eq)]
pub struct Config {
    pub mode: Mode,
    pub folder_path: String,
    pub repo_url: String,
    pub branch: String,
    pub ssh_key_path: Option<String>,
    pub compress: bool,
}

/// Checks the two required values: the folder path must be non-empty and
/// the repository URL must hold more than whitespace.
pub fn validate_config(config: &Config) -> (r: Result<(), SyncError>)
    ensures
        r is Ok <==> config.folder_path@.len() > 0 && !is_blank_spec(config.repo_url@),
        config.folder_path@.len() == 0 ==> r == Err::<(), SyncError>(SyncError::MissingFolderPath),
        config.folder_path@.len() > 0 && is_blank_spec(config.repo_url@) ==> r == Err::<
            (),
            SyncError,
        >(SyncError::MissingRepoUrl),
{
    if config.folder_path.as_str().unicode_len() == 0 {
        return Err(SyncError::MissingFolderPath);
    }
    if is_blank(config.repo_url.as_str()) {
        return Err(SyncError::MissingRepoUrl);
    }
    Ok(())
}

} // verus!
