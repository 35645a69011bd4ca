//! Step-by-step orchestration of one sync invocation.
//!
//! The engine decides; the embedding application acts. Each flow is a state
//! machine: the application performs the returned action (a clone, a
//! mirror pass, a status query, a stage, a commit, a push, or the final
//! cleanup) and reports the outcome back as an event, and the engine hands
//! out the next phase and action. A push clones the remote (falling back to
//! the default branch and creating the target branch), mirrors the local
//! tree into the clone, and commits and pushes only when the status report
//! shows changes; a pull clones and mirrors back. Any failure aborts the
//! rest of the flow.

use vstd::prelude::*;

use crate::config::Config;
use crate::config::Mode;
use crate::config::SyncError;
use crate::config::validate_config;
use crate::message::body_spec;
use crate::message::generate_commit_message;
use crate::message::subject_spec;
use crate::status::added_of;
use crate::status::deleted_of;
use crate::status::modified_of;
use crate::status::parse_git_status;
use crate::status::split_lines_from;
use crate::text::is_blank;
use crate::text::is_blank_spec;
use crate::text::seq_view;

verus! {

/// What the application must do next. Clones land in the scratch
/// directory; the mirror pass runs the transform pipeline between the sync
/// root and the scratch clone in the flow's direction.
#[derive(Debug, Clone, PartialEq, Eq)]
pub enum SyncAction {
    CloneBranch,
    CloneDefault,
    CreateBranch,
    MirrorFiles,
    QueryStatus,
    StageAll,
    Commit(String, String),
    PushBranch,
    Finish,
    Abort,
}

/// What the application reports back after performing an action.
#[derive(Debug, Clone, PartialEq, Eq)]
pub enum SyncEvent {
    Succeeded,
    Failed,
    StatusReport(String),
}

/// Where a push flow stands. The staging and committing phases carry the
/// commit subject and body built from the status report.
#[derive(Debug, Clone, PartialEq, Eq)]
pub enum PushPhase {
    Cloning,
    CloningDefault,
    CreatingBranch,
    Mirroring,
    CheckingStatus,
    Staging(String, String),
    Committing(String, String),
    Pushing,
    Done,
    Failed,
}

/// Where a pull flow stands.
#[derive(Debug, Clone, PartialEq, Eq, Structural)]
pub enum PullPhase {
    Cloning,
    Mirroring,
    Done,
    Failed,
}

/// The first phase and action of a push flow: clone the remote at the
/// target branch.
pub fn push_start() -> (r: (PushPhase, SyncAction))
    ensures
        r == (PushPhase::Cloning, SyncAction::CloneBranch),
{
    (PushPhase::Cloning, SyncAction::CloneBranch)
}

/// One step of a push flow. A failed clone of the target branch falls back
/// to cloning the default branch and creating the target branch; any other
/// failure aborts. A blank status report finishes the flow with no commit;
/// a non-blank one is classified and drives stage, commit, and push in
/// order, with the commit message built from the classification.
pub fn push_step(phase: PushPhase, event: &SyncEvent) -> (r: (PushPhase, SyncAction))
    ensures
        *event is Failed && !(phase is Cloning) ==> r == (PushPhase::Failed, SyncAction::Abort),
        phase is Cloning && *event is Failed ==> r == (
            PushPhase::CloningDefault,
            SyncAction::CloneDefault,
        ),
        phase is Cloning && *event is Succeeded ==> r == (
            PushPhase::Mirroring,
            SyncAction::MirrorFiles,
        ),
        phase is CloningDefault && *event is Succeeded ==> r == (
            PushPhase::CreatingBranch,
            SyncAction::CreateBranch,
        ),
        phase is CreatingBranch && *event is Succeeded ==> r == (
            PushPhase::Mirroring,
            SyncAction::MirrorFiles,
        ),
        phase is Mirroring && *event is Succeeded ==> r == (
            PushPhase::CheckingStatus,
            SyncAction::QueryStatus,
        ),
        phase is CheckingStatus && *event is Succeeded ==> r == (
            PushPhase::Failed,
            SyncAction::Abort,
        ),
        phase is CheckingStatus ==> (*event matches SyncEvent::StatusReport(s) ==> {
            let ls = split_lines_from(s@, 0);
            let a = added_of(ls);
            let m = modified_of(ls);
            let d = deleted_of(ls);
            &&& (is_blank_spec(s@) ==> r == (PushPhase::Done, SyncAction::Finish))
            &&& (!is_blank_spec(s@) && a.len() + m.len() + d.len() <= usize::MAX ==> {
                &&& (r.0 matches PushPhase::Staging(subj, body) && subj@ == subject_spec(
                    a.len(),
                    m.len(),
                    d.len(),
                ) && body@ == body_spec(a, m, d))
                &&& r.1 == SyncAction::StageAll
            })
            &&& (!is_blank_spec(s@) && a.len() + m.len() + d.len() > usize::MAX ==> r == (
                PushPhase::Failed,
                SyncAction::Abort,
            ))
        }),
        !(phase is CheckingStatus) && *event is StatusReport ==> r == (
            PushPhase::Failed,
            SyncAction::Abort,
        ),
        phase matches PushPhase::Staging(subj, body) ==> (*event is Succeeded ==> r == (
            PushPhase::Committing(subj, body),
            SyncAction::Commit(subj, body),
        )),
        phase is Committing && *event is Succeeded ==> r == (
            PushPhase::Pushing,
            SyncAction::PushBranch,
        ),
        phase is Pushing && *event is Succeeded ==> r == (PushPhase::Done, SyncAction::Finish),
        (phase is Done || phase is Failed) && *event is Succeeded ==> r == (
            PushPhase::Failed,
            SyncAction::Abort,
        ),
        r.1 is StageAll ==> phase is CheckingStatus,
        r.1 is Commit ==> phase is Staging,
        r.1 is PushBranch ==> phase is Committing,
{
    match phase {
        PushPhase::Cloning => match event {
            SyncEvent::Succeeded => (PushPhase::Mirroring, SyncAction::MirrorFiles),
            SyncEvent::Failed => (PushPhase::CloningDefault, SyncAction::CloneDefault),
            SyncEvent::StatusReport(_) => (PushPhase::Failed, SyncAction::Abort),
        },
        PushPhase::CloningDefault => match event {
            SyncEvent::Succeeded => (PushPhase::CreatingBranch, SyncAction::CreateBranch),
            _ => (PushPhase::Failed, SyncAction::Abort),
        },
        PushPhase::CreatingBranch => match event {
            SyncEvent::Succeeded => (PushPhase::Mirroring, SyncAction::MirrorFiles),
            _ => (PushPhase::Failed, SyncAction::Abort),
        },
        PushPhase::Mirroring => match event {
            SyncEvent::Succeeded => (PushPhase::CheckingStatus, SyncAction::QueryStatus),
            _ => (PushPhase::Failed, SyncAction::Abort),
        },
        PushPhase::CheckingStatus => match event {
            SyncEvent::StatusReport(s) => {
                if is_blank(s.as_str()) {
                    (PushPhase::Done, SyncAction::Finish)
                } else {
                    let stats = parse_git_status(s.as_str());
                    let a = stats.added.len();
                    let m = stats.modified.len();
                    if m <= usize::MAX - a && stats.deleted.len() <= usize::MAX - (a + m) {
                        let msg = generate_commit_message(&stats);
                        (PushPhase::Staging(msg.0, msg.1), SyncAction::StageAll)
                    } else {
                        (PushPhase::Failed, SyncAction::Abort)
                    }
                }
            },
            _ => (PushPhase::Failed, SyncAction::Abort),
        },
        PushPhase::Staging(subj, body) => match event {
            SyncEvent::Succeeded => {
                let subj_copy = subj.clone();
                let body_copy = body.clone();
                (PushPhase::Committing(subj_copy, body_copy), SyncAction::Commit(subj, body))
            },
            _ => (PushPhase::Failed, SyncAction::Abort),
        },
        PushPhase::Committing(_, _) => match event {
            SyncEvent::Succeeded => (PushPhase::Pushing, SyncAction::PushBranch),
            _ => (PushPhase::Failed, SyncAction::Abort),
        },
        PushPhase::Pushing => match event {
            SyncEvent::Succeeded => (PushPhase::Done, SyncAction::Finish),
            _ => (PushPhase::Failed, SyncAction::Abort),
        },
        PushPhase::Done => (PushPhase::Failed, SyncAction::Abort),
        PushPhase::Failed => (PushPhase::Failed, SyncAction::Abort),
    }
}

/// The transition table of a pull flow: clone the target branch, mirror it
/// into the destination, finish; any failure or unexpected event aborts.
pub open spec fn pull_step_spec(phase: PullPhase, event: SyncEvent) -> (PullPhase, SyncAction) {
    match (phase, event) {
        (PullPhase::Cloning, SyncEvent::Succeeded) => (
            PullPhase::Mirroring,
            SyncAction::MirrorFiles,
        ),
        (PullPhase::Mirroring, SyncEvent::Succeeded) => (PullPhase::Done, SyncAction::Finish),
        _ => (PullPhase::Failed, SyncAction::Abort),
    }
}

/// The first phase and action of a pull flow: clone the remote at the
/// target branch.
pub fn pull_start() -> (r: (PullPhase, SyncAction))
    ensures
        r == (PullPhase::Cloning, SyncAction::CloneBranch),
{
    (PullPhase::Cloning, SyncAction::CloneBranch)
}

/// One step of a pull flow.
pub fn pull_step(phase: PullPhase, event: &SyncEvent) -> (r: (PullPhase, SyncAction))
    ensures
        r == pull_step_spec(phase, *event),
{
    match (phase, event) {
        (PullPhase::Cloning, SyncEvent::Succeeded) => (
            PullPhase::Mirroring,
            SyncAction::MirrorFiles,
        ),
        (PullPhase::Mirroring, SyncEvent::Succeeded) => (PullPhase::Done, SyncAction::Finish),
        _ => (PullPhase::Failed, SyncAction::Abort),
    }
}

/// A whole invocation's flow: a push or a pull, with its phase.
#[derive(Debug, Clone, PartialEq, Eq)]
pub enum SyncFlow {
    Push(PushPhase),
    Pull(PullPhase),
}

/// Validates the configuration and starts the flow for its direction. The
/// starting action of either flow is the clone of the target branch.
pub fn start_sync(config: &Config) -> (r: Result<(SyncFlow, SyncAction), SyncError>)
    ensures
        (r is Ok) == (config.folder_path@.len() > 0 && !is_blank_spec(config.repo_url@)),
        r matches Ok(p) ==> p.1 == SyncAction::CloneBranch,
        r matches Ok(p) ==> (config.mode is Push ==> p.0 == SyncFlow::Push(PushPhase::Cloning)),
        r matches Ok(p) ==> (config.mode is Pull ==> p.0 == SyncFlow::Pull(PullPhase::Cloning)),
        r matches Err(e) ==> (config.folder_path@.len() == 0 ==> e == SyncError::MissingFolderPath),
        r matches Err(e) ==> (config.folder_path@.len() > 0 ==> e == SyncError::MissingRepoUrl),
{
    match validate_config(config) {
        Ok(()) => match config.mode {
            Mode::Push => {
                let s = push_start();
                Ok((SyncFlow::Push(s.0), s.1))
            },
            Mode::Pull => {
                let s = pull_start();
                Ok((SyncFlow::Pull(s.0), s.1))
            },
        },
        Err(e) => Err(e),
    }
}

} // verus!
