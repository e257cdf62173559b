//! The decisions of publishing planned files into a destination, as a state
//! machine: the caller performs each action on the filesystem and reports how
//! it went; the machine says what to do next.
//!
//! Files are staged and committed one at a time, in the order given. A
//! failure stops the publication and reports its phase, the file it concerns,
//! whether a staging file may remain, how certain it is that the file was
//! committed, and how many files were committed before it.

use vstd::prelude::*;
use crate::publication::{CommitCertainty, FilesystemPlanPublicationPhase};

verus! {

/// Where a publication stands: the action it waits to hear about.
#[derive(Clone, Copy, Debug, Eq, PartialEq, Structural)]
pub enum PublicationStage {
    Policy,
    Preflight,
    PlanPolicy,
    PrepareDestination,
    OpenParent,
    CreateStaging,
    WriteStaging,
    CheckCommit,
    Commit,
    RecheckBinding,
    Done,
}

/// The state of a publication: its stage, the file it is at and how many
/// files it has committed.
#[derive(Clone, Copy, Debug, Eq, PartialEq, Structural)]
pub struct PublicationProgress {
    pub stage: PublicationStage,
    pub file: usize,
    pub committed: usize,
}

/// How the last action went.
#[derive(Clone, Copy, Debug, Eq, PartialEq, Structural)]
pub enum PublicationEvent {
    Succeeded,
    Failed,
    /// Writing the staging file failed in this phase.
    StagingFailed(FilesystemPlanPublicationPhase),
    /// The commit failed, leaving the target in this state.
    CommitFailed(CommitCertainty),
}

/// Why and where a publication stopped.
#[derive(Clone, Copy, Debug, Eq, PartialEq, Structural)]
pub struct PublicationFailure {
    pub phase: FilesystemPlanPublicationPhase,
    /// The file the failure concerns, if it concerns one.
    pub failed_file: Option<usize>,
    /// Whether a staging file of the failed file may remain.
    pub staging: bool,
    pub certainty: CommitCertainty,
    /// How many files, the first ones given, were committed.
    pub committed: usize,
}

/// What the caller does next.
#[derive(Clone, Copy, Debug, Eq, PartialEq, Structural)]
pub enum PublicationAction {
    /// Check that the merge policy is supported here.
    CheckPolicy,
    /// Inspect every planned path and the destination.
    RunPreflight,
    /// Check that the policy is supported for this plan at the destination.
    CheckPlanPolicy,
    /// Create or open the destination directory.
    PrepareDestination,
    /// Open or create the parent directory of this file.
    OpenParent(usize),
    /// Create the staging file of this file.
    CreateStaging(usize),
    /// Write this file's bytes to its staging file.
    WriteStaging(usize),
    /// Check the parent binding and the target of this file.
    CheckCommit(usize),
    /// Move this file's staging file to its target.
    Commit(usize),
    /// Check the parent binding again after this file's commit.
    RecheckBinding(usize),
    /// Every file is committed.
    Finish,
    Fail(PublicationFailure),
}

/// Whether a publication state can occur for `n` files: before the files,
/// nothing is committed; at a file, exactly the files before it are
/// committed, and after its commit that file too.
pub open spec fn progress_valid(p: PublicationProgress, n: usize) -> bool {
    match p.stage {
        PublicationStage::Policy | PublicationStage::Preflight | PublicationStage::PlanPolicy
        | PublicationStage::PrepareDestination => p.file == 0 && p.committed == 0,
        PublicationStage::OpenParent | PublicationStage::CreateStaging | PublicationStage::WriteStaging
        | PublicationStage::CheckCommit | PublicationStage::Commit => p.file < n && p.committed == p.file,
        PublicationStage::RecheckBinding => p.file < n && p.committed == p.file + 1,
        PublicationStage::Done => p.committed <= n,
    }
}

/// A failure in `phase` at the current state.
pub open spec fn failure(
    p: PublicationProgress,
    phase: FilesystemPlanPublicationPhase,
    failed_file: Option<usize>,
    staging: bool,
    certainty: CommitCertainty,
) -> (PublicationProgress, PublicationAction) {
    (
        PublicationProgress { stage: PublicationStage::Done, file: p.file, committed: p.committed },
        PublicationAction::Fail(
            PublicationFailure { phase, failed_file, staging, certainty, committed: p.committed },
        ),
    )
}

/// Moves to `stage` at the same file with the same count, asking for `action`.
pub open spec fn advance(p: PublicationProgress, stage: PublicationStage, action: PublicationAction) -> (
    PublicationProgress,
    PublicationAction,
) {
    (PublicationProgress { stage, file: p.file, committed: p.committed }, action)
}

/// Goes on to file `i`, or finishes when there is none.
pub open spec fn next_file(p: PublicationProgress, i: usize, n: usize) -> (PublicationProgress, PublicationAction) {
    if i < n {
        (
            PublicationProgress { stage: PublicationStage::OpenParent, file: i, committed: p.committed },
            PublicationAction::OpenParent(i),
        )
    } else {
        (
            PublicationProgress { stage: PublicationStage::Done, file: p.file, committed: p.committed },
            PublicationAction::Finish,
        )
    }
}

/// Where a successful action leads: the checks before the files run in
/// order, then each file is opened, staged, written, checked, committed and
/// checked again, in the order given, and the publication finishes after
/// the last file. A commit counts its file as committed.
pub open spec fn proceed(p: PublicationProgress, n: usize) -> (PublicationProgress, PublicationAction) {
    let i = p.file;
    match p.stage {
        PublicationStage::Policy => advance(p, PublicationStage::Preflight, PublicationAction::RunPreflight),
        PublicationStage::Preflight => advance(p, PublicationStage::PlanPolicy, PublicationAction::CheckPlanPolicy),
        PublicationStage::PlanPolicy => advance(
            p,
            PublicationStage::PrepareDestination,
            PublicationAction::PrepareDestination,
        ),
        PublicationStage::PrepareDestination => next_file(p, 0, n),
        PublicationStage::OpenParent => advance(p, PublicationStage::CreateStaging, PublicationAction::CreateStaging(i)),
        PublicationStage::CreateStaging => advance(p, PublicationStage::WriteStaging, PublicationAction::WriteStaging(i)),
        PublicationStage::WriteStaging => advance(p, PublicationStage::CheckCommit, PublicationAction::CheckCommit(i)),
        PublicationStage::CheckCommit => advance(p, PublicationStage::Commit, PublicationAction::Commit(i)),
        PublicationStage::Commit => (
            PublicationProgress { stage: PublicationStage::RecheckBinding, file: i, committed: (p.committed + 1) as usize },
            PublicationAction::RecheckBinding(i),
        ),
        PublicationStage::RecheckBinding => next_file(p, (i + 1) as usize, n),
        PublicationStage::Done => (p, PublicationAction::Finish),
    }
}

/// The phase of a failure at `stage`: the stage's own phase, or for a
/// failed write of the staging file the phase the write reports.
pub open spec fn failure_phase(stage: PublicationStage, event: PublicationEvent) -> FilesystemPlanPublicationPhase {
    match stage {
        PublicationStage::Policy | PublicationStage::PlanPolicy => FilesystemPlanPublicationPhase::Policy,
        PublicationStage::Preflight => FilesystemPlanPublicationPhase::Preflight,
        PublicationStage::PrepareDestination | PublicationStage::OpenParent => FilesystemPlanPublicationPhase::DirectoryCreate,
        PublicationStage::CreateStaging => FilesystemPlanPublicationPhase::StagingCreate,
        PublicationStage::WriteStaging => match event {
            PublicationEvent::StagingFailed(phase) => phase,
            _ => FilesystemPlanPublicationPhase::StagingWrite,
        },
        _ => FilesystemPlanPublicationPhase::Commit,
    }
}

/// Whether a stage concerns one file: every stage from opening its parent to
/// the check after its commit.
pub open spec fn concerns_file(stage: PublicationStage) -> bool {
    !(stage == PublicationStage::Policy || stage == PublicationStage::Preflight || stage == PublicationStage::PlanPolicy
        || stage == PublicationStage::PrepareDestination || stage == PublicationStage::Done)
}

/// Whether a failure at `stage` may leave the file's staging file behind:
/// from its write up to its commit.
pub open spec fn leaves_staging(stage: PublicationStage) -> bool {
    stage == PublicationStage::WriteStaging || stage == PublicationStage::CheckCommit || stage == PublicationStage::Commit
}

/// How certain it is that the file was committed when `stage` fails: a
/// failed commit says so itself (undetermined when it does not), a failed
/// check after the commit leaves it committed, and no earlier failure
/// commits it.
pub open spec fn failure_certainty(stage: PublicationStage, event: PublicationEvent) -> CommitCertainty {
    match stage {
        PublicationStage::Commit => match event {
            PublicationEvent::CommitFailed(c) => c,
            _ => CommitCertainty::Indeterminate,
        },
        PublicationStage::RecheckBinding => CommitCertainty::Committed,
        _ => CommitCertainty::NotCommitted,
    }
}

/// The next state and action after `event`, for a publication of `n` files:
/// a success proceeds, and anything else stops the publication with the
/// stage's failure.
pub open spec fn publication_step(p: PublicationProgress, n: usize, event: PublicationEvent) -> (
    PublicationProgress,
    PublicationAction,
) {
    if event is Succeeded {
        proceed(p, n)
    } else {
        failure(
            p,
            failure_phase(p.stage, event),
            if concerns_file(p.stage) {
                Some(p.file)
            } else {
                None
            },
            leaves_staging(p.stage),
            failure_certainty(p.stage, event),
        )
    }
}

/// The first state of a publication and its first action.
pub fn start_publication() -> (r: (PublicationProgress, PublicationAction))
    ensures
        r.0 == (PublicationProgress { stage: PublicationStage::Policy, file: 0, committed: 0 }),
        r.1 == PublicationAction::CheckPolicy,
{
    (PublicationProgress { stage: PublicationStage::Policy, file: 0, committed: 0 }, PublicationAction::CheckPolicy)
}

fn fail_at(
    p: &PublicationProgress,
    phase: FilesystemPlanPublicationPhase,
    failed_file: Option<usize>,
    staging: bool,
    certainty: CommitCertainty,
) -> (r: (PublicationProgress, PublicationAction))
    ensures
        r == failure(*p, phase, failed_file, staging, certainty),
{
    (
        PublicationProgress { stage: PublicationStage::Done, file: p.file, committed: p.committed },
        PublicationAction::Fail(
            PublicationFailure { phase, failed_file, staging, certainty, committed: p.committed },
        ),
    )
}

fn go_to_file(p: &PublicationProgress, i: usize, n: usize) -> (r: (PublicationProgress, PublicationAction))
    ensures
        r == next_file(*p, i, n),
{
    if i < n {
        (PublicationProgress { stage: PublicationStage::OpenParent, file: i, committed: p.committed }, PublicationAction::OpenParent(i))
    } else {
        (PublicationProgress { stage: PublicationStage::Done, file: p.file, committed: p.committed }, PublicationAction::Finish)
    }
}

fn proceed_from(p: &PublicationProgress, n: usize) -> (r: (PublicationProgress, PublicationAction))
    requires
        progress_valid(*p, n),
        p.stage != PublicationStage::Done,
    ensures
        r == proceed(*p, n),
{
    let i = p.file;
    let (stage, action) = match p.stage {
        PublicationStage::Policy => (PublicationStage::Preflight, PublicationAction::RunPreflight),
        PublicationStage::Preflight => (PublicationStage::PlanPolicy, PublicationAction::CheckPlanPolicy),
        PublicationStage::PlanPolicy => (PublicationStage::PrepareDestination, PublicationAction::PrepareDestination),
        PublicationStage::PrepareDestination => {
            return go_to_file(p, 0, n);
        },
        PublicationStage::OpenParent => (PublicationStage::CreateStaging, PublicationAction::CreateStaging(i)),
        PublicationStage::CreateStaging => (PublicationStage::WriteStaging, PublicationAction::WriteStaging(i)),
        PublicationStage::WriteStaging => (PublicationStage::CheckCommit, PublicationAction::CheckCommit(i)),
        PublicationStage::CheckCommit => (PublicationStage::Commit, PublicationAction::Commit(i)),
        PublicationStage::Commit => {
            return (
                PublicationProgress { stage: PublicationStage::RecheckBinding, file: i, committed: p.committed + 1 },
                PublicationAction::RecheckBinding(i),
            );
        },
        PublicationStage::RecheckBinding => {
            return go_to_file(p, i + 1, n);
        },
        PublicationStage::Done => {
            return (*p, PublicationAction::Finish);
        },
    };
    (PublicationProgress { stage, file: i, committed: p.committed }, action)
}

fn phase_of_failure(stage: PublicationStage, event: PublicationEvent) -> (r: FilesystemPlanPublicationPhase)
    ensures
        r == failure_phase(stage, event),
{
    match stage {
        PublicationStage::Policy | PublicationStage::PlanPolicy => FilesystemPlanPublicationPhase::Policy,
        PublicationStage::Preflight => FilesystemPlanPublicationPhase::Preflight,
        PublicationStage::PrepareDestination | PublicationStage::OpenParent => FilesystemPlanPublicationPhase::DirectoryCreate,
        PublicationStage::CreateStaging => FilesystemPlanPublicationPhase::StagingCreate,
        PublicationStage::WriteStaging => match event {
            PublicationEvent::StagingFailed(phase) => phase,
            _ => FilesystemPlanPublicationPhase::StagingWrite,
        },
        _ => FilesystemPlanPublicationPhase::Commit,
    }
}

fn certainty_of_failure(stage: PublicationStage, event: PublicationEvent) -> (r: CommitCertainty)
    ensures
        r == failure_certainty(stage, event),
{
    match stage {
        PublicationStage::Commit => match event {
            PublicationEvent::CommitFailed(c) => c,
            _ => CommitCertainty::Indeterminate,
        },
        PublicationStage::RecheckBinding => CommitCertainty::Committed,
        _ => CommitCertainty::NotCommitted,
    }
}

/// Decides what follows `event` in a publication of `file_count` files.
pub fn next_publication_step(state: &PublicationProgress, file_count: usize, event: PublicationEvent) -> (r: (
    PublicationProgress,
    PublicationAction,
))
    requires
        progress_valid(*state, file_count),
        state.stage != PublicationStage::Done,
    ensures
        r == publication_step(*state, file_count, event),
        progress_valid(r.0, file_count),
{
    match event {
        PublicationEvent::Succeeded => proceed_from(state, file_count),
        _ => {
            let stage = state.stage;
            let concerns = match stage {
                PublicationStage::Policy | PublicationStage::Preflight | PublicationStage::PlanPolicy
                | PublicationStage::PrepareDestination | PublicationStage::Done => false,
                _ => true,
            };
            let staging = match stage {
                PublicationStage::WriteStaging | PublicationStage::CheckCommit | PublicationStage::Commit => true,
                _ => false,
            };
            let file = if concerns {
                Some(state.file)
            } else {
                None
            };
            fail_at(state, phase_of_failure(stage, event), file, staging, certainty_of_failure(stage, event))
        },
    }
}

/// Every step keeps a publication's state valid; a publication finishes only
/// after committing every file; files are taken in the order given, one after
/// another; a failure reports exactly the files committed before it, and says
/// that its file may be committed only when it arose from that file's commit
/// or from the check after it.
pub proof fn lemma_publication_commits_in_order(p: PublicationProgress, n: usize, event: PublicationEvent)
    requires
        progress_valid(p, n),
        p.stage != PublicationStage::Done,
    ensures
        progress_valid(publication_step(p, n, event).0, n),
        publication_step(p, n, event).1 is Finish ==> publication_step(p, n, event).0.committed == n,
        publication_step(p, n, event).1 matches PublicationAction::OpenParent(j) ==> (j == 0
            && p.stage == PublicationStage::PrepareDestination) || (j == p.file + 1 && p.stage
            == PublicationStage::RecheckBinding),
        publication_step(p, n, event).1 matches PublicationAction::Fail(f) ==> f.committed == p.committed
            && f.committed <= n && (f.certainty != CommitCertainty::NotCommitted ==> f.failed_file == Some(
            p.file) && (p.stage == PublicationStage::Commit || p.stage == PublicationStage::RecheckBinding))
            && (f.failed_file matches Some(k) ==> k == p.file && k < n && f.committed <= k + 1),
{
}

} // verus!
