use typst_pack::publication::{CommitCertainty, FilesystemPlanPublicationPhase};
use typst_pack::publication_steps::{
    next_publication_step, start_publication, PublicationAction, PublicationEvent,
    PublicationFailure,
};

fn run(file_count: usize, events: &[PublicationEvent]) -> Vec<PublicationAction> {
    let (mut progress, mut action) = start_publication();
    let mut actions = vec![action];
    for event in events {
        let (next, next_action) = next_publication_step(&progress, file_count, *event);
        progress = next;
        action = next_action;
        actions.push(action);
    }
    actions
}

#[test]
fn publication_stages_and_commits_files_in_order() {
    let ok = PublicationEvent::Succeeded;
    let actions = run(2, &[ok; 16]);
    assert_eq!(
        actions,
        vec![
            PublicationAction::CheckPolicy,
            PublicationAction::RunPreflight,
            PublicationAction::CheckPlanPolicy,
            PublicationAction::PrepareDestination,
            PublicationAction::OpenParent(0),
            PublicationAction::CreateStaging(0),
            PublicationAction::WriteStaging(0),
            PublicationAction::CheckCommit(0),
            PublicationAction::Commit(0),
            PublicationAction::RecheckBinding(0),
            PublicationAction::OpenParent(1),
            PublicationAction::CreateStaging(1),
            PublicationAction::WriteStaging(1),
            PublicationAction::CheckCommit(1),
            PublicationAction::Commit(1),
            PublicationAction::RecheckBinding(1),
            PublicationAction::Finish,
        ]
    );
}

#[test]
fn publication_of_no_files_finishes_after_the_destination() {
    let ok = PublicationEvent::Succeeded;
    assert_eq!(run(0, &[ok; 4]).last(), Some(&PublicationAction::Finish));
}

#[test]
fn publication_failures_report_phase_file_and_progress() {
    let ok = PublicationEvent::Succeeded;
    let preflight = run(1, &[ok, PublicationEvent::Failed]);
    assert_eq!(
        preflight.last(),
        Some(&PublicationAction::Fail(PublicationFailure {
            phase: FilesystemPlanPublicationPhase::Preflight,
            failed_file: None,
            staging: false,
            certainty: CommitCertainty::NotCommitted,
            committed: 0,
        }))
    );

    let mut events = vec![ok; 12];
    events.push(PublicationEvent::StagingFailed(FilesystemPlanPublicationPhase::StagingFlush));
    assert_eq!(
        run(2, &events).last(),
        Some(&PublicationAction::Fail(PublicationFailure {
            phase: FilesystemPlanPublicationPhase::StagingFlush,
            failed_file: Some(1),
            staging: true,
            certainty: CommitCertainty::NotCommitted,
            committed: 1,
        }))
    );

    let mut events = vec![ok; 8];
    events.push(PublicationEvent::CommitFailed(CommitCertainty::Indeterminate));
    assert_eq!(
        run(2, &events).last(),
        Some(&PublicationAction::Fail(PublicationFailure {
            phase: FilesystemPlanPublicationPhase::Commit,
            failed_file: Some(0),
            staging: true,
            certainty: CommitCertainty::Indeterminate,
            committed: 0,
        }))
    );

    let mut events = vec![ok; 9];
    events.push(PublicationEvent::Failed);
    assert_eq!(
        run(2, &events).last(),
        Some(&PublicationAction::Fail(PublicationFailure {
            phase: FilesystemPlanPublicationPhase::Commit,
            failed_file: Some(0),
            staging: false,
            certainty: CommitCertainty::Committed,
            committed: 1,
        }))
    );
}
