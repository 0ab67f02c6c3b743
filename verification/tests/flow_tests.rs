use fprint_core::clear::{ClearAction, ClearAllFlow};
use fprint_core::enroll::{
    status_message, EnrollAction, EnrollFlow, EnrollOutcome, EnrollUpdate,
};
use fprint_core::error::AppError;
use fprint_core::guard::{DeleteAction, DeleteFlow, DeleteTarget};

#[test]
fn test_guarded_delete_release_exactly_once() {
    let mut flow = DeleteFlow::begin("alice".to_string(), DeleteTarget::AllForUser);
    assert_eq!(flow.username(), "alice");
    let a = flow.on_claim_result(Ok(()));
    assert_eq!(a, DeleteAction::Delete);
    let a = flow.on_delete_result(Ok(()));
    // exactly one release request, on the success path too
    assert_eq!(a, DeleteAction::Release);
    flow.on_release_result(Ok(()));
    assert_eq!(flow.finish(), Ok(()));
}

#[test]
fn test_guarded_delete_body_error_wins_over_release_error() {
    let mut flow = DeleteFlow::begin(
        "alice".to_string(),
        DeleteTarget::Finger("right-thumb".to_string()),
    );
    flow.on_claim_result(Ok(()));
    let a = flow.on_delete_result(Err(AppError::PrintsNotDeleted));
    // the body failed, yet the release still happens, exactly once
    assert_eq!(a, DeleteAction::Release);
    flow.on_release_result(Err(AppError::Internal));
    // the reported error is the body's, not the release's
    assert_eq!(flow.finish(), Err(AppError::PrintsNotDeleted));
}

#[test]
fn test_guarded_delete_claim_failure_short_circuits() {
    let mut flow = DeleteFlow::begin("alice".to_string(), DeleteTarget::AllForUser);
    let a = flow.on_claim_result(Err(AppError::AlreadyInUse));
    // no body, no release
    assert_eq!(a, DeleteAction::Finished);
    assert_eq!(flow.finish(), Err(AppError::AlreadyInUse));
}

#[test]
fn test_guarded_delete_release_failure_reported_after_success() {
    let mut flow = DeleteFlow::begin("alice".to_string(), DeleteTarget::AllForUser);
    flow.on_claim_result(Ok(()));
    flow.on_delete_result(Ok(()));
    flow.on_release_result(Err(AppError::Internal));
    assert_eq!(flow.finish(), Err(AppError::Internal));
}

fn drain(sink: &mut Vec<EnrollUpdate>) -> Vec<EnrollUpdate> {
    std::mem::take(sink)
}

#[test]
fn test_enrollment_progress_sequence() {
    let mut sink: Vec<EnrollUpdate> = Vec::new();
    let mut flow = EnrollFlow::begin("alice".to_string(), "right-index-finger".to_string());
    assert_eq!(flow.finger_id(), "right-index-finger");

    let a = flow.on_claim_result(Ok(()), &mut sink);
    assert_eq!(a, EnrollAction::QueryStages);
    let a = flow.on_stage_count(Ok(3), &mut sink);
    assert_eq!(a, EnrollAction::StartEnroll);
    let a = flow.on_start_result(Ok(()), &mut sink);
    assert_eq!(a, EnrollAction::Subscribe);
    let a = flow.on_subscribe_result(Ok(()), &mut sink);
    assert_eq!(a, EnrollAction::AwaitSignal);

    let a = flow.on_signal("enroll-stage-passed", false, &mut sink);
    assert_eq!(a, EnrollAction::AwaitSignal);
    let a = flow.on_signal("enroll-stage-passed", false, &mut sink);
    assert_eq!(a, EnrollAction::AwaitSignal);
    let a = flow.on_signal("enroll-completed", true, &mut sink);
    assert_eq!(a, EnrollAction::Release);
    let a = flow.on_release_result(Ok(()), &mut sink);
    assert_eq!(a, EnrollAction::Finished);

    // the stage counter advanced to 2 before the done signal
    assert_eq!(flow.stages_passed(), 2);
    assert_eq!(flow.outcome(), Some(EnrollOutcome::Completed));
    assert!(flow.is_done());

    let updates = drain(&mut sink);
    assert_eq!(updates.len(), 5);
    match &updates[0] {
        EnrollUpdate::Started(total) => assert_eq!(*total, Some(3)),
        other => panic!("expected Started, got {:?}", other),
    }
    match &updates[1] {
        EnrollUpdate::Progress { stages_passed, .. } => assert_eq!(*stages_passed, 1),
        other => panic!("expected Progress, got {:?}", other),
    }
    match &updates[2] {
        EnrollUpdate::Progress { stages_passed, .. } => assert_eq!(*stages_passed, 2),
        other => panic!("expected Progress, got {:?}", other),
    }
    match &updates[3] {
        EnrollUpdate::Progress { message, stages_passed } => {
            assert_eq!(message, "Enrollment completed.");
            assert_eq!(*stages_passed, 2);
        }
        other => panic!("expected Progress, got {:?}", other),
    }
    // the terminal event is Completed, and it is the last one
    match &updates[4] {
        EnrollUpdate::Finished(outcome) => assert_eq!(*outcome, EnrollOutcome::Completed),
        other => panic!("expected Finished, got {:?}", other),
    }
}

#[test]
fn test_enrollment_cancel_mid_stream_despite_stop_failure() {
    let mut sink: Vec<EnrollUpdate> = Vec::new();
    let mut flow = EnrollFlow::begin("alice".to_string(), "left-thumb".to_string());
    flow.on_claim_result(Ok(()), &mut sink);
    flow.on_stage_count(Err(AppError::Timeout), &mut sink);
    flow.on_start_result(Ok(()), &mut sink);
    flow.on_subscribe_result(Ok(()), &mut sink);
    flow.on_signal("enroll-retry-scan", false, &mut sink);

    let mut releases = 0;
    let a = flow.cancel();
    assert_eq!(a, EnrollAction::StopEnroll);
    // the stop call itself fails; cancellation still proceeds
    let a = flow.on_stop_result(Err(AppError::Internal));
    assert_eq!(a, EnrollAction::Release);
    releases += 1;
    let a = flow.on_release_result(Ok(()), &mut sink);
    assert_eq!(a, EnrollAction::Finished);

    assert_eq!(releases, 1);
    // the terminal outcome is Cancelled, not an error
    assert_eq!(flow.outcome(), Some(EnrollOutcome::Cancelled));
    match sink.last().unwrap() {
        EnrollUpdate::Finished(outcome) => assert_eq!(*outcome, EnrollOutcome::Cancelled),
        other => panic!("expected Finished, got {:?}", other),
    }
}

#[test]
fn test_enrollment_claim_failure_emits_error_and_never_releases() {
    let mut sink: Vec<EnrollUpdate> = Vec::new();
    let mut flow = EnrollFlow::begin("alice".to_string(), "left-thumb".to_string());
    let a = flow.on_claim_result(Err(AppError::AlreadyInUse), &mut sink);
    assert_eq!(a, EnrollAction::Finished);
    assert!(flow.is_done());
    assert_eq!(sink.len(), 2);
    match &sink[0] {
        EnrollUpdate::OperationError(e) => assert_eq!(*e, AppError::AlreadyInUse),
        other => panic!("expected OperationError, got {:?}", other),
    }
    match &sink[1] {
        EnrollUpdate::Finished(outcome) => assert_eq!(*outcome, EnrollOutcome::Faulted),
        other => panic!("expected Finished, got {:?}", other),
    }
}

#[test]
fn test_enrollment_start_failure_releases_claim() {
    let mut sink: Vec<EnrollUpdate> = Vec::new();
    let mut flow = EnrollFlow::begin("alice".to_string(), "left-thumb".to_string());
    flow.on_claim_result(Ok(()), &mut sink);
    flow.on_stage_count(Ok(0), &mut sink);
    // a zero stage count degrades to "unknown"
    match &sink[0] {
        EnrollUpdate::Started(total) => assert_eq!(*total, None),
        other => panic!("expected Started, got {:?}", other),
    }
    let a = flow.on_start_result(Err(AppError::Internal), &mut sink);
    assert_eq!(a, EnrollAction::Release);
    let a = flow.on_release_result(Ok(()), &mut sink);
    assert_eq!(a, EnrollAction::Finished);
    assert_eq!(flow.outcome(), Some(EnrollOutcome::Faulted));
}

#[test]
fn test_enrollment_parse_failure_terminates_stream() {
    let mut sink: Vec<EnrollUpdate> = Vec::new();
    let mut flow = EnrollFlow::begin("alice".to_string(), "left-thumb".to_string());
    flow.on_claim_result(Ok(()), &mut sink);
    flow.on_stage_count(Ok(5), &mut sink);
    flow.on_start_result(Ok(()), &mut sink);
    flow.on_subscribe_result(Ok(()), &mut sink);
    let a = flow.on_signal_parse_failure(&mut sink);
    assert_eq!(a, EnrollAction::Release);
    match sink.last().unwrap() {
        EnrollUpdate::OperationError(AppError::Unknown(m)) => {
            assert_eq!(m, "Failed to parse signal")
        }
        other => panic!("expected OperationError, got {:?}", other),
    }
    flow.on_release_result(Ok(()), &mut sink);
    assert_eq!(flow.outcome(), Some(EnrollOutcome::Faulted));
}

#[test]
fn test_enrollment_stream_end_releases_and_fails() {
    let mut sink: Vec<EnrollUpdate> = Vec::new();
    let mut flow = EnrollFlow::begin("alice".to_string(), "left-thumb".to_string());
    flow.on_claim_result(Ok(()), &mut sink);
    flow.on_stage_count(Ok(5), &mut sink);
    flow.on_start_result(Ok(()), &mut sink);
    flow.on_subscribe_result(Ok(()), &mut sink);
    let a = flow.on_stream_ended();
    assert_eq!(a, EnrollAction::Release);
    flow.on_release_result(Err(AppError::Internal), &mut sink);
    assert_eq!(flow.outcome(), Some(EnrollOutcome::Failed));
}

#[test]
fn test_status_message_table() {
    assert_eq!(status_message("enroll-stage-passed"), "Stage passed.");
    assert_eq!(status_message("enroll-completed"), "Enrollment completed.");
    assert_eq!(status_message("enroll-failed"), "Enrollment failed.");
    assert_eq!(status_message("enroll-cancelled"), "Enrollment cancelled.");
    // an unrecognized code passes through as its own message
    assert_eq!(status_message("enroll-odd-code"), "enroll-odd-code");
}

#[test]
fn test_clear_all_continues_past_claim_failure() {
    let usernames = vec!["A".to_string(), "B".to_string()];
    let mut flow = ClearAllFlow::begin(usernames);

    assert_eq!(flow.current_username(), "A");
    // A's claim fails: recorded, the batch moves on
    let a = flow.on_claim_result(Err(AppError::ClaimDevice));
    assert_eq!(a, ClearAction::Claim);
    assert_eq!(flow.current_username(), "B");

    // B succeeds and deletes cleanly
    let a = flow.on_claim_result(Ok(()));
    assert_eq!(a, ClearAction::ListFingers);
    let a = flow.on_list_result(Ok(vec!["right-thumb".to_string()]));
    assert_eq!(a, ClearAction::DeleteFinger);
    assert_eq!(flow.current_finger(), "right-thumb");
    let a = flow.on_delete_result(Ok(()));
    assert_eq!(a, ClearAction::Release);
    let a = flow.on_release_result(Ok(()));
    assert_eq!(a, ClearAction::Finished);

    // the last recorded failure is A's claim error
    assert_eq!(flow.finish(), Err(AppError::ClaimDevice));
}

#[test]
fn test_clear_all_success_and_empty_listing() {
    let mut flow = ClearAllFlow::begin(vec!["A".to_string()]);
    flow.on_claim_result(Ok(()));
    // no fingers: release at once
    let a = flow.on_list_result(Ok(Vec::new()));
    assert_eq!(a, ClearAction::Release);
    let a = flow.on_release_result(Ok(()));
    assert_eq!(a, ClearAction::Finished);
    assert_eq!(flow.finish(), Ok(()));
}

#[test]
fn test_clear_all_records_each_failure_and_reports_the_last() {
    let mut flow = ClearAllFlow::begin(vec!["A".to_string()]);
    flow.on_claim_result(Ok(()));
    flow.on_list_result(Ok(vec!["f1".to_string(), "f2".to_string()]));
    // each deletion failure is recorded without stopping the batch
    let a = flow.on_delete_result(Err(AppError::PrintsNotDeleted));
    assert_eq!(a, ClearAction::DeleteFinger);
    let a = flow.on_delete_result(Ok(()));
    assert_eq!(a, ClearAction::Release);
    // the release failure is recorded last and wins
    flow.on_release_result(Err(AppError::Internal));
    assert_eq!(flow.finish(), Err(AppError::Internal));
}

#[test]
fn test_clear_all_with_no_users_succeeds() {
    let flow = ClearAllFlow::begin(Vec::new());
    assert!(flow.is_done());
    assert_eq!(flow.finish(), Ok(()));
}
