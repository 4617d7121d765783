use aws_durable_execution_sdk::error::ErrorObject;
use aws_durable_execution_sdk::operation::{
    Operation, OperationAction, OperationStatus, OperationType, OperationUpdate, StepDetails,
};

#[test]
fn test_operation_new() {
    let op = Operation::new("op-123", OperationType::Step);
    assert_eq!(op.operation_id, "op-123");
    assert_eq!(op.operation_type, OperationType::Step);
    assert_eq!(op.status, OperationStatus::Started);
    assert!(op.result.is_none());
    assert!(op.error.is_none());
    assert!(op.parent_id.is_none());
    assert!(op.name.is_none());
}

#[test]
fn test_operation_with_parent_and_name() {
    let op = Operation::new("op-123", OperationType::Step)
        .with_parent_id("parent-456")
        .with_name("my-step");
    assert_eq!(op.parent_id, Some("parent-456".to_string()));
    assert_eq!(op.name, Some("my-step".to_string()));
}

#[test]
fn test_operation_is_completed() {
    let mut op = Operation::new("op-123", OperationType::Step);
    assert!(!op.is_completed());

    op.status = OperationStatus::Succeeded;
    assert!(op.is_completed());

    op.status = OperationStatus::Failed;
    assert!(op.is_completed());

    op.status = OperationStatus::Cancelled;
    assert!(op.is_completed());

    op.status = OperationStatus::TimedOut;
    assert!(op.is_completed());

    op.status = OperationStatus::Stopped;
    assert!(op.is_completed());
}

#[test]
fn test_operation_is_succeeded() {
    let mut op = Operation::new("op-123", OperationType::Step);
    assert!(!op.is_succeeded());

    op.status = OperationStatus::Succeeded;
    assert!(op.is_succeeded());

    op.status = OperationStatus::Failed;
    assert!(!op.is_succeeded());
}

#[test]
fn test_operation_is_failed() {
    let mut op = Operation::new("op-123", OperationType::Step);
    assert!(!op.is_failed());

    op.status = OperationStatus::Failed;
    assert!(op.is_failed());

    op.status = OperationStatus::Cancelled;
    assert!(op.is_failed());

    op.status = OperationStatus::TimedOut;
    assert!(op.is_failed());

    op.status = OperationStatus::Succeeded;
    assert!(!op.is_failed());
}

#[test]
fn test_operation_type_display() {
    assert_eq!(OperationType::Execution.to_display_string(), "Execution");
    assert_eq!(OperationType::Step.to_display_string(), "Step");
    assert_eq!(OperationType::Wait.to_display_string(), "Wait");
    assert_eq!(OperationType::Callback.to_display_string(), "Callback");
    assert_eq!(OperationType::Invoke.to_display_string(), "Invoke");
    assert_eq!(OperationType::Context.to_display_string(), "Context");
}

#[test]
fn test_operation_status_is_terminal() {
    assert!(!OperationStatus::Started.is_terminal());
    assert!(!OperationStatus::Pending.is_terminal());
    assert!(!OperationStatus::Ready.is_terminal());
    assert!(OperationStatus::Succeeded.is_terminal());
    assert!(OperationStatus::Failed.is_terminal());
    assert!(OperationStatus::Cancelled.is_terminal());
    assert!(OperationStatus::TimedOut.is_terminal());
    assert!(OperationStatus::Stopped.is_terminal());
}

#[test]
fn test_operation_status_is_success() {
    assert!(!OperationStatus::Started.is_success());
    assert!(!OperationStatus::Pending.is_success());
    assert!(!OperationStatus::Ready.is_success());
    assert!(OperationStatus::Succeeded.is_success());
    assert!(!OperationStatus::Failed.is_success());
}

#[test]
fn test_operation_status_is_failure() {
    assert!(!OperationStatus::Started.is_failure());
    assert!(!OperationStatus::Pending.is_failure());
    assert!(!OperationStatus::Ready.is_failure());
    assert!(!OperationStatus::Succeeded.is_failure());
    assert!(OperationStatus::Failed.is_failure());
    assert!(OperationStatus::Cancelled.is_failure());
    assert!(OperationStatus::TimedOut.is_failure());
    assert!(OperationStatus::Stopped.is_failure());
}

#[test]
fn test_operation_status_is_pending() {
    assert!(!OperationStatus::Started.is_pending());
    assert!(OperationStatus::Pending.is_pending());
    assert!(!OperationStatus::Ready.is_pending());
    assert!(!OperationStatus::Succeeded.is_pending());
    assert!(!OperationStatus::Failed.is_pending());
}

#[test]
fn test_operation_status_is_ready() {
    assert!(!OperationStatus::Started.is_ready());
    assert!(!OperationStatus::Pending.is_ready());
    assert!(OperationStatus::Ready.is_ready());
    assert!(!OperationStatus::Succeeded.is_ready());
    assert!(!OperationStatus::Failed.is_ready());
}

#[test]
fn test_operation_status_is_resumable() {
    assert!(OperationStatus::Started.is_resumable());
    assert!(OperationStatus::Pending.is_resumable());
    assert!(OperationStatus::Ready.is_resumable());
    assert!(!OperationStatus::Succeeded.is_resumable());
    assert!(!OperationStatus::Failed.is_resumable());
    assert!(!OperationStatus::Cancelled.is_resumable());
    assert!(!OperationStatus::TimedOut.is_resumable());
    assert!(!OperationStatus::Stopped.is_resumable());
}

#[test]
fn test_operation_update_start() {
    let update = OperationUpdate::start("op-123", OperationType::Step);
    assert_eq!(update.operation_id, "op-123");
    assert_eq!(update.action, OperationAction::Start);
    assert_eq!(update.operation_type, OperationType::Step);
    assert!(update.result.is_none());
    assert!(update.error.is_none());
}

#[test]
fn test_operation_update_succeed() {
    let update = OperationUpdate::succeed(
        "op-123",
        OperationType::Step,
        Some(r#"{"value": 42}"#.to_string()),
    );
    assert_eq!(update.operation_id, "op-123");
    assert_eq!(update.action, OperationAction::Succeed);
    assert_eq!(update.result, Some(r#"{"value": 42}"#.to_string()));
    assert!(update.error.is_none());
}

#[test]
fn test_operation_update_fail() {
    let error = ErrorObject::new("TestError", "Something went wrong");
    let update = OperationUpdate::fail("op-123", OperationType::Step, error);
    assert_eq!(update.operation_id, "op-123");
    assert_eq!(update.action, OperationAction::Fail);
    assert!(update.result.is_none());
    assert!(update.error.is_some());
    assert_eq!(update.error.as_ref().unwrap().error_type, "TestError");
}

#[test]
fn test_operation_update_with_parent_and_name() {
    let update = OperationUpdate::start("op-123", OperationType::Step)
        .with_parent_id("parent-456")
        .with_name("my-step");
    assert_eq!(update.parent_id, Some("parent-456".to_string()));
    assert_eq!(update.name, Some("my-step".to_string()));
}

#[test]
fn test_operation_status_display() {
    assert_eq!(OperationStatus::Started.to_display_string(), "Started");
    assert_eq!(OperationStatus::Pending.to_display_string(), "Pending");
    assert_eq!(OperationStatus::Ready.to_display_string(), "Ready");
    assert_eq!(OperationStatus::Succeeded.to_display_string(), "Succeeded");
    assert_eq!(OperationStatus::Failed.to_display_string(), "Failed");
    assert_eq!(OperationStatus::Cancelled.to_display_string(), "Cancelled");
    assert_eq!(OperationStatus::TimedOut.to_display_string(), "TimedOut");
    assert_eq!(OperationStatus::Stopped.to_display_string(), "Stopped");
}

#[test]
fn test_operation_with_sub_type() {
    let op = Operation::new("op-123", OperationType::Context).with_sub_type("map");
    assert_eq!(op.sub_type, Some("map".to_string()));
}

#[test]
fn test_operation_update_with_sub_type() {
    let update = OperationUpdate::start("op-123", OperationType::Context).with_sub_type("parallel");
    assert_eq!(update.sub_type, Some("parallel".to_string()));
}

#[test]
fn test_operation_action_retry_display() {
    assert_eq!(OperationAction::Retry.to_display_string(), "Retry");
}

#[test]
fn test_operation_update_retry_with_payload() {
    let update = OperationUpdate::retry(
        "op-123",
        OperationType::Step,
        Some(r#"{"state": "waiting"}"#.to_string()),
        Some(5),
    );
    assert_eq!(update.operation_id, "op-123");
    assert_eq!(update.action, OperationAction::Retry);
    assert_eq!(update.operation_type, OperationType::Step);
    assert_eq!(update.result, Some(r#"{"state": "waiting"}"#.to_string()));
    assert!(update.error.is_none());
    assert!(update.step_options.is_some());
    assert_eq!(update.step_options.as_ref().unwrap().next_attempt_delay_seconds, Some(5));
}

#[test]
fn test_operation_update_retry_with_error() {
    let error = ErrorObject::new("RetryableError", "Temporary failure");
    let update = OperationUpdate::retry_with_error("op-123", OperationType::Step, error, Some(10));
    assert_eq!(update.operation_id, "op-123");
    assert_eq!(update.action, OperationAction::Retry);
    assert!(update.result.is_none());
    assert!(update.error.is_some());
    assert_eq!(update.error.as_ref().unwrap().error_type, "RetryableError");
    assert_eq!(update.step_options.as_ref().unwrap().next_attempt_delay_seconds, Some(10));
}

#[test]
fn test_operation_get_retry_payload() {
    let mut op = Operation::new("op-123", OperationType::Step);
    op.step_details = Some(StepDetails {
        result: None,
        attempt: Some(1),
        next_attempt_timestamp: None,
        error: None,
        payload: Some(r#"{"counter": 3}"#.to_string()),
    });

    assert_eq!(op.get_retry_payload(), Some(r#"{"counter": 3}"#));
}

#[test]
fn test_operation_get_attempt() {
    let mut op = Operation::new("op-123", OperationType::Step);
    op.step_details = Some(StepDetails {
        result: None,
        attempt: Some(5),
        next_attempt_timestamp: None,
        error: None,
        payload: None,
    });

    assert_eq!(op.get_attempt(), Some(5));
}

#[test]
fn test_operation_get_attempt_no_details() {
    let op = Operation::new("op-123", OperationType::Step);
    assert_eq!(op.get_attempt(), None);
}

#[test]
fn test_operation_get_retry_payload_wrong_type() {
    let op = Operation::new("op-123", OperationType::Wait);
    assert_eq!(op.get_retry_payload(), None);
}

// Further cases of the operation model.

#[test]
fn operation_get_result_prefers_details_then_legacy_field() {
    let mut op = Operation::new("op-1", OperationType::Step);
    op.result = Some("legacy".to_string());
    op.step_details = Some(StepDetails {
        result: Some("details".to_string()),
        attempt: None,
        next_attempt_timestamp: None,
        error: None,
        payload: None,
    });
    assert_eq!(op.get_result(), Some("details"));
    op.step_details = None;
    assert_eq!(op.get_result(), Some("legacy"));
}

#[test]
fn operation_update_cancel_and_start_wait() {
    let cancel = OperationUpdate::cancel("op-9", OperationType::Wait);
    assert_eq!(cancel.action, OperationAction::Cancel);
    assert_eq!(cancel.operation_type, OperationType::Wait);
    assert!(cancel.result.is_none() && cancel.error.is_none());

    let wait = OperationUpdate::start_wait("op-10", 30);
    assert_eq!(wait.action, OperationAction::Start);
    assert_eq!(wait.operation_type, OperationType::Wait);
    assert_eq!(wait.wait_options.as_ref().unwrap().wait_seconds, 30);
}

#[test]
fn operation_action_and_type_names() {
    assert_eq!(OperationAction::Start.to_display_string(), "Start");
    assert_eq!(OperationAction::Succeed.to_display_string(), "Succeed");
    assert_eq!(OperationAction::Fail.to_display_string(), "Fail");
    assert_eq!(OperationAction::Cancel.to_display_string(), "Cancel");
}

#[test]
fn stopped_operation_is_completed_and_failed() {
    let mut op = Operation::new("op-1", OperationType::Step);
    op.status = OperationStatus::Stopped;
    assert!(op.is_completed());
    assert!(op.is_failed());
    assert!(!op.is_succeeded());
    for status in [
        OperationStatus::Started,
        OperationStatus::Pending,
        OperationStatus::Ready,
        OperationStatus::Succeeded,
        OperationStatus::Failed,
        OperationStatus::Cancelled,
        OperationStatus::TimedOut,
        OperationStatus::Stopped,
    ] {
        op.status = status;
        assert_eq!(op.is_completed(), op.is_succeeded() || op.is_failed());
    }
}
