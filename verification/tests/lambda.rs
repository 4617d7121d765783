use aws_durable_execution_sdk::error::{DurableError, ErrorObject, TerminationReason};
use aws_durable_execution_sdk::lambda::{DurableExecutionInvocationOutput, InitialExecutionState, InvocationStatus};
use aws_durable_execution_sdk::operation::{Operation, OperationType};

/// Serializes a value to JSON as the runtime does before building the output.
fn serialized<T: serde::Serialize>(value: &T) -> Result<String, String> {
    serde_json::to_string(value).map_err(|e| e.to_string())
}

#[test]
fn test_initial_execution_state_new() {
    let state = InitialExecutionState::new();
    assert!(state.operations.is_empty());
    assert!(state.next_marker.is_none());
    assert!(!state.has_more());
}

#[test]
fn test_initial_execution_state_with_operations() {
    let ops = vec![Operation::new("op-1", OperationType::Step), Operation::new("op-2", OperationType::Wait)];
    let state = InitialExecutionState::with_operations(ops);
    assert_eq!(state.operations.len(), 2);
    assert!(!state.has_more());
}

#[test]
fn test_initial_execution_state_has_more() {
    let mut state = InitialExecutionState::new();
    assert!(!state.has_more());

    state.next_marker = Some("marker-123".to_string());
    assert!(state.has_more());
}

#[test]
fn test_invocation_output_succeeded() {
    let output = DurableExecutionInvocationOutput::succeeded(Some(r#"{"result": "ok"}"#.to_string()));
    assert!(output.is_succeeded());
    assert!(!output.is_failed());
    assert!(!output.is_pending());
    assert_eq!(output.result, Some(r#"{"result": "ok"}"#.to_string()));
    assert!(output.error.is_none());
}

#[test]
fn test_invocation_output_succeeded_no_result() {
    let output = DurableExecutionInvocationOutput::succeeded(None);
    assert!(output.is_succeeded());
    assert!(output.result.is_none());
}

#[test]
fn test_invocation_output_failed() {
    let error = ErrorObject::new("TestError", "Something went wrong");
    let output = DurableExecutionInvocationOutput::failed(error);
    assert!(!output.is_succeeded());
    assert!(output.is_failed());
    assert!(!output.is_pending());
    assert!(output.result.is_none());
    assert!(output.error.is_some());
    assert_eq!(output.error.as_ref().unwrap().error_type, "TestError");
}

#[test]
fn test_invocation_output_pending() {
    let output = DurableExecutionInvocationOutput::pending();
    assert!(!output.is_succeeded());
    assert!(!output.is_failed());
    assert!(output.is_pending());
    assert!(output.result.is_none());
    assert!(output.error.is_none());
}

#[test]
fn test_invocation_status_display() {
    assert_eq!(InvocationStatus::Succeeded.to_display_string(), "SUCCEEDED");
    assert_eq!(InvocationStatus::Failed.to_display_string(), "FAILED");
    assert_eq!(InvocationStatus::Pending.to_display_string(), "PENDING");
}

#[test]
fn test_from_result_ok() {
    let result: Result<String, ErrorObject> = Ok(r#"{"value": 42}"#.to_string());
    let output: DurableExecutionInvocationOutput = result.into();
    assert!(output.is_succeeded());
    assert_eq!(output.result, Some(r#"{"value": 42}"#.to_string()));
}

#[test]
fn test_from_result_err() {
    let result: Result<String, ErrorObject> = Err(ErrorObject::new("TestError", "Failed"));
    let output: DurableExecutionInvocationOutput = result.into();
    assert!(output.is_failed());
    assert_eq!(output.error.as_ref().unwrap().error_type, "TestError");
}

#[test]
fn test_from_option_result_ok_some() {
    let result: Result<Option<String>, ErrorObject> = Ok(Some(r#"{"value": 42}"#.to_string()));
    let output: DurableExecutionInvocationOutput = result.into();
    assert!(output.is_succeeded());
    assert_eq!(output.result, Some(r#"{"value": 42}"#.to_string()));
}

#[test]
fn test_from_option_result_ok_none() {
    let result: Result<Option<String>, ErrorObject> = Ok(None);
    let output: DurableExecutionInvocationOutput = result.into();
    assert!(output.is_succeeded());
    assert!(output.result.is_none());
}

#[test]
fn test_from_result_none() {
    let result: Option<String> = None;
    let output = DurableExecutionInvocationOutput::from_serialized(serialized(&result));
    assert!(output.is_succeeded());
    assert_eq!(output.result, Some("null".to_string()));
}

#[test]
fn test_from_error_suspend() {
    let error = DurableError::Suspend { scheduled_timestamp: None };
    let output = DurableExecutionInvocationOutput::from_error(&error);
    assert!(output.is_pending());
    assert!(output.result.is_none());
    assert!(output.error.is_none());
}

#[test]
fn test_from_error_execution() {
    let error = DurableError::Execution {
        message: "test error".to_string(),
        termination_reason: TerminationReason::ExecutionError,
    };
    let output = DurableExecutionInvocationOutput::from_error(&error);
    assert!(output.is_failed());
    assert!(output.error.is_some());
    assert_eq!(output.error.as_ref().unwrap().error_type, "ExecutionError");
}

#[test]
fn test_from_error_validation() {
    let error = DurableError::Validation { message: "invalid input".to_string() };
    let output = DurableExecutionInvocationOutput::from_error(&error);
    assert!(output.is_failed());
    assert_eq!(output.error.as_ref().unwrap().error_type, "ValidationError");
}

#[test]
fn test_would_exceed_max_size_small() {
    let small_data = "hello world";
    assert!(!DurableExecutionInvocationOutput::exceeds_max_size(&serialized(&small_data).unwrap()));
}

#[test]
fn test_max_response_size_constant() {
    assert_eq!(DurableExecutionInvocationOutput::MAX_RESPONSE_SIZE, 6 * 1024 * 1024);
}

#[test]
fn test_checkpointed_result() {
    let output = DurableExecutionInvocationOutput::checkpointed_result("op-123", 7_000_000);
    assert!(output.is_succeeded());
    assert!(output.is_checkpointed_result());
    let result = output.result.unwrap();
    assert!(result.contains("__checkpointed_result__"));
    assert!(result.contains("op-123"));
    assert!(result.contains("7000000"));
}

#[test]
fn test_is_checkpointed_result_false() {
    let output = DurableExecutionInvocationOutput::succeeded(Some(r#"{"value": 42}"#.to_string()));
    assert!(!output.is_checkpointed_result());
}

#[test]
fn test_is_checkpointed_result_none() {
    let output = DurableExecutionInvocationOutput::succeeded(None);
    assert!(!output.is_checkpointed_result());
}

#[test]
fn test_is_checkpointed_result_pending() {
    let output = DurableExecutionInvocationOutput::pending();
    assert!(!output.is_checkpointed_result());
}

// The output matches the outcome, and the size check agrees with it.

#[test]
fn oversized_result_fails_with_exact_message() {
    let big = "x".repeat(6 * 1024 * 1024 + 1);
    assert!(DurableExecutionInvocationOutput::exceeds_max_size(&big));
    let output = DurableExecutionInvocationOutput::from_serialized(Ok(big));
    assert!(output.is_failed());
    let err = output.error.unwrap();
    assert_eq!(err.error_type, "ResponseTooLarge");
    assert_eq!(
        err.error_message,
        "Response size 6291457 bytes exceeds maximum 6291456 bytes. Consider checkpointing large results."
    );
}

#[test]
fn size_limit_counts_utf8_bytes() {
    let exactly = "é".repeat(3 * 1024 * 1024);
    assert!(!DurableExecutionInvocationOutput::exceeds_max_size(&exactly));
    let over = format!("{}a", exactly);
    assert!(DurableExecutionInvocationOutput::exceeds_max_size(&over));
    assert!(DurableExecutionInvocationOutput::from_serialized(Ok(over)).is_failed());
    assert!(DurableExecutionInvocationOutput::from_serialized(Ok(exactly)).is_succeeded());
}

#[test]
fn serialization_failure_output() {
    let output = DurableExecutionInvocationOutput::from_serialized(Err("boom".to_string()));
    assert!(output.is_failed());
    let err = output.error.unwrap();
    assert_eq!(err.error_type, "SerializationError");
    assert_eq!(err.error_message, "Failed to serialize result: boom");
}

#[test]
fn output_matches_outcome_for_every_error_kind() {
    let errors = vec![
        DurableError::execution("a"),
        DurableError::invocation("b"),
        DurableError::checkpoint_retriable("c"),
        DurableError::validation("d"),
        DurableError::serdes("e"),
    ];
    for error in errors {
        let output = DurableExecutionInvocationOutput::from_error(&error);
        assert!(output.is_failed());
        assert!(output.result.is_none());
        assert!(!output.error.as_ref().unwrap().error_type.is_empty());
    }
    let output = DurableExecutionInvocationOutput::from_error(&DurableError::suspend_until(12.5f64.to_bits()));
    assert!(output.is_pending());
}

#[test]
fn checkpointed_reference_text() {
    let output = DurableExecutionInvocationOutput::checkpointed_result("op-9", 12);
    assert_eq!(output.result.unwrap(), r#"{"__checkpointed_result__":"op-9","size":12}"#);
}
