use aws_durable_execution_sdk::error::{AwsError, DurableError, ErrorObject, TerminationReason};

#[test]
fn test_execution_error() {
    let error = DurableError::execution("test error");
    assert!(matches!(error, DurableError::Execution { .. }));
    assert!(!error.is_retriable());
    assert!(!error.is_suspend());
}

#[test]
fn test_checkpoint_retriable() {
    let error = DurableError::checkpoint_retriable("test error");
    assert!(error.is_retriable());
}

#[test]
fn test_checkpoint_non_retriable() {
    let error = DurableError::checkpoint_non_retriable("test error");
    assert!(!error.is_retriable());
}

#[test]
fn test_suspend() {
    let error = DurableError::suspend();
    assert!(error.is_suspend());
}

#[test]
fn test_suspend_until() {
    let error = DurableError::suspend_until(1234567890.0f64.to_bits());
    assert!(error.is_suspend());
    if let DurableError::Suspend { scheduled_timestamp } = error {
        assert_eq!(scheduled_timestamp.map(f64::from_bits), Some(1234567890.0));
    }
}

#[test]
fn test_error_object_from_durable_error() {
    let error = DurableError::validation("invalid input");
    let obj: ErrorObject = (&error).into();
    assert_eq!(obj.error_type, "ValidationError");
    assert_eq!(obj.error_message, "invalid input");
}

#[test]
fn test_from_serde_json_error() {
    let json_error = serde_json::from_str::<String>("invalid").unwrap_err();
    let error: DurableError = json_error.into();
    assert!(matches!(error, DurableError::SerDes { .. }));
}

#[test]
fn test_is_invalid_checkpoint_token_with_aws_error() {
    let error = DurableError::Checkpoint {
        message: "Checkpoint API returned 400: Invalid checkpoint token".to_string(),
        is_retriable: true,
        aws_error: Some(AwsError {
            code: "InvalidParameterValueException".to_string(),
            message: "Invalid checkpoint token: token has been consumed".to_string(),
            request_id: None,
        }),
    };
    assert!(error.is_invalid_checkpoint_token());
    assert!(error.is_retriable());
}

#[test]
fn test_is_invalid_checkpoint_token_without_aws_error() {
    let error = DurableError::Checkpoint {
        message: "Invalid checkpoint token: token expired".to_string(),
        is_retriable: true,
        aws_error: None,
    };
    assert!(error.is_invalid_checkpoint_token());
}

#[test]
fn test_is_not_invalid_checkpoint_token() {
    let error = DurableError::Checkpoint { message: "Network error".to_string(), is_retriable: true, aws_error: None };
    assert!(!error.is_invalid_checkpoint_token());
}

#[test]
fn test_is_invalid_checkpoint_token_wrong_error_type() {
    let error = DurableError::Validation { message: "Invalid checkpoint token".to_string() };
    assert!(!error.is_invalid_checkpoint_token());
}

#[test]
fn test_is_invalid_checkpoint_token_wrong_aws_error_code() {
    let error = DurableError::Checkpoint {
        message: "Some error".to_string(),
        is_retriable: false,
        aws_error: Some(AwsError {
            code: "ServiceException".to_string(),
            message: "Invalid checkpoint token".to_string(),
            request_id: None,
        }),
    };
    assert!(!error.is_invalid_checkpoint_token());
}

#[test]
fn test_size_limit_error() {
    let error = DurableError::size_limit("Payload too large");
    assert!(error.is_size_limit());
    assert!(!error.is_retriable());
    assert!(!error.is_throttling());
    assert!(!error.is_resource_not_found());
}

#[test]
fn test_size_limit_error_with_details() {
    let error = DurableError::size_limit_with_details("Payload too large", 7_000_000, 6_000_000);
    assert!(error.is_size_limit());
    if let DurableError::SizeLimit { actual_size, max_size, .. } = error {
        assert_eq!(actual_size, Some(7_000_000));
        assert_eq!(max_size, Some(6_000_000));
    } else {
        panic!("Expected SizeLimit error");
    }
}

#[test]
fn test_throttling_error() {
    let error = DurableError::throttling("Rate limit exceeded");
    assert!(error.is_throttling());
    assert!(!error.is_retriable());
    assert!(!error.is_size_limit());
    assert!(!error.is_resource_not_found());
    assert_eq!(error.get_retry_after_ms(), None);
}

#[test]
fn test_throttling_error_with_retry_delay() {
    let error = DurableError::throttling_with_retry_delay("Rate limit exceeded", 5000);
    assert!(error.is_throttling());
    assert_eq!(error.get_retry_after_ms(), Some(5000));
}

#[test]
fn test_resource_not_found_error() {
    let error = DurableError::resource_not_found("Execution not found");
    assert!(error.is_resource_not_found());
    assert!(!error.is_retriable());
    assert!(!error.is_size_limit());
    assert!(!error.is_throttling());
}

#[test]
fn test_resource_not_found_error_with_id() {
    let error = DurableError::resource_not_found_with_id(
        "Execution not found",
        "arn:aws:lambda:us-east-1:123456789012:function:test",
    );
    assert!(error.is_resource_not_found());
    if let DurableError::ResourceNotFound { resource_id, .. } = error {
        assert_eq!(resource_id, Some("arn:aws:lambda:us-east-1:123456789012:function:test".to_string()));
    } else {
        panic!("Expected ResourceNotFound error");
    }
}

#[test]
fn test_error_object_from_size_limit_error() {
    let error = DurableError::size_limit_with_details("Payload too large", 7_000_000, 6_000_000);
    let obj: ErrorObject = (&error).into();
    assert_eq!(obj.error_type, "SizeLimitExceededError");
    assert!(obj.error_message.contains("Payload too large"));
    assert!(obj.error_message.contains("7000000"));
    assert!(obj.error_message.contains("6000000"));
}

#[test]
fn test_error_object_from_throttling_error() {
    let error = DurableError::throttling_with_retry_delay("Rate limit exceeded", 5000);
    let obj: ErrorObject = (&error).into();
    assert_eq!(obj.error_type, "ThrottlingError");
    assert!(obj.error_message.contains("Rate limit exceeded"));
    assert!(obj.error_message.contains("5000ms"));
}

#[test]
fn test_error_object_from_resource_not_found_error() {
    let error = DurableError::resource_not_found_with_id("Execution not found", "test-arn");
    let obj: ErrorObject = (&error).into();
    assert_eq!(obj.error_type, "ResourceNotFoundError");
    assert!(obj.error_message.contains("Execution not found"));
    assert!(obj.error_message.contains("test-arn"));
}

#[test]
fn test_get_retry_after_ms_non_throttling() {
    let error = DurableError::validation("test");
    assert_eq!(error.get_retry_after_ms(), None);
}

// Exact texts of the conversions and of the displayed errors.

#[test]
fn error_object_texts_are_exact() {
    let obj = ErrorObject::from_durable_error(&DurableError::size_limit_with_details("big", 7, 6));
    assert_eq!(obj.error_message, "big (actual: 7 bytes, max: 6 bytes)");
    let obj = ErrorObject::from_durable_error(&DurableError::throttling_with_retry_delay("slow", 250));
    assert_eq!(obj.error_message, "slow (retry after: 250ms)");
    let obj = ErrorObject::from_durable_error(&DurableError::resource_not_found_with_id("gone", "x"));
    assert_eq!(obj.error_message, "gone (resource: x)");
    let obj = ErrorObject::from_durable_error(&DurableError::suspend());
    assert_eq!(obj.error_type, "SuspendExecution");
    assert_eq!(obj.error_message, "Execution suspended");
    let user = DurableError::UserCode {
        message: "m".to_string(),
        error_type: "MyError".to_string(),
        stack_trace: Some("at f".to_string()),
    };
    let obj = ErrorObject::from_durable_error(&user);
    assert_eq!(obj.error_type, "MyError");
    assert_eq!(obj.stack_trace, Some("at f".to_string()));
}

#[test]
fn error_display_texts() {
    assert_eq!(DurableError::execution("x").display_text(), "Execution error: x");
    assert_eq!(DurableError::validation("v").display_text(), "Validation error: v");
    assert_eq!(DurableError::suspend().display_text(), "Suspend execution");
    assert_eq!(DurableError::throttling("t").display_text(), "Throttling: t");
}

#[test]
fn error_object_round_trip_through_user_code() {
    let obj = ErrorObject::with_stack_trace("E", "msg", "trace");
    let err = DurableError::from_error_object(&obj);
    let back = ErrorObject::from_durable_error(&err);
    assert_eq!(back.error_type, "E");
    assert_eq!(back.error_message, "msg");
    assert_eq!(back.stack_trace, Some("trace".to_string()));
}

#[test]
fn termination_reason_default() {
    assert_eq!(TerminationReason::default(), TerminationReason::UnhandledError);
    match DurableError::execution("e") {
        DurableError::Execution { termination_reason, .. } => {
            assert_eq!(termination_reason, TerminationReason::ExecutionError)
        }
        _ => panic!("expected an execution error"),
    }
}
