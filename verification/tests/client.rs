use aws_durable_execution_sdk::client::{
    checkpoint_error, checkpoint_uri, classify_checkpoint_failure, classify_get_operations_failure,
    get_operations_error, request_error, state_uri, CheckpointResponse, LambdaClientConfig, NewExecutionState,
    RequestStep,
};
use aws_durable_execution_sdk::error::DurableError;
use aws_durable_execution_sdk::operation::{Operation, OperationType};

#[test]
fn test_lambda_client_config_default() {
    let config = LambdaClientConfig::default();
    assert_eq!(config.region, "us-east-1");
    assert!(config.endpoint_url.is_none());
}

#[test]
fn test_lambda_client_config_with_region() {
    let config = LambdaClientConfig::with_region("us-west-2");
    assert_eq!(config.region, "us-west-2");
}

#[test]
fn checkpoint_response_new_and_default() {
    let response = CheckpointResponse::new("token-123");
    assert_eq!(response.checkpoint_token, "token-123");
    assert!(response.new_execution_state.is_none());
    let empty = CheckpointResponse::default();
    assert_eq!(empty.checkpoint_token, "");
}

#[test]
fn new_execution_state_finds_first_match() {
    let mut second = Operation::new("b", OperationType::Wait);
    second.name = Some("first-b".to_string());
    let mut third = Operation::new("b", OperationType::Step);
    third.name = Some("second-b".to_string());
    let state = NewExecutionState {
        operations: vec![Operation::new("a", OperationType::Step), second, third],
        next_marker: None,
    };
    assert_eq!(state.find_operation("b").unwrap().name, Some("first-b".to_string()));
    assert_eq!(state.find_operation("a").unwrap().operation_type, OperationType::Step);
    assert!(state.find_operation("c").is_none());
    assert!(state.find_operation("").is_none());
}

#[test]
fn endpoint_and_uris() {
    let config = LambdaClientConfig::with_region("eu-west-1");
    assert_eq!(config.endpoint(), "https://lambda.eu-west-1.amazonaws.com");
    let arn = "arn:aws:lambda:eu-west-1:1:function:f:durable/x y";
    assert_eq!(
        checkpoint_uri(&config, arn),
        "https://lambda.eu-west-1.amazonaws.com/2025-12-01/durable-executions/arn%3Aaws%3Alambda%3Aeu-west-1%3A1%3Afunction%3Af%3Adurable%2Fx%20y/checkpoint"
    );
    let custom = LambdaClientConfig { region: "r".to_string(), endpoint_url: Some("http://localhost:9000".to_string()) };
    assert_eq!(state_uri(&custom, "plain-id_1.~"), "http://localhost:9000/2025-12-01/durable-executions/plain-id_1.~/state");
}

#[test]
fn checkpoint_error_size_limit() {
    match checkpoint_error(413, "too big", "arn") {
        DurableError::SizeLimit { message, actual_size, max_size } => {
            assert_eq!(message, "Checkpoint payload size exceeded: too big");
            assert!(actual_size.is_none() && max_size.is_none());
        }
        other => panic!("unexpected {:?}", other),
    }
    assert!(matches!(checkpoint_error(400, "Payload size exceeded", "arn"), DurableError::SizeLimit { .. }));
}

#[test]
fn checkpoint_error_not_found_and_throttling() {
    match checkpoint_error(404, "nothing here", "arn-1") {
        DurableError::ResourceNotFound { message, resource_id } => {
            assert_eq!(message, "Durable execution not found: nothing here");
            assert_eq!(resource_id, Some("arn-1".to_string()));
        }
        other => panic!("unexpected {:?}", other),
    }
    match checkpoint_error(400, "ThrottlingException: slow down", "arn-1") {
        DurableError::Throttling { message, retry_after_ms } => {
            assert_eq!(message, "Rate limit exceeded: ThrottlingException: slow down");
            assert!(retry_after_ms.is_none());
        }
        other => panic!("unexpected {:?}", other),
    }
    assert!(checkpoint_error(429, "", "a").is_throttling());
}

#[test]
fn checkpoint_error_invalid_token_is_retriable() {
    let error = checkpoint_error(400, "Invalid checkpoint token: consumed", "arn");
    assert!(error.is_retriable());
    assert!(error.is_invalid_checkpoint_token());
    match error {
        DurableError::Checkpoint { message, aws_error, .. } => {
            assert_eq!(message, "Checkpoint API returned 400 Bad Request: Invalid checkpoint token: consumed");
            let aws = aws_error.unwrap();
            assert_eq!(aws.code, "InvalidParameterValueException");
            assert_eq!(aws.message, "Invalid checkpoint token: consumed");
        }
        other => panic!("unexpected {:?}", other),
    }
}

#[test]
fn checkpoint_error_server_and_client_errors() {
    let server = checkpoint_error(503, "unavailable", "arn");
    assert!(server.is_retriable());
    match server {
        DurableError::Checkpoint { aws_error, .. } => assert_eq!(aws_error.unwrap().code, "503 Service Unavailable"),
        other => panic!("unexpected {:?}", other),
    }
    assert!(!checkpoint_error(400, "bad", "arn").is_retriable());
}

#[test]
fn get_operations_error_cases() {
    assert!(get_operations_error(404, "", "a").is_resource_not_found());
    assert!(get_operations_error(500, "Rate exceeded", "a").is_throttling());
    match get_operations_error(500, "boom", "a") {
        DurableError::Invocation { message, .. } => {
            assert_eq!(message, "GetDurableExecutionState API returned 500 Internal Server Error: boom")
        }
        other => panic!("unexpected {:?}", other),
    }
}

#[test]
fn classification_with_a_given_status_line() {
    match classify_checkpoint_failure(418, "418 Teapot", "short and stout", "arn") {
        DurableError::Checkpoint { message, is_retriable, aws_error } => {
            assert_eq!(message, "Checkpoint API returned 418 Teapot: short and stout");
            assert!(!is_retriable);
            let aws = aws_error.unwrap();
            assert_eq!(aws.code, "418 Teapot");
            assert_eq!(aws.message, "short and stout");
            assert!(aws.request_id.is_none());
        }
        other => panic!("unexpected {:?}", other),
    }
    match classify_get_operations_failure(502, "502 Bad Gateway", "upstream", "arn") {
        DurableError::Invocation { message, .. } => {
            assert_eq!(message, "GetDurableExecutionState API returned 502 Bad Gateway: upstream")
        }
        other => panic!("unexpected {:?}", other),
    }
    assert!(classify_checkpoint_failure(500, "x", "Request too large", "a").is_size_limit());
}

#[test]
fn request_errors_name_their_step_and_retriability() {
    match request_error(RequestStep::Credentials, "no profile", false) {
        DurableError::Checkpoint { message, is_retriable, aws_error } => {
            assert_eq!(message, "Failed to get AWS credentials: no profile");
            assert!(is_retriable);
            assert!(aws_error.is_none());
        }
        other => panic!("unexpected {:?}", other),
    }
    match request_error(RequestStep::Signing, "bad key", true) {
        DurableError::Checkpoint { message, is_retriable, .. } => {
            assert_eq!(message, "Failed to sign request: bad key");
            assert!(!is_retriable);
        }
        other => panic!("unexpected {:?}", other),
    }
    match request_error(RequestStep::Send, "timed out", true) {
        DurableError::Checkpoint { message, is_retriable, .. } => {
            assert_eq!(message, "HTTP request failed: timed out");
            assert!(is_retriable);
        }
        other => panic!("unexpected {:?}", other),
    }
    assert!(matches!(
        request_error(RequestStep::Send, "refused", false),
        DurableError::Checkpoint { is_retriable: false, .. }
    ));
}
