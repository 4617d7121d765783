use aws_durable_execution_sdk::concurrency::{BatchItemStatus, CompletionReason};
use aws_durable_execution_sdk::context::OperationIdentifier;
use aws_durable_execution_sdk::duration::Duration;
use aws_durable_execution_sdk::error::DurableError;
use aws_durable_execution_sdk::handlers::promise::{
    all_outcome, all_settled_outcome, any_outcome, combinator_replay, combinator_start_update, race_outcome,
};
use aws_durable_execution_sdk::handlers::wait_for_condition::{
    condition_outcome, condition_precheck, condition_replay, condition_resume, ConditionResume,
};
use aws_durable_execution_sdk::operation::{Operation, OperationAction, OperationStatus, OperationType, StepDetails};
use aws_durable_execution_sdk::state::CheckpointedResult;

fn op_id() -> OperationIdentifier {
    OperationIdentifier::new("op-1", Some("parent".to_string()), Some("combo".to_string()))
}

#[test]
fn all_returns_every_result_in_order() {
    let results: Vec<Result<i32, DurableError>> = vec![Ok(1), Ok(2), Ok(3)];
    assert_eq!(all_outcome(results).ok().unwrap(), vec![1, 2, 3]);
}

#[test]
fn all_fails_on_the_first_failure() {
    let results: Vec<Result<i32, DurableError>> =
        vec![Ok(1), Err(DurableError::validation("x")), Err(DurableError::execution("y"))];
    let (obj, err) = all_outcome(results).err().unwrap();
    assert_eq!(obj.error_type, "ValidationError");
    assert_eq!(obj.error_message, "x");
    match err {
        DurableError::UserCode { message, error_type, stack_trace } => {
            assert_eq!(message, "Promise at index 1 failed: Validation error: x");
            assert_eq!(error_type, "AllCombinatorError");
            assert!(stack_trace.is_none());
        }
        other => panic!("unexpected {:?}", other),
    }
}

#[test]
fn all_settled_keeps_every_outcome() {
    let results: Vec<Result<i32, DurableError>> = vec![Err(DurableError::execution("bad")), Ok(5)];
    let batch = all_settled_outcome(results);
    assert_eq!(batch.completion_reason, CompletionReason::AllCompleted);
    assert_eq!(batch.items.len(), 2);
    assert_eq!(batch.items[0].status, BatchItemStatus::Failed);
    assert_eq!(batch.items[0].error.as_ref().unwrap().error_message, "bad");
    assert_eq!(batch.items[1].status, BatchItemStatus::Succeeded);
    assert_eq!(batch.items[1].result, Some(5));
}

#[test]
fn race_takes_the_first_settled() {
    assert_eq!(race_outcome(2, Some(Ok::<i32, DurableError>(9))).ok(), Some(9));
    let (obj, err) = race_outcome::<i32>(2, Some(Err(DurableError::validation("v")))).err().unwrap();
    assert_eq!(obj.error_type, "ValidationError");
    assert!(matches!(err, DurableError::Validation { .. }));
    let (obj, _) = race_outcome::<i32>(0, None).err().unwrap();
    assert_eq!(obj.error_message, "race requires at least one future");
    let (obj, _) = race_outcome::<i32>(3, None).err().unwrap();
    assert_eq!(obj.error_type, "InternalError");
}

#[test]
fn any_succeeds_iff_one_succeeds() {
    let settled: Vec<(usize, Result<i32, DurableError>)> =
        vec![(2, Err(DurableError::execution("a"))), (0, Ok(4)), (1, Ok(5))];
    assert_eq!(any_outcome(3, settled).ok(), Some(4));
    let settled: Vec<(usize, Result<i32, DurableError>)> =
        vec![(1, Err(DurableError::execution("a"))), (0, Err(DurableError::validation("b")))];
    let (obj, err) = any_outcome(2, settled).err().unwrap();
    assert_eq!(obj.error_type, "AnyCombinatorError");
    assert_eq!(obj.error_message, "All 2 futures failed: Future 1: Execution error: a; Future 0: Validation error: b");
    assert!(matches!(err, DurableError::UserCode { .. }));
    let (obj, _) = any_outcome::<i32>(0, vec![]).err().unwrap();
    assert_eq!(obj.error_message, "any requires at least one future");
}

#[test]
fn combinator_start_is_marked() {
    let update = combinator_start_update(&op_id());
    assert_eq!(update.sub_type, Some("PromiseCombinator".to_string()));
    assert_eq!(update.operation_type, OperationType::Step);
    assert_eq!(update.name, Some("combo".to_string()));
}

#[test]
fn combinator_replay_of_a_stored_result() {
    let mut op = Operation::new("op-1", OperationType::Step);
    op.status = OperationStatus::Succeeded;
    op.result = Some("[1,2]".to_string());
    assert_eq!(combinator_replay(&CheckpointedResult::new(Some(op)), &op_id()).unwrap(), Some("[1,2]".to_string()));
    assert_eq!(combinator_replay(&CheckpointedResult::empty(), &op_id()).unwrap(), None);
}

#[test]
fn condition_resumes_from_payload_or_attempt() {
    assert_eq!(condition_resume(&CheckpointedResult::empty()), ConditionResume::Initial(1));
    let mut op = Operation::new("op-1", OperationType::Step);
    op.step_details = Some(StepDetails {
        result: None,
        attempt: Some(3),
        next_attempt_timestamp: None,
        error: None,
        payload: None,
    });
    assert_eq!(condition_resume(&CheckpointedResult::new(Some(op.clone()))), ConditionResume::Initial(3));
    op.step_details.as_mut().unwrap().payload = Some("{\"user_state\":1,\"attempt\":4}".to_string());
    assert_eq!(
        condition_resume(&CheckpointedResult::new(Some(op))),
        ConditionResume::Payload("{\"user_state\":1,\"attempt\":4}".to_string())
    );
}

#[test]
fn condition_precheck_caps_attempts() {
    assert_eq!(condition_precheck(&CheckpointedResult::empty(), &op_id(), 1, Some(3)).ok(), Some(true));
    assert_eq!(condition_precheck(&CheckpointedResult::empty(), &op_id(), 2, Some(3)).ok(), Some(false));
    let (update, err) = condition_precheck(&CheckpointedResult::empty(), &op_id(), 4, Some(3)).err().unwrap();
    assert_eq!(update.action, OperationAction::Fail);
    assert_eq!(update.sub_type, Some("wait_for_condition".to_string()));
    assert_eq!(update.error.unwrap().error_type, "MaxAttemptsExceeded");
    match err {
        DurableError::Execution { message, .. } => {
            assert_eq!(message, "Max attempts (3) exceeded for wait_for_condition")
        }
        other => panic!("unexpected {:?}", other),
    }
    assert_eq!(condition_precheck(&CheckpointedResult::empty(), &op_id(), 1000, None).ok(), Some(false));
}

#[test]
fn condition_outcomes() {
    let (update, result) =
        condition_outcome(&op_id(), 1, Some(3), Duration::from_seconds(5), "7", Ok("\"done\"".to_string()));
    assert_eq!(update.action, OperationAction::Succeed);
    assert_eq!(update.result, Some("\"done\"".to_string()));
    assert!(result.is_ok());

    let (update, result) =
        condition_outcome(&op_id(), 2, Some(3), Duration::from_seconds(5), "{\"n\":1}", Err("not yet".to_string()));
    assert_eq!(update.action, OperationAction::Retry);
    assert_eq!(update.result, Some("{\"user_state\":{\"n\":1},\"attempt\":3}".to_string()));
    assert_eq!(update.step_options.unwrap().next_attempt_delay_seconds, Some(5));
    assert!(matches!(result, Err(DurableError::Suspend { scheduled_timestamp: None })));

    let (update, result) =
        condition_outcome(&op_id(), 3, Some(3), Duration::from_seconds(5), "{}", Err("still no".to_string()));
    assert_eq!(update.action, OperationAction::Fail);
    assert_eq!(
        update.error.unwrap().error_message,
        "Max attempts (3) exceeded for wait_for_condition. Last error: still no"
    );
    assert!(matches!(result, Err(DurableError::Execution { .. })));
}

#[test]
fn condition_replay_cases() {
    let mut op = Operation::new("op-1", OperationType::Step);
    op.status = OperationStatus::Pending;
    assert_eq!(condition_replay(&CheckpointedResult::new(Some(op.clone())), &op_id()).unwrap(), None);
    op.status = OperationStatus::Failed;
    match condition_replay(&CheckpointedResult::new(Some(op)), &op_id()) {
        Err(DurableError::Execution { message, .. }) => {
            assert_eq!(message, "wait_for_condition failed with unknown error")
        }
        other => panic!("unexpected {:?}", other),
    }
    let wrong = Operation::new("op-1", OperationType::Wait);
    assert!(matches!(
        condition_replay(&CheckpointedResult::new(Some(wrong)), &op_id()),
        Err(DurableError::NonDeterministic { .. })
    ));
}
