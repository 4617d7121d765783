use aws_durable_execution_sdk::config::{CallbackConfig, FixedDelay, InvokeConfig, ItemBatcher, RetryStrategy};
use aws_durable_execution_sdk::context::OperationIdentifier;
use aws_durable_execution_sdk::duration::Duration;
use aws_durable_execution_sdk::error::{DurableError, ErrorObject};
use aws_durable_execution_sdk::handlers::callback::{create_callback_start_update, Callback};
use aws_durable_execution_sdk::handlers::child;
use aws_durable_execution_sdk::handlers::invoke::{
    create_invoke_fail_update, create_invoke_start_update, create_invoke_succeed_update,
};
use aws_durable_execution_sdk::handlers::map::{batch_items, map_item_name, map_plan, should_checkpoint_result};
use aws_durable_execution_sdk::handlers::parallel;
use aws_durable_execution_sdk::handlers::replay::{
    check_replay_status, check_replay_stored, counts_as_replay, ReplayResult,
};
use aws_durable_execution_sdk::handlers::step::{self, step_attempt, step_completion, StepContext};
use aws_durable_execution_sdk::handlers::wait::{self, wait_decision, WaitAction};
use aws_durable_execution_sdk::operation::{Operation, OperationAction, OperationStatus, OperationType, StepDetails};
use aws_durable_execution_sdk::state::CheckpointedResult;

fn create_succeeded_operation(op_type: OperationType, result: &str) -> CheckpointedResult {
    let mut op = Operation::new("test-op", op_type);
    op.status = OperationStatus::Succeeded;
    op.result = Some(result.to_string());
    CheckpointedResult::new(Some(op))
}

fn create_failed_operation(op_type: OperationType, error_msg: &str) -> CheckpointedResult {
    let mut op = Operation::new("test-op", op_type);
    op.status = OperationStatus::Failed;
    op.error = Some(ErrorObject::new("TestError", error_msg));
    CheckpointedResult::new(Some(op))
}

fn create_started_operation(op_type: OperationType) -> CheckpointedResult {
    let op = Operation::new("test-op", op_type);
    CheckpointedResult::new(Some(op))
}

fn create_cancelled_operation(op_type: OperationType) -> CheckpointedResult {
    let mut op = Operation::new("test-op", op_type);
    op.status = OperationStatus::Cancelled;
    CheckpointedResult::new(Some(op))
}

/// Replay followed by JSON decoding of a stored result, as a replaying handler does.
fn check_replay_i32(checkpoint: &CheckpointedResult, expected: OperationType) -> Result<ReplayResult<i32>, DurableError> {
    match check_replay_stored(checkpoint, expected, "test-op")? {
        ReplayResult::Replayed(text) => serde_json::from_str::<i32>(&text)
            .map(ReplayResult::Replayed)
            .map_err(|e| DurableError::serdes(&format!("Failed to deserialize checkpointed result: {}", e))),
        ReplayResult::NotFound => Ok(ReplayResult::NotFound),
        ReplayResult::InProgress => Ok(ReplayResult::InProgress),
    }
}

// ---------------------------------------------------------------- child

#[test]
fn child_test_create_succeed_update() {
    let op_id = OperationIdentifier::new("op-123", Some("parent-456".to_string()), Some("my-child".to_string()));
    let update = child::create_succeed_update(&op_id, Some("result".to_string()));

    assert_eq!(update.operation_id, "op-123");
    assert_eq!(update.operation_type, OperationType::Context);
    assert_eq!(update.result, Some("result".to_string()));
    assert_eq!(update.parent_id, Some("parent-456".to_string()));
    assert_eq!(update.name, Some("my-child".to_string()));
}

#[test]
fn child_test_create_fail_update() {
    let op_id = OperationIdentifier::new("op-123", None, None);
    let error = ErrorObject::new("ChildError", "test message");
    let update = child::create_fail_update(&op_id, error);

    assert_eq!(update.operation_id, "op-123");
    assert_eq!(update.operation_type, OperationType::Context);
    assert!(update.error.is_some());
    assert_eq!(update.error.unwrap().error_type, "ChildError");
}

#[test]
fn child_suspension_is_not_checkpointed() {
    let op_id = OperationIdentifier::new("op-1", None, None);
    assert!(child::child_failure_update(&op_id, &DurableError::suspend()).is_none());
    let update = child::child_failure_update(&op_id, &DurableError::validation("bad")).unwrap();
    assert_eq!(update.action, OperationAction::Fail);
    assert_eq!(update.error.unwrap().error_message, "bad");
}

#[test]
fn child_replay_reports_terminal_status() {
    let mut op = Operation::new("op-1", OperationType::Context);
    op.status = OperationStatus::TimedOut;
    let op_id = OperationIdentifier::new("op-1", None, None);
    match child::child_replay(&CheckpointedResult::new(Some(op)), &op_id) {
        Err(DurableError::Execution { message, .. }) => assert_eq!(message, "Child context was TimedOut"),
        other => panic!("unexpected {:?}", other),
    }
}

// ---------------------------------------------------------------- invoke

#[test]
fn test_create_invoke_start_update() {
    let op_id = OperationIdentifier::new("op-123", Some("parent-456".to_string()), Some("my-invoke".to_string()));
    let mut config: InvokeConfig<String, String> = InvokeConfig::default();
    config.timeout = Duration::from_minutes(5);
    config.tenant_id = Some("tenant-123".to_string());
    let update = create_invoke_start_update(&op_id, "target-function", r#"{"key":"value"}"#, &config);

    assert_eq!(update.operation_id, "op-123");
    assert_eq!(update.operation_type, OperationType::Invoke);
    assert!(update.result.is_some());
    assert_eq!(update.parent_id, Some("parent-456".to_string()));
    assert_eq!(update.name, Some("my-invoke".to_string()));

    assert!(update.chained_invoke_options.is_some());
    let invoke_options = update.chained_invoke_options.unwrap();
    assert_eq!(invoke_options.function_name, "target-function");
    assert_eq!(invoke_options.tenant_id, Some("tenant-123".to_string()));
}

#[test]
fn test_create_invoke_start_update_without_tenant_id() {
    let op_id = OperationIdentifier::new("op-123", None, None);
    let config: InvokeConfig<String, String> = InvokeConfig::default();
    let update = create_invoke_start_update(&op_id, "target-function", r#"{"key":"value"}"#, &config);

    assert!(update.chained_invoke_options.is_some());
    let invoke_options = update.chained_invoke_options.unwrap();
    assert_eq!(invoke_options.function_name, "target-function");
    assert!(invoke_options.tenant_id.is_none());
}

#[test]
fn test_create_invoke_succeed_update() {
    let op_id = OperationIdentifier::new("op-123", None, None);
    let update = create_invoke_succeed_update(&op_id, Some("result".to_string()));

    assert_eq!(update.operation_id, "op-123");
    assert_eq!(update.operation_type, OperationType::Invoke);
    assert_eq!(update.result, Some("result".to_string()));
}

#[test]
fn test_create_invoke_fail_update() {
    let op_id = OperationIdentifier::new("op-123", None, None);
    let error = ErrorObject::new("InvokeError", "test message");
    let update = create_invoke_fail_update(&op_id, error);

    assert_eq!(update.operation_id, "op-123");
    assert_eq!(update.operation_type, OperationType::Invoke);
    assert!(update.error.is_some());
    assert_eq!(update.error.unwrap().error_type, "InvokeError");
}

// ---------------------------------------------------------------- map

#[test]
fn test_batch_items_no_batching() {
    let items = vec![1, 2, 3, 4, 5];
    let batcher = ItemBatcher { max_items_per_batch: 10, max_bytes_per_batch: 1024 };

    let batches = batch_items(&items, &batcher);
    assert_eq!(batches.len(), 1);
    assert_eq!(batches[0].0, 0);
    assert_eq!(batches[0].1, vec![1, 2, 3, 4, 5]);
}

#[test]
fn test_batch_items_with_batching() {
    let items = vec![1, 2, 3, 4, 5];
    let batcher = ItemBatcher { max_items_per_batch: 2, max_bytes_per_batch: 1024 };

    let batches = batch_items(&items, &batcher);
    assert_eq!(batches.len(), 3);
    assert_eq!(batches[0].1, vec![1, 2]);
    assert_eq!(batches[1].1, vec![3, 4]);
    assert_eq!(batches[2].1, vec![5]);
}

#[test]
fn test_batch_items_empty() {
    let items: Vec<i32> = vec![];
    let batcher = ItemBatcher::default();

    let batches = batch_items(&items, &batcher);
    assert!(batches.is_empty());
}

#[test]
fn map_test_create_succeed_update() {
    let op_id = OperationIdentifier::new("op-123", Some("parent-456".to_string()), Some("my-map".to_string()));
    let update = aws_durable_execution_sdk::handlers::map::create_succeed_update(&op_id, Some("result".to_string()));

    assert_eq!(update.operation_id, "op-123");
    assert_eq!(update.operation_type, OperationType::Context);
    assert_eq!(update.result, Some("result".to_string()));
    assert_eq!(update.parent_id, Some("parent-456".to_string()));
    assert_eq!(update.name, Some("my-map".to_string()));
}

#[test]
fn map_batches_keep_items_in_order() {
    let items: Vec<u32> = (0..7).collect();
    let batcher = ItemBatcher::new(3, 1024);
    let batches = batch_items(&items, &batcher);
    let starts: Vec<usize> = batches.iter().map(|b| b.0).collect();
    assert_eq!(starts, vec![0, 3, 6]);
    let flat: Vec<u32> = batches.into_iter().flat_map(|b| b.1).collect();
    assert_eq!(flat, items);
}

#[test]
fn map_zero_item_limit_opens_an_empty_first_batch() {
    let items = vec![7, 8];
    let batches = batch_items(&items, &ItemBatcher::new(0, 10));
    assert_eq!(batches, vec![(0, vec![]), (0, vec![7]), (1, vec![8])]);
}

#[test]
fn map_item_names_and_checkpointing() {
    assert_eq!(map_item_name(12), "map-item-12");
    assert!(should_checkpoint_result(aws_durable_execution_sdk::concurrency::CompletionReason::AllCompleted));
    assert!(!should_checkpoint_result(aws_durable_execution_sdk::concurrency::CompletionReason::Suspended));
}

// ---------------------------------------------------------------- parallel

#[test]
fn parallel_test_create_succeed_update() {
    let op_id = OperationIdentifier::new("op-123", Some("parent-456".to_string()), Some("my-parallel".to_string()));
    let update = parallel::create_succeed_update(&op_id, Some("result".to_string()));

    assert_eq!(update.operation_id, "op-123");
    assert_eq!(update.operation_type, OperationType::Context);
    assert_eq!(update.result, Some("result".to_string()));
    assert_eq!(update.parent_id, Some("parent-456".to_string()));
    assert_eq!(update.name, Some("my-parallel".to_string()));
}

#[test]
fn parallel_branch_names() {
    assert_eq!(parallel::branch_name(0), "parallel-branch-0");
    assert_eq!(parallel::branch_name(31), "parallel-branch-31");
}

// ---------------------------------------------------------------- wait

#[test]
fn wait_test_create_start_update() {
    let op_id = OperationIdentifier::new("op-123", Some("parent-456".to_string()), Some("my-wait".to_string()));
    let update = wait::create_start_update(&op_id, 60);

    assert_eq!(update.operation_id, "op-123");
    assert_eq!(update.operation_type, OperationType::Wait);
    assert!(update.wait_options.is_some());
    assert_eq!(update.wait_options.unwrap().wait_seconds, 60);
    assert_eq!(update.parent_id, Some("parent-456".to_string()));
    assert_eq!(update.name, Some("my-wait".to_string()));
}

#[test]
fn wait_rejects_zero_duration() {
    let op_id = OperationIdentifier::new("w", None, None);
    match wait_decision(Duration::from_seconds(0), &CheckpointedResult::empty(), &op_id) {
        Err(DurableError::Validation { message }) => {
            assert_eq!(message, "Wait duration must be at least 1 second(s), got 0 seconds")
        }
        other => panic!("unexpected {:?}", other),
    }
}

#[test]
fn wait_new_wait_starts_then_suspends() {
    let op_id = OperationIdentifier::new("w", None, None);
    match wait_decision(Duration::from_seconds(30), &CheckpointedResult::empty(), &op_id) {
        Ok(WaitAction::StartThenSuspend(update)) => {
            assert_eq!(update.wait_options.unwrap().wait_seconds, 30);
            assert_eq!(update.action, OperationAction::Start);
        }
        other => panic!("unexpected {:?}", other),
    }
}

#[test]
fn wait_replay_outcomes() {
    let op_id = OperationIdentifier::new("test-op", None, None);
    let done = create_succeeded_operation(OperationType::Wait, "null");
    assert!(matches!(wait_decision(Duration::from_seconds(5), &done, &op_id), Ok(WaitAction::Completed)));
    let running = create_started_operation(OperationType::Wait);
    assert!(matches!(wait_decision(Duration::from_seconds(5), &running, &op_id), Ok(WaitAction::Suspend)));
    let wrong = create_started_operation(OperationType::Step);
    assert!(matches!(
        wait_decision(Duration::from_seconds(5), &wrong, &op_id),
        Err(DurableError::NonDeterministic { .. })
    ));
}

// ---------------------------------------------------------------- step

#[test]
fn test_step_context_new() {
    let ctx = StepContext::new("op-123", "arn:test");
    assert_eq!(ctx.operation_id, "op-123");
    assert_eq!(ctx.durable_execution_arn, "arn:test");
    assert!(ctx.parent_id.is_none());
    assert!(ctx.name.is_none());
    assert_eq!(ctx.attempt, 0);
}

#[test]
fn test_step_context_with_parent_id() {
    let ctx = StepContext::new("op-123", "arn:test").with_parent_id("parent-456");
    assert_eq!(ctx.parent_id, Some("parent-456".to_string()));
}

#[test]
fn test_step_context_with_name() {
    let ctx = StepContext::new("op-123", "arn:test").with_name("my-step");
    assert_eq!(ctx.name, Some("my-step".to_string()));
}

#[test]
fn test_step_context_with_attempt() {
    let ctx = StepContext::new("op-123", "arn:test").with_attempt(3);
    assert_eq!(ctx.attempt, 3);
}

#[test]
fn test_step_context_serdes_context() {
    let ctx = StepContext::new("op-123", "arn:test");
    let serdes_ctx = ctx.serdes_context();
    assert_eq!(serdes_ctx.operation_id, "op-123");
    assert_eq!(serdes_ctx.durable_execution_arn, "arn:test");
}

#[test]
fn step_test_create_start_update() {
    let op_id = OperationIdentifier::new("op-123", Some("parent-456".to_string()), Some("my-step".to_string()));
    let update = step::create_start_update(&op_id);

    assert_eq!(update.operation_id, "op-123");
    assert_eq!(update.operation_type, OperationType::Step);
    assert_eq!(update.parent_id, Some("parent-456".to_string()));
    assert_eq!(update.name, Some("my-step".to_string()));
}

#[test]
fn step_test_create_succeed_update() {
    let op_id = OperationIdentifier::new("op-123", None, None);
    let update = step::create_succeed_update(&op_id, Some("result".to_string()));

    assert_eq!(update.operation_id, "op-123");
    assert_eq!(update.result, Some("result".to_string()));
}

#[test]
fn step_test_create_fail_update() {
    let op_id = OperationIdentifier::new("op-123", None, None);
    let error = ErrorObject::new("TestError", "test message");
    let update = step::create_fail_update(&op_id, error);

    assert_eq!(update.operation_id, "op-123");
    assert!(update.error.is_some());
    assert_eq!(update.error.unwrap().error_type, "TestError");
}

#[test]
fn step_completion_of_failed_work() {
    let op_id = OperationIdentifier::new("s", None, None);
    let (update, outcome) = step_completion(&op_id, Err("boom".to_string()), None);
    assert_eq!(update.action, OperationAction::Fail);
    let obj = update.error.unwrap();
    assert_eq!(obj.error_type, "UserCodeError");
    assert_eq!(obj.error_message, "boom");
    match outcome {
        Err(DurableError::UserCode { message, error_type, .. }) => {
            assert_eq!(message, "boom");
            assert_eq!(error_type, "UserCodeError");
        }
        other => panic!("unexpected {:?}", other),
    }
    let (update, outcome) = step_completion(&op_id, Ok("7".to_string()), None);
    assert_eq!(update.action, OperationAction::Succeed);
    assert_eq!(update.result, Some("7".to_string()));
    assert!(outcome.is_ok());
}

#[test]
fn a_failed_step_with_a_retry_delay_is_retried() {
    let op_id = OperationIdentifier::new("s", Some("p".to_string()), Some("fetch".to_string()));
    let strategy = FixedDelay::new(3, Duration::from_seconds(1));
    let delay = strategy.next_delay(0, "boom");
    assert_eq!(delay.map(|d| d.to_seconds()), Some(1));
    let (update, outcome) = step_completion(&op_id, Err("boom".to_string()), delay);
    assert_eq!(update.action, OperationAction::Retry);
    assert_eq!(update.operation_type, OperationType::Step);
    assert_eq!(update.parent_id, Some("p".to_string()));
    assert_eq!(update.name, Some("fetch".to_string()));
    assert_eq!(update.result, None);
    let obj = update.error.clone().unwrap();
    assert_eq!(obj.error_type, "UserCodeError");
    assert_eq!(obj.error_message, "boom");
    assert_eq!(update.step_options.unwrap().next_attempt_delay_seconds, Some(1));
    assert!(matches!(outcome, Err(DurableError::Suspend { scheduled_timestamp: None })));
}

#[test]
fn a_failed_step_is_failed_once_the_strategy_gives_up() {
    let op_id = OperationIdentifier::new("s", None, None);
    let strategy = FixedDelay::new(3, Duration::from_seconds(1));
    let delay = strategy.next_delay(3, "boom");
    assert!(delay.is_none());
    let (update, outcome) = step_completion(&op_id, Err("boom".to_string()), delay);
    assert_eq!(update.action, OperationAction::Fail);
    assert!(update.step_options.is_none());
    assert!(matches!(outcome, Err(DurableError::UserCode { .. })));
}

#[test]
fn step_attempt_comes_from_the_checkpoint() {
    assert_eq!(step_attempt(&CheckpointedResult::new(None)), 0);
    let mut op = Operation::new("s", OperationType::Step);
    op.status = OperationStatus::Pending;
    op.step_details = Some(StepDetails {
        result: None,
        attempt: Some(2),
        next_attempt_timestamp: None,
        error: None,
        payload: None,
    });
    assert_eq!(step_attempt(&CheckpointedResult::new(Some(op))), 2);
    assert_eq!(step_attempt(&create_started_operation(OperationType::Step)), 0);
}

#[test]
fn step_builders_set_no_other_options() {
    let op_id = OperationIdentifier::new("s", None, None);
    for update in [
        step::create_start_update(&op_id),
        step::create_succeed_update(&op_id, Some("1".to_string())),
        child::create_start_update(&op_id),
        parallel::create_succeed_update(&op_id, None),
        create_invoke_succeed_update(&op_id, None),
    ] {
        assert!(update.sub_type.is_none());
        assert!(update.wait_options.is_none());
        assert!(update.step_options.is_none());
        assert!(update.callback_options.is_none());
        assert!(update.chained_invoke_options.is_none());
        assert!(update.context_options.is_none());
    }
}

#[test]
fn map_plan_without_a_batcher_runs_one_item_per_task() {
    assert_eq!(map_plan(3, &None), vec![(0, 1), (1, 2), (2, 3)]);
    assert!(map_plan(0, &None).is_empty());
}

#[test]
fn map_plan_with_a_batcher_groups_items() {
    let plan = map_plan(5, &Some(ItemBatcher::new(2, 1024)));
    assert_eq!(plan, vec![(0, 2), (2, 4), (4, 5)]);
    assert_eq!(map_plan(4, &Some(ItemBatcher::new(2, 1024))), vec![(0, 2), (2, 4)]);
    assert_eq!(map_plan(2, &Some(ItemBatcher::new(0, 1024))), vec![(0, 1), (1, 2)]);
}

#[test]
fn map_plan_runs_every_item_exactly_once() {
    for n in 0..12usize {
        for width in 0..5usize {
            let plan = map_plan(n, &Some(ItemBatcher::new(width, 1024)));
            let mut seen = vec![0u32; n];
            let mut next = 0;
            for (start, end) in plan {
                assert_eq!(start, next);
                assert!(start < end);
                for i in start..end {
                    seen[i] += 1;
                }
                next = end;
            }
            assert_eq!(next, n);
            assert!(seen.iter().all(|&c| c == 1));
        }
    }
}

// ---------------------------------------------------------------- callback

#[test]
fn test_create_callback_start_update() {
    let op_id = OperationIdentifier::new("op-123", Some("parent-456".to_string()), Some("my-callback".to_string()));
    let config = CallbackConfig {
        timeout: Duration::from_hours(24),
        heartbeat_timeout: Duration::from_minutes(5),
        ..Default::default()
    };
    let update = create_callback_start_update(&op_id, "callback-id-123", &config);

    assert_eq!(update.operation_id, "op-123");
    assert_eq!(update.operation_type, OperationType::Callback);
    assert!(update.result.is_some());
    assert!(update.result.as_ref().unwrap().contains("callback_id"));
    assert_eq!(update.parent_id, Some("parent-456".to_string()));
    assert_eq!(update.name, Some("my-callback".to_string()));
}

#[test]
fn callback_start_update_carries_the_quoted_id() {
    let op_id = OperationIdentifier::new("op-1", None, None);
    let config = CallbackConfig { timeout: Duration::from_seconds(60), heartbeat_timeout: Duration::from_seconds(5) };
    let update = create_callback_start_update(&op_id, "id \"q\"", &config);
    assert_eq!(
        update.result.unwrap(),
        r#"{"callback_id":"id \"q\"","heartbeat_timeout_seconds":5,"timeout_seconds":60}"#
    );
}

#[test]
fn callback_result_decisions() {
    let callback: Callback<String> = Callback::new("cb-1", "op-1");
    match callback.result_decision(&CheckpointedResult::empty()) {
        Err(DurableError::Callback { message, callback_id }) => {
            assert_eq!(message, "Callback not found");
            assert_eq!(callback_id, Some("cb-1".to_string()));
        }
        other => panic!("unexpected {:?}", other),
    }
    let done = create_succeeded_operation(OperationType::Callback, "\"ok\"");
    assert_eq!(callback.result_decision(&done).unwrap(), "\"ok\"");
    let mut op = Operation::new("op-1", OperationType::Callback);
    op.status = OperationStatus::TimedOut;
    match callback.result_decision(&CheckpointedResult::new(Some(op))) {
        Err(DurableError::Callback { message, .. }) => assert_eq!(message, "Callback timed out"),
        other => panic!("unexpected {:?}", other),
    }
    let pending = create_started_operation(OperationType::Callback);
    assert!(matches!(callback.result_decision(&pending), Err(DurableError::Suspend { scheduled_timestamp: None })));
}

// ---------------------------------------------------------------- replay

#[test]
fn test_check_replay_not_found() {
    let checkpoint = CheckpointedResult::empty();
    let result = check_replay_i32(&checkpoint, OperationType::Step);

    assert!(result.is_ok());
    assert!(matches!(result.unwrap(), ReplayResult::NotFound));
}

#[test]
fn test_check_replay_succeeded() {
    let checkpoint = create_succeeded_operation(OperationType::Step, "42");
    let result = check_replay_i32(&checkpoint, OperationType::Step);

    assert!(result.is_ok());
    match result.unwrap() {
        ReplayResult::Replayed(value) => assert_eq!(value, 42),
        _ => panic!("Expected Replayed"),
    }
}

#[test]
fn test_check_replay_failed() {
    let checkpoint = create_failed_operation(OperationType::Step, "test error");
    let result = check_replay_i32(&checkpoint, OperationType::Step);

    assert!(result.is_err());
    match result.unwrap_err() {
        DurableError::UserCode { message, .. } => {
            assert!(message.contains("test error"));
        }
        _ => panic!("Expected UserCode error"),
    }
}

#[test]
fn test_check_replay_non_deterministic() {
    let checkpoint = create_succeeded_operation(OperationType::Wait, "null");
    let result = check_replay_i32(&checkpoint, OperationType::Step);

    assert!(result.is_err());
    match result.unwrap_err() {
        DurableError::NonDeterministic { operation_id, message } => {
            assert_eq!(operation_id, Some("test-op".to_string()));
            assert!(message.contains("Expected Step"));
            assert!(message.contains("found Wait"));
        }
        _ => panic!("Expected NonDeterministic error"),
    }
}

#[test]
fn test_check_replay_in_progress() {
    let checkpoint = create_started_operation(OperationType::Step);
    let result = check_replay_i32(&checkpoint, OperationType::Step);

    assert!(result.is_ok());
    assert!(matches!(result.unwrap(), ReplayResult::InProgress));
}

#[test]
fn test_check_replay_cancelled() {
    let checkpoint = create_cancelled_operation(OperationType::Step);
    let result = check_replay_i32(&checkpoint, OperationType::Step);

    assert!(result.is_err());
    match result.unwrap_err() {
        DurableError::Execution { message, .. } => {
            assert!(message.contains("Cancelled"));
        }
        _ => panic!("Expected Execution error"),
    }
}

#[test]
fn test_check_replay_status_not_found() {
    let checkpoint = CheckpointedResult::empty();
    let result = check_replay_status(&checkpoint, OperationType::Step, "test-op");

    assert!(result.is_ok());
    assert!(!result.unwrap());
}

#[test]
fn test_check_replay_status_succeeded() {
    let checkpoint = create_succeeded_operation(OperationType::Step, "42");
    let result = check_replay_status(&checkpoint, OperationType::Step, "test-op");

    assert!(result.is_ok());
    assert!(result.unwrap());
}

#[test]
fn test_check_replay_status_failed() {
    let checkpoint = create_failed_operation(OperationType::Step, "test error");
    let result = check_replay_status(&checkpoint, OperationType::Step, "test-op");

    assert!(result.is_err());
}

#[test]
fn test_check_replay_status_non_deterministic() {
    let checkpoint = create_succeeded_operation(OperationType::Wait, "null");
    let result = check_replay_status(&checkpoint, OperationType::Step, "test-op");

    assert!(result.is_err());
    match result.unwrap_err() {
        DurableError::NonDeterministic { .. } => {}
        _ => panic!("Expected NonDeterministic error"),
    }
}

#[test]
fn replay_round_trip_of_a_stored_result() {
    for op_type in [
        OperationType::Step,
        OperationType::Wait,
        OperationType::Callback,
        OperationType::Invoke,
        OperationType::Context,
    ] {
        let checkpoint = create_succeeded_operation(op_type, "-17");
        match check_replay_stored(&checkpoint, op_type, "test-op") {
            Ok(ReplayResult::Replayed(text)) => assert_eq!(text, "-17"),
            _ => panic!("expected the stored result"),
        }
    }
}

#[test]
fn replay_mismatch_names_both_types() {
    let checkpoint = create_started_operation(OperationType::Callback);
    match check_replay_stored(&checkpoint, OperationType::Invoke, "op-7") {
        Err(DurableError::NonDeterministic { message, operation_id }) => {
            assert_eq!(message, "Expected Invoke operation but found Callback at operation_id op-7");
            assert_eq!(operation_id, Some("op-7".to_string()));
        }
        _ => panic!("expected non-determinism"),
    }
}

#[test]
fn replay_failure_without_error_object() {
    let mut op = Operation::new("test-op", OperationType::Step);
    op.status = OperationStatus::Failed;
    match check_replay_stored(&CheckpointedResult::new(Some(op)), OperationType::Step, "test-op") {
        Err(DurableError::Execution { message, .. }) => assert_eq!(message, "Operation failed with unknown error"),
        _ => panic!("expected an execution error"),
    }
}

#[test]
fn callback_start_update_escapes_control_characters() {
    let op_id = OperationIdentifier::new("op-1", None, None);
    let config = CallbackConfig { timeout: Duration::from_seconds(1), heartbeat_timeout: Duration::from_seconds(2) };
    let update = create_callback_start_update(&op_id, "a\n\u{1}\\é\u{7f}", &config);
    assert_eq!(
        update.result.unwrap(),
        "{\"callback_id\":\"a\\n\\u0001\\\\é\u{7f}\",\"heartbeat_timeout_seconds\":2,\"timeout_seconds\":1}"
    );
}

#[test]
fn map_and_parallel_replay_report_terminal_status() {
    let op_id = OperationIdentifier::new("test-op", None, None);
    let mut op = Operation::new("test-op", OperationType::Context);
    op.status = OperationStatus::Stopped;
    let checkpoint = CheckpointedResult::new(Some(op));
    match aws_durable_execution_sdk::handlers::map::map_replay(&checkpoint, &op_id) {
        Err(DurableError::Execution { message, .. }) => assert_eq!(message, "Map operation was Stopped"),
        other => panic!("unexpected {:?}", other),
    }
    match parallel::parallel_replay(&checkpoint, &op_id) {
        Err(DurableError::Execution { message, .. }) => assert_eq!(message, "Parallel operation was Stopped"),
        other => panic!("unexpected {:?}", other),
    }
    let done = create_succeeded_operation(OperationType::Context, "{\"items\":[]}");
    assert_eq!(
        aws_durable_execution_sdk::handlers::map::map_replay(&done, &op_id).unwrap(),
        Some("{\"items\":[]}".to_string())
    );
}

#[test]
fn invoke_replay_outcomes() {
    let op_id = OperationIdentifier::new("test-op", None, None);
    let mut op = Operation::new("test-op", OperationType::Invoke);
    op.status = OperationStatus::Stopped;
    match aws_durable_execution_sdk::handlers::invoke::invoke_replay(&CheckpointedResult::new(Some(op)), &op_id) {
        Err(DurableError::Invocation { message, .. }) => assert!(message.contains("stopped externally")),
        other => panic!("unexpected {:?}", other),
    }
}

#[test]
fn a_recorded_step_success_replays_its_result() {
    let op_id = OperationIdentifier::new("step-9", None, None);
    let (update, _) = step_completion(&op_id, Ok("{\"n\":9}".to_string()), None);
    let mut op = Operation::new(&update.operation_id, update.operation_type);
    op.status = OperationStatus::Succeeded;
    op.result = update.result.clone();
    match check_replay_stored(&CheckpointedResult::new(Some(op)), update.operation_type, &update.operation_id) {
        Ok(ReplayResult::Replayed(text)) => assert_eq!(Some(text), update.result),
        _ => panic!("expected the recorded result"),
    }
}

#[test]
fn which_outcomes_count_as_replays() {
    assert!(counts_as_replay(&Ok(Some("1".to_string()))));
    assert!(!counts_as_replay(&Ok(None)));
    assert!(counts_as_replay(&Err(DurableError::execution("x"))));
    assert!(!counts_as_replay(&Err(DurableError::NonDeterministic { message: "m".to_string(), operation_id: None })));
}

#[test]
fn parallel_fail_update() {
    let op_id = OperationIdentifier::new("op-5", Some("p".to_string()), None);
    let update = parallel::create_fail_update(&op_id, ErrorObject::new("E", "m"));
    assert_eq!(update.action, OperationAction::Fail);
    assert_eq!(update.operation_type, OperationType::Context);
    assert_eq!(update.parent_id, Some("p".to_string()));
    assert_eq!(update.error.unwrap().error_type, "E");
}
