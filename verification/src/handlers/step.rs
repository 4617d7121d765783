//! Step operations: a unit of work whose outcome is checkpointed.
//!
//! The handler consults the checkpoint first (replay), then runs the work and
//! checkpoints its outcome; with at-most-once semantics the start is
//! checkpointed before the work runs. The decisions live here; running the
//! work and talking to the service is the caller's part.
use vstd::prelude::*;
use vstd::string::*;
use crate::context::{carries_identity, with_identity, OperationIdentifier};
use crate::duration::Duration;
use crate::error::{opt_view, DurableError, ErrorObject, TerminationReason};
use crate::handlers::replay::{
    is_execution_error, is_nondeterministic, is_stored_failure, nondeterministic_error,
    stored_failure_error, was_message, was_text,
};
use crate::operation::{OperationAction, OperationType, OperationUpdate};
use crate::serdes::SerDesContext;
use crate::state::CheckpointedResult;

verus! {

/// Information handed to a step's work function.
#[derive(Debug, Clone)]
pub struct StepContext {
    /// The operation identifier for this step
    pub operation_id: String,
    /// The parent operation ID, if any
    pub parent_id: Option<String>,
    /// The name of the step, if provided
    pub name: Option<String>,
    /// The durable execution ARN
    pub durable_execution_arn: String,
    /// The current retry attempt (0-indexed)
    pub attempt: u32,
}

impl StepContext {
    /// Creates a context for the first attempt, without parent or name.
    pub fn new(operation_id: &str, durable_execution_arn: &str) -> (r: Self)
        ensures
            r.operation_id@ == operation_id@,
            r.durable_execution_arn@ == durable_execution_arn@,
            r.parent_id is None,
            r.name is None,
            r.attempt == 0,
    {
        StepContext {
            operation_id: operation_id.to_owned(),
            parent_id: None,
            name: None,
            durable_execution_arn: durable_execution_arn.to_owned(),
            attempt: 0,
        }
    }

    /// Sets the parent ID, leaving every other field as it was.
    pub fn with_parent_id(self, parent_id: &str) -> (r: Self)
        ensures
            opt_view(r.parent_id) == Some(parent_id@),
            r == (StepContext { parent_id: r.parent_id, ..self }),
    {
        let mut s = self;
        s.parent_id = Some(parent_id.to_owned());
        s
    }

    /// Sets the name, leaving every other field as it was.
    pub fn with_name(self, name: &str) -> (r: Self)
        ensures
            opt_view(r.name) == Some(name@),
            r == (StepContext { name: r.name, ..self }),
    {
        let mut s = self;
        s.name = Some(name.to_owned());
        s
    }

    /// Sets the attempt number, leaving every other field as it was.
    pub fn with_attempt(self, attempt: u32) -> (r: Self)
        ensures
            r == (StepContext { attempt, ..self }),
    {
        let mut s = self;
        s.attempt = attempt;
        s
    }

    /// The serializer context of this step.
    pub fn serdes_context(&self) -> (r: SerDesContext)
        ensures
            r.operation_id@ == self.operation_id@,
            r.durable_execution_arn@ == self.durable_execution_arn@,
    {
        SerDesContext::new(self.operation_id.as_str(), self.durable_execution_arn.as_str())
    }
}

/// The context for the first attempt of the step `op_id` in execution `arn`.
pub fn step_context_for(op_id: &OperationIdentifier, durable_execution_arn: &str) -> (r: StepContext)
    ensures
        r.operation_id@ == op_id.operation_id@,
        r.durable_execution_arn@ == durable_execution_arn@,
        opt_view(r.parent_id) == opt_view(op_id.parent_id),
        opt_view(r.name) == opt_view(op_id.name),
        r.attempt == 0,
{
    let ctx = StepContext::new(op_id.operation_id.as_str(), durable_execution_arn).with_attempt(0);
    let ctx = match &op_id.parent_id {
        Some(p) => ctx.with_parent_id(p.as_str()),
        None => ctx,
    };
    match &op_id.name {
        Some(n) => ctx.with_name(n.as_str()),
        None => ctx,
    }
}

/// Replay of a step: `Ok(None)` to run the step, `Ok(Some(text))` to return the
/// stored result `text` (to be deserialized), or the error to return.
///
/// Every outcome but `Ok(None)` and a non-determinism error counts as a replay.
pub fn step_replay(checkpoint_result: &CheckpointedResult, op_id: &OperationIdentifier) -> (r: Result<Option<String>, DurableError>)
    ensures
        match checkpoint_result.operation {
            None => r matches Ok(None),
            Some(op) => if op.operation_type != OperationType::Step {
                r matches Err(e) && is_nondeterministic(e, OperationType::Step, op.operation_type, op_id.operation_id@)
            } else if op.status is Succeeded && op.result_view() is Some {
                r matches Ok(Some(s)) && Some(s@) == op.result_view()
            } else if op.status is Failed {
                r matches Err(e) && is_stored_failure(e, op.error, "Step failed with unknown error"@)
            } else if op.status.spec_is_terminal() {
                r matches Err(e) && is_execution_error(
                    e,
                    was_message("Step"@, op.status),
                    TerminationReason::StepInterrupted,
                )
            } else {
                r matches Ok(None)
            },
        },
{
    if !checkpoint_result.is_existent() {
        return Ok(None);
    }
    if let Some(op_type) = checkpoint_result.operation_type() {
        if op_type != OperationType::Step {
            return Err(nondeterministic_error(OperationType::Step, op_type, op_id.operation_id.as_str()));
        }
    }
    if checkpoint_result.is_succeeded() {
        if let Some(result_str) = checkpoint_result.result() {
            return Ok(Some(result_str.to_owned()));
        }
    }
    if checkpoint_result.is_failed() {
        return Err(stored_failure_error(checkpoint_result.error(), "Step failed with unknown error"));
    }
    if checkpoint_result.is_terminal() {
        let status = checkpoint_result.status().unwrap();
        return Err(
            DurableError::Execution {
                message: was_text("Step", status),
                termination_reason: TerminationReason::StepInterrupted,
            },
        );
    }
    Ok(None)
}

/// The START update of the step `op_id`.
pub fn create_start_update(op_id: &OperationIdentifier) -> (r: OperationUpdate)
    ensures
        carries_identity(r, *op_id),
        r.action == OperationAction::Start,
        r.operation_type == OperationType::Step,
        r.result is None,
        r.error is None,
        r.has_no_options(),
{
    with_identity(OperationUpdate::start(op_id.operation_id.as_str(), OperationType::Step), op_id)
}

/// The SUCCEED update of the step `op_id` carrying `result`.
pub fn create_succeed_update(op_id: &OperationIdentifier, result: Option<String>) -> (r: OperationUpdate)
    ensures
        carries_identity(r, *op_id),
        r.action == OperationAction::Succeed,
        r.operation_type == OperationType::Step,
        r.result == result,
        r.error is None,
        r.has_no_options(),
{
    with_identity(OperationUpdate::succeed(op_id.operation_id.as_str(), OperationType::Step, result), op_id)
}

/// The FAIL update of the step `op_id` carrying `error`.
pub fn create_fail_update(op_id: &OperationIdentifier, error: ErrorObject) -> (r: OperationUpdate)
    ensures
        carries_identity(r, *op_id),
        r.action == OperationAction::Fail,
        r.operation_type == OperationType::Step,
        r.result is None,
        r.error == Some(error),
        r.has_no_options(),
{
    with_identity(OperationUpdate::fail(op_id.operation_id.as_str(), OperationType::Step, error), op_id)
}

/// The attempt a run of the step is: the attempt number the checkpoint holds
/// from earlier retries, 0 without one. It is handed to the work and to the
/// retry strategy.
pub fn step_attempt(checkpoint_result: &CheckpointedResult) -> (r: u32)
    ensures
        r == match checkpoint_result.attempt_view() {
            Some(a) => a,
            None => 0,
        },
{
    match checkpoint_result.attempt() {
        Some(a) => a,
        None => 0,
    }
}

/// The RETRY update of the step `op_id` after the error `error`, to run again
/// after `delay_seconds`.
pub fn create_retry_update(op_id: &OperationIdentifier, error: ErrorObject, delay_seconds: u64) -> (r: OperationUpdate)
    ensures
        carries_identity(r, *op_id),
        r.action == OperationAction::Retry,
        r.operation_type == OperationType::Step,
        r.result is None,
        r.error == Some(error),
        r.sub_type is None,
        r.step_options matches Some(o) && o.next_attempt_delay_seconds == Some(delay_seconds),
        r.wait_options is None && r.callback_options is None && r.chained_invoke_options is None
            && r.context_options is None,
{
    with_identity(
        OperationUpdate::retry_with_error(op_id.operation_id.as_str(), OperationType::Step, error, Some(delay_seconds)),
        op_id,
    )
}

/// After the step's work ran: the update to checkpoint and what the step
/// returns. `outcome` is the serialized value, or the text of the work's error;
/// `retry_delay` is the retry strategy's answer for this attempt and error
/// (`None` when there is no strategy or it gives up).
///
/// Success checkpoints SUCCEED with the serialized value and returns `Ok`. An
/// error with a retry delay checkpoints RETRY with a `UserCodeError` error
/// object and that delay, and suspends until the retry. An error without one
/// (the retries are exhausted) checkpoints FAIL with the `UserCodeError` error
/// object and returns the matching user-code error.
pub fn step_completion(
    op_id: &OperationIdentifier,
    outcome: Result<String, String>,
    retry_delay: Option<Duration>,
) -> (r: (OperationUpdate, Result<(), DurableError>))
    ensures
        carries_identity(r.0, *op_id),
        r.0.operation_type == OperationType::Step,
        r.0.sub_type is None,
        r.0.wait_options is None && r.0.callback_options is None && r.0.chained_invoke_options is None
            && r.0.context_options is None,
        match outcome {
            Ok(v) => r.0.action == OperationAction::Succeed && opt_view(r.0.result) == Some(v@)
                && r.0.error is None && r.0.step_options is None && r.1 is Ok,
            Err(m) => {
                &&& r.0.result is None
                &&& r.0.error matches Some(o) && o.error_type@ == "UserCodeError"@ && o.error_message@ == m@
                    && o.stack_trace is None
                &&& match retry_delay {
                    Some(d) => {
                        &&& r.0.action == OperationAction::Retry
                        &&& r.0.step_options matches Some(so) && so.next_attempt_delay_seconds == Some(
                            d.secs() as u64,
                        )
                        &&& r.1 == Err::<(), DurableError>(DurableError::Suspend { scheduled_timestamp: None })
                    },
                    None => {
                        &&& r.0.action == OperationAction::Fail
                        &&& r.0.step_options is None
                        &&& r.1 matches Err(DurableError::UserCode { message, error_type, stack_trace })
                            && message@ == m@ && error_type@ == "UserCodeError"@ && stack_trace is None
                    },
                }
            },
        },
{
    match outcome {
        Ok(serialized) => (create_succeed_update(op_id, Some(serialized)), Ok(())),
        Err(message) => {
            let error_obj = ErrorObject::new("UserCodeError", message.as_str());
            match retry_delay {
                Some(delay) => (
                    create_retry_update(op_id, error_obj, delay.to_seconds()),
                    Err(DurableError::Suspend { scheduled_timestamp: None }),
                ),
                None => (
                    create_fail_update(op_id, error_obj),
                    Err(
                        DurableError::UserCode {
                            message,
                            error_type: "UserCodeError".to_owned(),
                            stack_trace: None,
                        },
                    ),
                ),
            }
        },
    }
}

} // verus!
