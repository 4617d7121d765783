//! Wait-for-condition: one STEP operation polled until a check passes. Each
//! failed check checkpoints a RETRY whose payload carries the user state and the
//! next attempt number, then suspends until the interval has passed.
//!
//! The check itself and the (de)serialization of the user state run outside;
//! here is what each attempt decides.
use vstd::prelude::*;
use vstd::string::*;
use crate::context::{carries_identity, with_identity, OperationIdentifier};
use crate::duration::Duration;
use crate::error::{opt_view, DurableError, ErrorObject, TerminationReason};
use crate::handlers::replay::{
    is_execution_error, is_nondeterministic, is_stored_failure, nondeterministic_error, stored_failure_error,
};
use crate::operation::{OperationAction, OperationType, OperationUpdate};
use crate::state::CheckpointedResult;
use crate::text::{decimal, usize_to_decimal};

verus! {

/// The sub-type that marks the STEP operations of this handler.
pub open spec fn condition_sub_type() -> Seq<char> {
    "wait_for_condition"@
}

/// The update is a STEP update of `op_id` with action `action`, marked with the
/// wait-for-condition sub-type.
pub open spec fn is_condition_update(u: OperationUpdate, op_id: OperationIdentifier, action: OperationAction) -> bool {
    &&& carries_identity(u, op_id)
    &&& u.action == action
    &&& u.operation_type == OperationType::Step
    &&& opt_view(u.sub_type) == Some(condition_sub_type())
}

/// The START update of the wait-for-condition operation `op_id`.
pub fn create_start_update(op_id: &OperationIdentifier) -> (r: OperationUpdate)
    ensures
        is_condition_update(r, *op_id, OperationAction::Start),
        r.result is None,
        r.error is None,
        r.wait_options is None && r.step_options is None && r.callback_options is None
            && r.chained_invoke_options is None && r.context_options is None,
{
    with_identity(
        OperationUpdate::start(op_id.operation_id.as_str(), OperationType::Step).with_sub_type("wait_for_condition"),
        op_id,
    )
}

/// The SUCCEED update of the wait-for-condition operation `op_id` carrying `result`.
pub fn create_succeed_update(op_id: &OperationIdentifier, result: Option<String>) -> (r: OperationUpdate)
    ensures
        is_condition_update(r, *op_id, OperationAction::Succeed),
        r.result == result,
        r.error is None,
        r.wait_options is None && r.step_options is None && r.callback_options is None
            && r.chained_invoke_options is None && r.context_options is None,
{
    with_identity(
        OperationUpdate::succeed(op_id.operation_id.as_str(), OperationType::Step, result).with_sub_type(
            "wait_for_condition",
        ),
        op_id,
    )
}

/// The FAIL update of the wait-for-condition operation `op_id` carrying `error`.
pub fn create_fail_update(op_id: &OperationIdentifier, error: ErrorObject) -> (r: OperationUpdate)
    ensures
        is_condition_update(r, *op_id, OperationAction::Fail),
        r.result is None,
        r.error == Some(error),
        r.wait_options is None && r.step_options is None && r.callback_options is None
            && r.chained_invoke_options is None && r.context_options is None,
{
    with_identity(
        OperationUpdate::fail(op_id.operation_id.as_str(), OperationType::Step, error).with_sub_type(
            "wait_for_condition",
        ),
        op_id,
    )
}

/// The RETRY update of the wait-for-condition operation `op_id` carrying the
/// state `payload` and the delay before the next attempt.
pub fn create_retry_update(
    op_id: &OperationIdentifier,
    payload: Option<String>,
    next_attempt_delay_seconds: Option<u64>,
) -> (r: OperationUpdate)
    ensures
        is_condition_update(r, *op_id, OperationAction::Retry),
        r.result == payload,
        r.error is None,
        r.step_options matches Some(o) && o.next_attempt_delay_seconds == next_attempt_delay_seconds,
        r.wait_options is None && r.callback_options is None && r.chained_invoke_options is None
            && r.context_options is None,
{
    with_identity(
        OperationUpdate::retry(
            op_id.operation_id.as_str(),
            OperationType::Step,
            payload,
            next_attempt_delay_seconds,
        ).with_sub_type("wait_for_condition"),
        op_id,
    )
}

/// Replay of a wait-for-condition operation: `Ok(None)` to run the next check,
/// `Ok(Some(text))` to return the stored result `text`, or the stored failure.
/// An operation that is neither succeeded nor failed (started, pending, ready)
/// goes on with its next check.
pub fn condition_replay(checkpoint_result: &CheckpointedResult, op_id: &OperationIdentifier) -> (r: Result<Option<String>, DurableError>)
    ensures
        match checkpoint_result.operation {
            None => r matches Ok(None),
            Some(op) => if op.operation_type != OperationType::Step {
                r matches Err(e) && is_nondeterministic(e, OperationType::Step, op.operation_type, op_id.operation_id@)
            } else if op.status is Succeeded && op.result_view() is Some {
                r matches Ok(Some(s)) && Some(s@) == op.result_view()
            } else if op.status is Failed {
                r matches Err(e) && is_stored_failure(e, op.error, "wait_for_condition failed with unknown error"@)
            } else {
                r matches Ok(None)
            },
        },
{
    if !checkpoint_result.is_existent() {
        return Ok(None);
    }
    if let Some(op_type) = checkpoint_result.operation_type() {
        if op_type != OperationType::Step {
            return Err(nondeterministic_error(OperationType::Step, op_type, op_id.operation_id.as_str()));
        }
    }
    if checkpoint_result.is_succeeded() {
        if let Some(result_str) = checkpoint_result.result() {
            return Ok(Some(result_str.to_owned()));
        }
    }
    if checkpoint_result.is_failed() {
        return Err(stored_failure_error(checkpoint_result.error(), "wait_for_condition failed with unknown error"));
    }
    Ok(None)
}

/// Where the next check starts from.
#[derive(Debug, Clone, PartialEq, Eq)]
pub enum ConditionResume {
    /// From the state and attempt stored in this RETRY payload
    Payload(String),
    /// From the initial state, at this attempt
    Initial(usize),
}

/// Where the next check starts: the RETRY payload when the checkpoint holds one,
/// else the initial state at the checkpointed attempt number, else at attempt 1.
pub fn condition_resume(checkpoint_result: &CheckpointedResult) -> (r: ConditionResume)
    ensures
        match checkpoint_result.retry_payload_view() {
            Some(p) => r matches ConditionResume::Payload(s) && s@ == p,
            None => match checkpoint_result.attempt_view() {
                Some(a) => r == ConditionResume::Initial(a as usize),
                None => r == ConditionResume::Initial(1),
            },
        },
{
    if let Some(payload) = checkpoint_result.retry_payload() {
        return ConditionResume::Payload(payload.to_owned());
    }
    if let Some(attempt) = checkpoint_result.attempt() {
        return ConditionResume::Initial(attempt as usize);
    }
    ConditionResume::Initial(1)
}

/// The cap on checks: `max_attempts`, or no cap (the largest `usize`).
pub open spec fn attempt_cap(max_attempts: Option<usize>) -> nat {
    match max_attempts {
        Some(m) => m as nat,
        None => usize::MAX as nat,
    }
}

/// The cap on checks (see `attempt_cap`).
pub fn attempt_cap_of(max_attempts: Option<usize>) -> (r: usize)
    ensures
        r == attempt_cap(max_attempts),
{
    match max_attempts {
        Some(m) => m,
        None => usize::MAX,
    }
}

/// The message of the error returned once the checks are used up.
pub open spec fn max_attempts_message(cap: nat) -> Seq<char> {
    "Max attempts ("@ + decimal(cap) + ") exceeded for wait_for_condition"@
}

/// Builds the message of the error returned once the checks are used up.
fn max_attempts_text(cap: usize) -> (r: String)
    ensures
        r@ == max_attempts_message(cap as nat),
{
    "Max attempts (".to_owned().concat(usize_to_decimal(cap).as_str()).concat(") exceeded for wait_for_condition")
}

/// Before a check runs at `current_attempt`: when the attempt is past the cap,
/// the FAIL update to checkpoint and the error to return (`Err`); otherwise
/// whether a START must be checkpointed first, which is the case only for the
/// first attempt of an operation without a checkpoint (`Ok`).
pub fn condition_precheck(
    checkpoint_result: &CheckpointedResult,
    op_id: &OperationIdentifier,
    current_attempt: usize,
    max_attempts: Option<usize>,
) -> (r: Result<bool, (OperationUpdate, DurableError)>)
    ensures
        current_attempt > attempt_cap(max_attempts) <==> r is Err,
        r matches Ok(start) ==> start == (current_attempt == 1 && checkpoint_result.operation is None),
        r matches Err((u, e)) ==> {
            &&& is_condition_update(u, *op_id, OperationAction::Fail)
            &&& u.result is None
            &&& u.wait_options is None && u.step_options is None && u.callback_options is None
                && u.chained_invoke_options is None && u.context_options is None
            &&& u.error matches Some(o) && o.error_type@ == "MaxAttemptsExceeded"@
                && o.error_message@ == max_attempts_message(attempt_cap(max_attempts)) && o.stack_trace is None
            &&& is_execution_error(e, max_attempts_message(attempt_cap(max_attempts)), TerminationReason::ExecutionError)
        },
{
    let cap = attempt_cap_of(max_attempts);
    if current_attempt > cap {
        let message = max_attempts_text(cap);
        let update = create_fail_update(op_id, ErrorObject::new("MaxAttemptsExceeded", message.as_str()));
        return Err((update, DurableError::Execution { message, termination_reason: TerminationReason::ExecutionError }));
    }
    Ok(current_attempt == 1 && !checkpoint_result.is_existent())
}

/// The RETRY payload for the next attempt: the serialized user state and the
/// attempt number as a JSON object.
pub open spec fn retry_payload_text(user_state_json: Seq<char>, next_attempt: nat) -> Seq<char> {
    "{\"user_state\":"@ + user_state_json + ",\"attempt\":"@ + decimal(next_attempt) + "}"@
}

/// After a check ran at `current_attempt` (within the cap): the update to
/// checkpoint and what the operation returns. `outcome` is the serialized result
/// of a passing check, or the text of the check's error; `user_state_json` is the
/// serialized state the check was given.
///
/// A pass checkpoints SUCCEED with the result and returns `Ok`. A failure on the
/// last allowed attempt checkpoints FAIL (`MaxAttemptsExceeded`, with the last
/// error) and returns the max-attempts error. Any other failure checkpoints a
/// RETRY carrying the state and the next attempt number, delayed by `interval`,
/// and suspends.
pub fn condition_outcome(
    op_id: &OperationIdentifier,
    current_attempt: usize,
    max_attempts: Option<usize>,
    interval: Duration,
    user_state_json: &str,
    outcome: Result<String, String>,
) -> (r: (OperationUpdate, Result<(), DurableError>))
    requires
        current_attempt <= attempt_cap(max_attempts),
    ensures
        carries_identity(r.0, *op_id),
        r.0.operation_type == OperationType::Step,
        opt_view(r.0.sub_type) == Some(condition_sub_type()),
        r.0.wait_options is None && r.0.callback_options is None && r.0.chained_invoke_options is None
            && r.0.context_options is None,
        !(outcome is Err && current_attempt < attempt_cap(max_attempts)) ==> r.0.step_options is None,
        match outcome {
            Ok(v) => r.0.action == OperationAction::Succeed && opt_view(r.0.result) == Some(v@)
                && r.0.error is None && r.1 is Ok,
            Err(m) => if current_attempt >= attempt_cap(max_attempts) {
                &&& r.0.action == OperationAction::Fail
                &&& r.0.result is None
                &&& r.0.error matches Some(o) && o.error_type@ == "MaxAttemptsExceeded"@
                    && o.error_message@ == max_attempts_message(attempt_cap(max_attempts)) + ". Last error: "@ + m@
                    && o.stack_trace is None
                &&& r.1 matches Err(e) && is_execution_error(
                    e,
                    max_attempts_message(attempt_cap(max_attempts)),
                    TerminationReason::ExecutionError,
                )
            } else {
                &&& r.0.action == OperationAction::Retry
                &&& opt_view(r.0.result) == Some(retry_payload_text(user_state_json@, (current_attempt + 1) as nat))
                &&& r.0.error is None
                &&& r.0.step_options matches Some(o) && o.next_attempt_delay_seconds == Some(interval.secs() as u64)
                &&& r.1 == Err::<(), DurableError>(DurableError::Suspend { scheduled_timestamp: None })
            },
        },
{
    let cap = attempt_cap_of(max_attempts);
    match outcome {
        Ok(serialized) => (create_succeed_update(op_id, Some(serialized)), Ok(())),
        Err(last_error) => {
            if current_attempt >= cap {
                let message = max_attempts_text(cap);
                let detail = message.as_str().to_owned().concat(". Last error: ").concat(last_error.as_str());
                let update = create_fail_update(op_id, ErrorObject::new("MaxAttemptsExceeded", detail.as_str()));
                (update, Err(DurableError::Execution { message, termination_reason: TerminationReason::ExecutionError }))
            } else {
                let payload = "{\"user_state\":".to_owned().concat(user_state_json).concat(",\"attempt\":").concat(
                    usize_to_decimal(current_attempt + 1).as_str(),
                ).concat("}");
                let update = create_retry_update(op_id, Some(payload), Some(interval.to_seconds()));
                (update, Err(DurableError::Suspend { scheduled_timestamp: None }))
            }
        },
    }
}

} // verus!
