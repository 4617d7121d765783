//! Wait operations: pause an execution for a duration without holding Lambda
//! resources, and cancellation of active waits.
use vstd::prelude::*;
use vstd::string::*;
use crate::context::{carries_identity, with_identity, OperationIdentifier};
use crate::duration::Duration;
use crate::error::DurableError;
use crate::handlers::replay::{is_nondeterministic, nondeterministic_error};
use crate::operation::{OperationAction, OperationType, OperationUpdate};
use crate::state::CheckpointedResult;
use crate::text::{decimal, u64_to_decimal};

verus! {

/// Minimum wait duration in seconds.
pub const MIN_WAIT_SECONDS: u64 = 1;

/// What a wait does next.
#[derive(Debug)]
pub enum WaitAction {
    /// The wait is over (it succeeded or was cancelled): return `Ok(())`.
    Completed,
    /// The wait is in progress: suspend and let the service resume the execution.
    Suspend,
    /// A new wait: checkpoint this START update, then suspend.
    StartThenSuspend(OperationUpdate),
}

/// The message of the error for a wait shorter than the minimum.
pub open spec fn too_short_message(wait_seconds: nat) -> Seq<char> {
    "Wait duration must be at least "@ + decimal(MIN_WAIT_SECONDS as nat) + " second(s), got "@
        + decimal(wait_seconds) + " seconds"@
}

/// The update starts the wait `op_id` for `wait_seconds`: a WAIT START with
/// those wait options, no result or error, and no other options.
pub open spec fn is_wait_start(u: OperationUpdate, op_id: OperationIdentifier, wait_seconds: u64) -> bool {
    &&& carries_identity(u, op_id)
    &&& u.action == OperationAction::Start
    &&& u.operation_type == OperationType::Wait
    &&& u.wait_options matches Some(w) && w.wait_seconds == wait_seconds
    &&& u.result is None
    &&& u.error is None
    &&& u.sub_type is None
    &&& u.step_options is None
    &&& u.callback_options is None
    &&& u.chained_invoke_options is None
    &&& u.context_options is None
}

/// The START update of the wait `op_id` for `wait_seconds`.
pub fn create_start_update(op_id: &OperationIdentifier, wait_seconds: u64) -> (r: OperationUpdate)
    ensures
        carries_identity(r, *op_id),
        r.action == OperationAction::Start,
        r.operation_type == OperationType::Wait,
        r.wait_options matches Some(w) && w.wait_seconds == wait_seconds,
        r.result is None,
        r.error is None,
        r.sub_type is None,
        r.step_options is None && r.callback_options is None && r.chained_invoke_options is None
            && r.context_options is None,
{
    with_identity(OperationUpdate::start_wait(op_id.operation_id.as_str(), wait_seconds), op_id)
}

/// The decision of a wait for `duration` given the checkpoint of `op_id`.
///
/// Durations under one second are a validation error. A checkpoint of another
/// type is non-determinism; a succeeded or cancelled wait is over; a wait that is
/// not terminal is still running. Otherwise (no checkpoint, or a wait that ended
/// some other way) a new wait starts.
pub fn wait_decision(duration: Duration, checkpoint_result: &CheckpointedResult, op_id: &OperationIdentifier) -> (r: Result<WaitAction, DurableError>)
    ensures
        duration.secs() < MIN_WAIT_SECONDS ==> (r matches Err(DurableError::Validation { message })
            && message@ == too_short_message(duration.secs())),
        duration.secs() >= MIN_WAIT_SECONDS ==> match checkpoint_result.operation {
            Some(op) => if op.operation_type != OperationType::Wait {
                r matches Err(e) && is_nondeterministic(e, OperationType::Wait, op.operation_type, op_id.operation_id@)
            } else if op.status is Succeeded || op.status is Cancelled {
                r matches Ok(WaitAction::Completed)
            } else if !op.status.spec_is_terminal() {
                r matches Ok(WaitAction::Suspend)
            } else {
                r matches Ok(WaitAction::StartThenSuspend(u)) && is_wait_start(u, *op_id, duration.secs() as u64)
            },
            None => r matches Ok(WaitAction::StartThenSuspend(u)) && is_wait_start(u, *op_id, duration.secs() as u64),
        },
{
    let wait_seconds = duration.to_seconds();
    if wait_seconds < MIN_WAIT_SECONDS {
        let message = "Wait duration must be at least ".to_owned().concat(u64_to_decimal(MIN_WAIT_SECONDS).as_str()).concat(
            " second(s), got ",
        ).concat(u64_to_decimal(wait_seconds).as_str()).concat(" seconds");
        return Err(DurableError::Validation { message });
    }
    if checkpoint_result.is_existent() {
        if let Some(op_type) = checkpoint_result.operation_type() {
            if op_type != OperationType::Wait {
                return Err(nondeterministic_error(OperationType::Wait, op_type, op_id.operation_id.as_str()));
            }
        }
        if checkpoint_result.is_succeeded() {
            return Ok(WaitAction::Completed);
        }
        if checkpoint_result.is_cancelled() {
            return Ok(WaitAction::Completed);
        }
        if !checkpoint_result.is_terminal() {
            return Ok(WaitAction::Suspend);
        }
    }
    Ok(WaitAction::StartThenSuspend(create_start_update(op_id, wait_seconds)))
}

/// The message of the error for cancelling an operation that is not a wait.
pub open spec fn not_a_wait_message(operation_id: Seq<char>, found: OperationType) -> Seq<char> {
    "Cannot cancel operation "@ + operation_id + ": expected WAIT operation but found "@ + found.name_view()
}

/// The decision of cancelling the wait `operation_id`: `Ok(None)` when there is
/// nothing to cancel (no checkpoint, or the wait already ended), `Ok(Some(u))` to
/// checkpoint the CANCEL update `u`, or a validation error when the operation is
/// not a wait.
pub fn wait_cancel_decision(checkpoint_result: &CheckpointedResult, operation_id: &str) -> (r: Result<Option<OperationUpdate>, DurableError>)
    ensures
        match checkpoint_result.operation {
            None => r matches Ok(None),
            Some(op) => if op.operation_type != OperationType::Wait {
                r matches Err(DurableError::Validation { message }) && message@ == not_a_wait_message(
                    operation_id@,
                    op.operation_type,
                )
            } else if op.status.spec_is_terminal() {
                r matches Ok(None)
            } else {
                r matches Ok(Some(u)) && u.is_bare(operation_id@, OperationAction::Cancel, OperationType::Wait)
                    && u.result is None && u.error is None
            },
        },
{
    if !checkpoint_result.is_existent() {
        return Ok(None);
    }
    if let Some(op_type) = checkpoint_result.operation_type() {
        if op_type != OperationType::Wait {
            let message = "Cannot cancel operation ".to_owned().concat(operation_id).concat(
                ": expected WAIT operation but found ",
            ).concat(op_type.name_str());
            return Err(DurableError::Validation { message });
        }
    }
    if checkpoint_result.is_terminal() {
        return Ok(None);
    }
    Ok(Some(OperationUpdate::cancel(operation_id, OperationType::Wait)))
}

} // verus!
