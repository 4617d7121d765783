//! Child contexts: isolated nested workflows whose outcome is checkpointed as
//! one CONTEXT operation of the parent.
use vstd::prelude::*;
use vstd::string::*;
use crate::context::{carries_identity, with_identity, OperationIdentifier};
use crate::error::{DurableError, ErrorObject, TerminationReason};
use crate::handlers::replay::{
    is_execution_error, is_nondeterministic, is_stored_failure, nondeterministic_error,
    stored_failure_error, was_message, was_text,
};
use crate::operation::{OperationAction, OperationType, OperationUpdate};
use crate::state::CheckpointedResult;

verus! {

/// The START update of the child context `op_id`.
pub fn create_start_update(op_id: &OperationIdentifier) -> (r: OperationUpdate)
    ensures
        carries_identity(r, *op_id),
        r.action == OperationAction::Start,
        r.operation_type == OperationType::Context,
        r.result is None,
        r.error is None,
        r.has_no_options(),
{
    with_identity(OperationUpdate::start(op_id.operation_id.as_str(), OperationType::Context), op_id)
}

/// The SUCCEED update of the child context `op_id` carrying `result`.
pub fn create_succeed_update(op_id: &OperationIdentifier, result: Option<String>) -> (r: OperationUpdate)
    ensures
        carries_identity(r, *op_id),
        r.action == OperationAction::Succeed,
        r.operation_type == OperationType::Context,
        r.result == result,
        r.error is None,
        r.has_no_options(),
{
    with_identity(OperationUpdate::succeed(op_id.operation_id.as_str(), OperationType::Context, result), op_id)
}

/// The FAIL update of the child context `op_id` carrying `error`.
pub fn create_fail_update(op_id: &OperationIdentifier, error: ErrorObject) -> (r: OperationUpdate)
    ensures
        carries_identity(r, *op_id),
        r.action == OperationAction::Fail,
        r.operation_type == OperationType::Context,
        r.result is None,
        r.error == Some(error),
        r.has_no_options(),
{
    with_identity(OperationUpdate::fail(op_id.operation_id.as_str(), OperationType::Context, error), op_id)
}

/// Replay of a child context: `Ok(None)` to run it, `Ok(Some(text))` to return
/// the stored result `text`, or the error to return.
pub fn child_replay(checkpoint_result: &CheckpointedResult, op_id: &OperationIdentifier) -> (r: Result<Option<String>, DurableError>)
    ensures
        match checkpoint_result.operation {
            None => r matches Ok(None),
            Some(op) => if op.operation_type != OperationType::Context {
                r matches Err(e) && is_nondeterministic(e, OperationType::Context, op.operation_type, op_id.operation_id@)
            } else if op.status is Succeeded && op.result_view() is Some {
                r matches Ok(Some(s)) && Some(s@) == op.result_view()
            } else if op.status is Failed {
                r matches Err(e) && is_stored_failure(e, op.error, "Child context failed with unknown error"@)
            } else if op.status.spec_is_terminal() {
                r matches Err(e) && is_execution_error(
                    e,
                    was_message("Child context"@, op.status),
                    TerminationReason::ExecutionError,
                )
            } else {
                r matches Ok(None)
            },
        },
{
    if !checkpoint_result.is_existent() {
        return Ok(None);
    }
    if let Some(op_type) = checkpoint_result.operation_type() {
        if op_type != OperationType::Context {
            return Err(nondeterministic_error(OperationType::Context, op_type, op_id.operation_id.as_str()));
        }
    }
    if checkpoint_result.is_succeeded() {
        if let Some(result_str) = checkpoint_result.result() {
            return Ok(Some(result_str.to_owned()));
        }
    }
    if checkpoint_result.is_failed() {
        return Err(stored_failure_error(checkpoint_result.error(), "Child context failed with unknown error"));
    }
    if checkpoint_result.is_terminal() {
        let status = checkpoint_result.status().unwrap();
        return Err(DurableError::execution(was_text("Child context", status).as_str()));
    }
    Ok(None)
}

/// The update to checkpoint when the child's work failed with `error`: none for
/// a Suspend signal (suspensions are not checkpointed), otherwise FAIL with the
/// error's error object. The child returns `error` either way.
pub fn child_failure_update(op_id: &OperationIdentifier, error: &DurableError) -> (r: Option<OperationUpdate>)
    ensures
        error is Suspend ==> r is None,
        !(error is Suspend) ==> (r matches Some(u) && carries_identity(u, *op_id)
            && u.action == OperationAction::Fail && u.operation_type == OperationType::Context
            && u.result is None && u.has_no_options() && (u.error matches Some(o)
            && o.error_type@ == ErrorObject::type_of_error(*error)
            && o.error_message@ == ErrorObject::message_of_error(*error))),
{
    if error.is_suspend() {
        return None;
    }
    Some(create_fail_update(op_id, ErrorObject::from_durable_error(error)))
}

} // verus!
