//! Invoke operations: calling another durable Lambda function. The service
//! performs the call; the handler checkpoints its start and suspends until the
//! result is checkpointed.
use vstd::prelude::*;
use vstd::string::*;
use crate::config::InvokeConfig;
use crate::context::{carries_identity, with_identity, OperationIdentifier};
use crate::error::{clone_opt_string, opt_view, DurableError, ErrorObject, TerminationReason};
use crate::handlers::replay::{
    is_invocation_error, is_nondeterministic, nondeterministic_error, was_message, was_text,
};
use crate::operation::{OperationAction, OperationType, OperationUpdate};
use crate::state::CheckpointedResult;

verus! {

/// The START update of the invoke `op_id` of `function_name` with the serialized
/// `payload_json`, carrying the configured tenant.
pub fn create_invoke_start_update<P, R>(
    op_id: &OperationIdentifier,
    function_name: &str,
    payload_json: &str,
    config: &InvokeConfig<P, R>,
) -> (r: OperationUpdate)
    ensures
        carries_identity(r, *op_id),
        r.action == OperationAction::Start,
        r.operation_type == OperationType::Invoke,
        opt_view(r.result) == Some(payload_json@),
        r.error is None,
        r.chained_invoke_options matches Some(o) && o.function_name@ == function_name@
            && opt_view(o.tenant_id) == opt_view(config.tenant_id),
        r.sub_type is None && r.wait_options is None && r.step_options is None && r.callback_options is None
            && r.context_options is None,
{
    let mut update = OperationUpdate::start(op_id.operation_id.as_str(), OperationType::Invoke);
    update.result = Some(payload_json.to_owned());
    let update = update.with_chained_invoke_options(function_name, clone_opt_string(&config.tenant_id));
    with_identity(update, op_id)
}

/// The SUCCEED update of the invoke `op_id` carrying `result`.
pub fn create_invoke_succeed_update(op_id: &OperationIdentifier, result: Option<String>) -> (r: OperationUpdate)
    ensures
        carries_identity(r, *op_id),
        r.action == OperationAction::Succeed,
        r.operation_type == OperationType::Invoke,
        r.result == result,
        r.error is None,
        r.has_no_options(),
{
    with_identity(OperationUpdate::succeed(op_id.operation_id.as_str(), OperationType::Invoke, result), op_id)
}

/// The FAIL update of the invoke `op_id` carrying `error`.
pub fn create_invoke_fail_update(op_id: &OperationIdentifier, error: ErrorObject) -> (r: OperationUpdate)
    ensures
        carries_identity(r, *op_id),
        r.action == OperationAction::Fail,
        r.operation_type == OperationType::Invoke,
        r.result is None,
        r.error == Some(error),
        r.has_no_options(),
{
    with_identity(OperationUpdate::fail(op_id.operation_id.as_str(), OperationType::Invoke, error), op_id)
}

/// Replay of an invoke: `Ok(None)` to start it, `Ok(Some(text))` to return the
/// stored result `text`, or the error to return. Failures, stops and other
/// terminal statuses of the invoked function come back as Invocation errors.
pub fn invoke_replay(checkpoint_result: &CheckpointedResult, op_id: &OperationIdentifier) -> (r: Result<Option<String>, DurableError>)
    ensures
        match checkpoint_result.operation {
            None => r matches Ok(None),
            Some(op) => if op.operation_type != OperationType::Invoke {
                r matches Err(e) && is_nondeterministic(e, OperationType::Invoke, op.operation_type, op_id.operation_id@)
            } else if op.status is Succeeded && op.result_view() is Some {
                r matches Ok(Some(s)) && Some(s@) == op.result_view()
            } else if op.status is Failed {
                r matches Err(e) && is_invocation_error(
                    e,
                    match op.error {
                        Some(obj) => obj.error_message@,
                        None => "Invoke failed with unknown error"@,
                    },
                )
            } else if op.status is Stopped {
                r matches Err(e) && is_invocation_error(e, "Invoke was stopped externally"@)
            } else if op.status.spec_is_terminal() {
                r matches Err(e) && is_invocation_error(e, was_message("Invoke"@, op.status))
            } else {
                r matches Ok(None)
            },
        },
{
    if !checkpoint_result.is_existent() {
        return Ok(None);
    }
    if let Some(op_type) = checkpoint_result.operation_type() {
        if op_type != OperationType::Invoke {
            return Err(nondeterministic_error(OperationType::Invoke, op_type, op_id.operation_id.as_str()));
        }
    }
    if checkpoint_result.is_succeeded() {
        if let Some(result_str) = checkpoint_result.result() {
            return Ok(Some(result_str.to_owned()));
        }
    }
    if checkpoint_result.is_failed() {
        return match checkpoint_result.error() {
            Some(error) => Err(
                DurableError::Invocation {
                    message: error.error_message.clone(),
                    termination_reason: TerminationReason::InvocationError,
                },
            ),
            None => Err(DurableError::invocation("Invoke failed with unknown error")),
        };
    }
    if checkpoint_result.is_stopped() {
        return Err(
            DurableError::Invocation {
                message: "Invoke was stopped externally".to_owned(),
                termination_reason: TerminationReason::InvocationError,
            },
        );
    }
    if checkpoint_result.is_terminal() {
        let status = checkpoint_result.status().unwrap();
        return Err(
            DurableError::Invocation {
                message: was_text("Invoke", status),
                termination_reason: TerminationReason::InvocationError,
            },
        );
    }
    Ok(None)
}

} // verus!
