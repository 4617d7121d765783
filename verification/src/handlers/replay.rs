//! Replay detection shared by the operation handlers: whether a checkpoint
//! exists, whether it matches the operation the code asks for, and what a
//! stored outcome means for the caller.
use vstd::prelude::*;
use vstd::string::*;
use crate::error::{opt_view, DurableError, ErrorObject, TerminationReason};
use crate::operation::{
    details_hold_result, law_details_result_is_the_result, Operation, OperationAction, OperationStatus,
    OperationType, OperationUpdate,
};
use crate::state::CheckpointedResult;

verus! {

/// Outcome of replay detection.
#[derive(Debug)]
pub enum ReplayResult<T> {
    /// The operation was found in the checkpoint; here is its stored result.
    Replayed(T),
    /// No checkpoint: execute the operation normally.
    NotFound,
    /// The operation was started but has not completed: continue execution.
    InProgress,
}

/// Message of the error raised when replay finds `found` where `expected` was asked for.
pub open spec fn nondeterministic_message(expected: OperationType, found: OperationType, id: Seq<char>) -> Seq<char> {
    "Expected "@ + expected.name_view() + " operation but found "@ + found.name_view()
        + " at operation_id "@ + id
}

/// `e` is the non-determinism error for this mismatch at operation `id`.
pub open spec fn is_nondeterministic(e: DurableError, expected: OperationType, found: OperationType, id: Seq<char>) -> bool {
    e matches DurableError::NonDeterministic { message, operation_id }
        && message@ == nondeterministic_message(expected, found, id)
        && opt_view(operation_id) == Some(id)
}

/// `e` is the user-code error that carries the stored error object `obj`.
pub open spec fn is_user_code_copy(e: DurableError, obj: ErrorObject) -> bool {
    e matches DurableError::UserCode { message, error_type, stack_trace }
        && message@ == obj.error_message@ && error_type@ == obj.error_type@
        && opt_view(stack_trace) == opt_view(obj.stack_trace)
}

/// `e` is an Execution error with this message and reason.
pub open spec fn is_execution_error(e: DurableError, msg: Seq<char>, reason: TerminationReason) -> bool {
    e matches DurableError::Execution { message, termination_reason }
        && message@ == msg && termination_reason == reason
}

/// `e` is an Invocation error with this message (reason `InvocationError`).
pub open spec fn is_invocation_error(e: DurableError, msg: Seq<char>) -> bool {
    e matches DurableError::Invocation { message, termination_reason }
        && message@ == msg && termination_reason == TerminationReason::InvocationError
}

/// `e` is the error for a stored failure: the stored error object as a user-code
/// error, or, without one, an Execution error with the `unknown` message.
pub open spec fn is_stored_failure(e: DurableError, stored: Option<ErrorObject>, unknown: Seq<char>) -> bool {
    match stored {
        Some(obj) => is_user_code_copy(e, obj),
        None => is_execution_error(e, unknown, TerminationReason::ExecutionError),
    }
}

/// Whether a replay outcome of a handler counts as a replay of the operation:
/// a stored result, or an error other than a non-determinism error.
pub fn counts_as_replay(outcome: &Result<Option<String>, DurableError>) -> (r: bool)
    ensures
        r == (*outcome matches Ok(Some(_)) || (*outcome matches Err(e) && !(e is NonDeterministic))),
{
    match outcome {
        Ok(Some(_)) => true,
        Ok(None) => false,
        Err(DurableError::NonDeterministic { .. }) => false,
        Err(_) => true,
    }
}

/// Builds the non-determinism error for a type mismatch at `operation_id`.
pub fn nondeterministic_error(expected: OperationType, found: OperationType, operation_id: &str) -> (r: DurableError)
    ensures
        is_nondeterministic(r, expected, found, operation_id@),
{
    let message = "Expected ".to_owned().concat(expected.name_str()).concat(" operation but found ").concat(
        found.name_str(),
    ).concat(" at operation_id ").concat(operation_id);
    DurableError::NonDeterministic { message, operation_id: Some(operation_id.to_owned()) }
}

/// The error for a stored failure (see `is_stored_failure`).
pub fn stored_failure_error(stored: Option<&ErrorObject>, unknown: &str) -> (r: DurableError)
    ensures
        is_stored_failure(
            r,
            match stored {
                Some(o) => Some(*o),
                None => None,
            },
            unknown@,
        ),
{
    match stored {
        Some(obj) => DurableError::from_error_object(obj),
        None => DurableError::execution(unknown),
    }
}

/// `prefix` followed by " was " and the status name.
pub open spec fn was_message(prefix: Seq<char>, status: OperationStatus) -> Seq<char> {
    prefix + " was "@ + status.name_view()
}

/// Builds `prefix` + " was " + the status name.
pub fn was_text(prefix: &str, status: OperationStatus) -> (r: String)
    ensures
        r@ == was_message(prefix@, status),
{
    prefix.to_owned().concat(" was ").concat(status.name_str())
}

/// What replay detection without the stored result gives (see
/// `check_replay_status`).
pub open spec fn replays_status_as(
    checkpoint_result: CheckpointedResult,
    expected_type: OperationType,
    operation_id: Seq<char>,
    r: Result<bool, DurableError>,
) -> bool {
    match checkpoint_result.operation {
        None => r == Ok::<bool, DurableError>(false),
        Some(op) => if op.operation_type != expected_type {
            r matches Err(e) && is_nondeterministic(e, expected_type, op.operation_type, operation_id)
        } else if op.status is Succeeded {
            r == Ok::<bool, DurableError>(true)
        } else if op.status is Failed {
            r matches Err(e) && is_stored_failure(e, op.error, "Operation failed with unknown error"@)
        } else if op.status.spec_is_terminal() {
            r matches Err(e) && is_execution_error(
                e,
                was_message("Operation"@, op.status),
                TerminationReason::StepInterrupted,
            )
        } else {
            r == Ok::<bool, DurableError>(false)
        },
    }
}

/// Replay detection by status alone: an operation of the type asked for is
/// replayed (`Ok(true)`) exactly when it succeeded, runs on (`Ok(false)`)
/// exactly when it is Started, Pending or Ready, and is an error otherwise; a
/// cancelled, timed-out or stopped one gives "Operation was <status>".
pub proof fn law_status_replay_by_status(
    op: Operation,
    operation_id: Seq<char>,
    r: Result<bool, DurableError>,
)
    requires
        replays_status_as(CheckpointedResult { operation: Some(op) }, op.operation_type, operation_id, r),
    ensures
        (r == Ok::<bool, DurableError>(true)) <==> op.status is Succeeded,
        (r == Ok::<bool, DurableError>(false)) <==> (op.status is Started || op.status is Pending || op.status is Ready),
        op.status is Cancelled || op.status is TimedOut || op.status is Stopped ==> (r matches Err(
            DurableError::Execution { message, termination_reason },
        ) && message@ == "Operation was "@ + op.status.name_view()
            && termination_reason == TerminationReason::StepInterrupted),
{
    reveal_strlit("Operation");
    reveal_strlit(" was ");
    reveal_strlit("Operation was ");
    assert("Operation"@ + " was "@ =~= "Operation was "@);
    assert("Operation"@ + " was "@ + op.status.name_view() =~= "Operation was "@ + op.status.name_view());
}

/// Checks for replay without looking at the stored result's content.
///
/// `Ok(true)` when the operation succeeded; `Ok(false)` when there is no checkpoint
/// or the operation is still in progress; an error on a type mismatch, a stored
/// failure, or another terminal status.
pub fn check_replay_status(
    checkpoint_result: &CheckpointedResult,
    expected_type: OperationType,
    operation_id: &str,
) -> (r: Result<bool, DurableError>)
    ensures
        replays_status_as(*checkpoint_result, expected_type, operation_id@, r),
{
    if !checkpoint_result.is_existent() {
        return Ok(false);
    }
    if let Some(op_type) = checkpoint_result.operation_type() {
        if op_type != expected_type {
            return Err(nondeterministic_error(expected_type, op_type, operation_id));
        }
    }
    if checkpoint_result.is_succeeded() {
        return Ok(true);
    }
    if checkpoint_result.is_failed() {
        return Err(stored_failure_error(checkpoint_result.error(), "Operation failed with unknown error"));
    }
    if checkpoint_result.is_terminal() {
        let status = checkpoint_result.status().unwrap();
        return Err(
            DurableError::Execution {
                message: was_text("Operation", status),
                termination_reason: TerminationReason::StepInterrupted,
            },
        );
    }
    Ok(false)
}

/// What replay of a stored result gives (see `check_replay_stored`).
pub open spec fn replays_stored_as(
    checkpoint_result: CheckpointedResult,
    expected_type: OperationType,
    operation_id: Seq<char>,
    r: Result<ReplayResult<String>, DurableError>,
) -> bool {
    match checkpoint_result.operation {
        None => r matches Ok(ReplayResult::NotFound),
        Some(op) => if op.operation_type != expected_type {
            r matches Err(e) && is_nondeterministic(e, expected_type, op.operation_type, operation_id)
        } else if op.status is Succeeded && op.result_view() is Some {
            r matches Ok(ReplayResult::Replayed(s)) && Some(s@) == op.result_view()
        } else if op.status is Failed {
            r matches Err(e) && is_stored_failure(e, op.error, "Operation failed with unknown error"@)
        } else if op.status.spec_is_terminal() {
            r matches Err(e) && is_execution_error(
                e,
                was_message("Operation"@, op.status),
                TerminationReason::StepInterrupted,
            )
        } else {
            r matches Ok(ReplayResult::InProgress)
        },
    }
}

/// Replay round trip: an operation that succeeded with a stored result, asked
/// for again under its own type, gives back exactly that result.
pub proof fn law_replay_returns_checkpointed_result(
    op: Operation,
    operation_id: Seq<char>,
    r: Result<ReplayResult<String>, DurableError>,
)
    requires
        op.status is Succeeded,
        op.result_view() is Some,
        replays_stored_as(CheckpointedResult { operation: Some(op) }, op.operation_type, operation_id, r),
    ensures
        r matches Ok(ReplayResult::Replayed(s)) && Some(s@) == op.result_view(),
{
}

/// The operation is the service's record of the SUCCEED update `u`: same ID and
/// type, succeeded, holding the update's result.
pub open spec fn records_success(op: Operation, u: OperationUpdate) -> bool {
    &&& u.action == OperationAction::Succeed
    &&& op.operation_id@ == u.operation_id@
    &&& op.operation_type == u.operation_type
    &&& op.status is Succeeded
    &&& op.result_view() == opt_view(u.result)
}

/// What a replay reads back of a write: once a SUCCEED update carrying a result
/// is recorded, replaying the operation under its type gives that result.
pub proof fn law_checkpointed_success_replays(
    u: OperationUpdate,
    op: Operation,
    r: Result<ReplayResult<String>, DurableError>,
)
    requires
        u.result is Some,
        records_success(op, u),
        replays_stored_as(CheckpointedResult { operation: Some(op) }, u.operation_type, u.operation_id@, r),
    ensures
        r matches Ok(ReplayResult::Replayed(s)) && Some(s@) == opt_view(u.result),
{
}

/// Non-determinism detection: a checkpointed operation of another type than the
/// one asked for raises a non-determinism error naming both types and the
/// operation, whatever its status.
pub proof fn law_type_mismatch_is_nondeterministic(
    op: Operation,
    expected_type: OperationType,
    operation_id: Seq<char>,
    r: Result<ReplayResult<String>, DurableError>,
)
    requires
        op.operation_type != expected_type,
        replays_stored_as(CheckpointedResult { operation: Some(op) }, expected_type, operation_id, r),
    ensures
        r matches Err(DurableError::NonDeterministic { message, operation_id: id })
            && message@ == nondeterministic_message(expected_type, op.operation_type, operation_id)
            && opt_view(id) == Some(operation_id),
{
}

/// A checkpointed operation of the type asked for never raises a
/// non-determinism error.
pub proof fn law_matching_type_is_deterministic(
    op: Operation,
    operation_id: Seq<char>,
    r: Result<ReplayResult<String>, DurableError>,
)
    requires
        replays_stored_as(CheckpointedResult { operation: Some(op) }, op.operation_type, operation_id, r),
    ensures
        !(r matches Err(DurableError::NonDeterministic { .. })),
{
}

/// A success recorded in the details of the operation's own type replays
/// that result: a chained invoke's, a callback's, a step's or a child
/// context's stored result comes back, asked for under the operation's type.
pub proof fn law_details_success_replays(
    op: Operation,
    result: String,
    operation_id: Seq<char>,
    r: Result<ReplayResult<String>, DurableError>,
)
    requires
        op.status is Succeeded,
        details_hold_result(op, result),
        replays_stored_as(CheckpointedResult { operation: Some(op) }, op.operation_type, operation_id, r),
    ensures
        r matches Ok(ReplayResult::Replayed(s)) && s@ == result@,
{
    law_details_result_is_the_result(op, result);
}

/// An operation that was cancelled, timed out or stopped is not replayed as
/// running: asked for under its own type it gives the Execution error "Operation
/// was <status>" with reason `StepInterrupted`.
pub proof fn law_interrupted_operation_is_an_error(
    op: Operation,
    operation_id: Seq<char>,
    r: Result<ReplayResult<String>, DurableError>,
)
    requires
        op.status is Cancelled || op.status is TimedOut || op.status is Stopped,
        replays_stored_as(CheckpointedResult { operation: Some(op) }, op.operation_type, operation_id, r),
    ensures
        r matches Err(DurableError::Execution { message, termination_reason })
            && message@ == "Operation was "@ + op.status.name_view()
            && termination_reason == TerminationReason::StepInterrupted,
{
    reveal_strlit("Operation");
    reveal_strlit(" was ");
    reveal_strlit("Operation was ");
    assert("Operation"@ + " was "@ =~= "Operation was "@);
    assert("Operation"@ + " was "@ + op.status.name_view() =~= "Operation was "@ + op.status.name_view());
}

/// Replay reports an operation as still in progress only when its status is
/// Started, Pending or Ready; any other status ends in a result or an error.
pub proof fn law_only_running_operations_are_in_progress(
    op: Operation,
    expected_type: OperationType,
    operation_id: Seq<char>,
    r: Result<ReplayResult<String>, DurableError>,
)
    requires
        replays_stored_as(CheckpointedResult { operation: Some(op) }, expected_type, operation_id, r),
        r matches Ok(ReplayResult::InProgress),
    ensures
        op.operation_type == expected_type,
        op.status is Started || op.status is Pending || op.status is Ready,
{
}

/// A failed operation replays as an error: the stored error object as a
/// user-code error, or without one the Execution error for an unknown failure.
pub proof fn law_failed_operation_replays_its_error(
    op: Operation,
    operation_id: Seq<char>,
    r: Result<ReplayResult<String>, DurableError>,
)
    requires
        op.status is Failed,
        replays_stored_as(CheckpointedResult { operation: Some(op) }, op.operation_type, operation_id, r),
    ensures
        match op.error {
            Some(obj) => r matches Err(DurableError::UserCode { message, error_type, .. })
                && message@ == obj.error_message@ && error_type@ == obj.error_type@,
            None => r matches Err(DurableError::Execution { message, .. })
                && message@ == "Operation failed with unknown error"@,
        },
{
}

/// Checks for replay and hands back the stored result text of a succeeded
/// operation (to be deserialized by the caller).
///
/// `NotFound` without a checkpoint; `Replayed(text)` when the operation succeeded
/// with a stored result; `InProgress` when it is still running; an error on a type
/// mismatch, a stored failure, or another terminal status (a success without a
/// stored result counts as such).
pub fn check_replay_stored(
    checkpoint_result: &CheckpointedResult,
    expected_type: OperationType,
    operation_id: &str,
) -> (r: Result<ReplayResult<String>, DurableError>)
    ensures
        replays_stored_as(*checkpoint_result, expected_type, operation_id@, r),
{
    if !checkpoint_result.is_existent() {
        return Ok(ReplayResult::NotFound);
    }
    if let Some(op_type) = checkpoint_result.operation_type() {
        if op_type != expected_type {
            return Err(nondeterministic_error(expected_type, op_type, operation_id));
        }
    }
    if checkpoint_result.is_succeeded() {
        if let Some(result_str) = checkpoint_result.result() {
            return Ok(ReplayResult::Replayed(result_str.to_owned()));
        }
    }
    if checkpoint_result.is_failed() {
        return Err(stored_failure_error(checkpoint_result.error(), "Operation failed with unknown error"));
    }
    if checkpoint_result.is_terminal() {
        let status = checkpoint_result.status().unwrap();
        return Err(
            DurableError::Execution {
                message: was_text("Operation", status),
                termination_reason: TerminationReason::StepInterrupted,
            },
        );
    }
    Ok(ReplayResult::InProgress)
}

} // verus!
