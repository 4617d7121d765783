//! Promise combinators (all, all_settled, race, any) over several durable
//! futures, each run as one STEP operation. The futures run concurrently
//! outside; here is what their outcomes mean.
use vstd::prelude::*;
use vstd::string::*;
use crate::concurrency::{BatchItem, BatchItemStatus, BatchResult, CompletionReason};
use crate::context::{carries_identity, with_identity, OperationIdentifier};
use crate::error::{opt_view, DurableError, ErrorObject};
use crate::handlers::replay::{is_nondeterministic, is_stored_failure, nondeterministic_error, stored_failure_error};
use crate::operation::{OperationAction, OperationType, OperationUpdate};
use crate::state::CheckpointedResult;
use crate::text::{decimal, usize_to_decimal};

verus! {

broadcast use vstd::seq_lib::group_seq_properties;

/// The outcome of one future of a combinator.
#[derive(Debug, Clone)]
pub struct PromiseOutcome<T> {
    /// Index of the future
    pub index: usize,
    /// Whether the future succeeded
    pub succeeded: bool,
    /// The result if it succeeded
    pub result: Option<T>,
    /// The error if it failed
    pub error: Option<ErrorObject>,
}

/// Why a combinator completed.
#[derive(Debug, Clone, Copy, PartialEq, Eq, Structural)]
pub enum PromiseCompletionReason {
    /// Every future succeeded
    AllSucceeded,
    /// Every future settled
    AllSettled,
    /// The first future settled
    FirstSettled,
    /// The first future succeeded
    FirstSucceeded,
    /// Every future failed
    AllFailed,
    /// One future failed
    OneFailed,
}

/// The outcomes of a combinator's futures, with the winner when there is one.
#[derive(Debug, Clone)]
pub struct PromiseCombinatorResult<T> {
    /// Outcomes of the futures
    pub results: Vec<PromiseOutcome<T>>,
    /// Index of the winning future
    pub winner_index: Option<usize>,
    /// Why the combinator completed
    pub completion_reason: PromiseCompletionReason,
}

impl<T> PromiseOutcome<T> {
    /// A successful outcome.
    pub fn success(index: usize, result: T) -> (r: Self)
        ensures
            r == (PromiseOutcome { index, succeeded: true, result: Some(result), error: None }),
    {
        PromiseOutcome { index, succeeded: true, result: Some(result), error: None }
    }

    /// A failed outcome.
    pub fn failure(index: usize, error: ErrorObject) -> (r: Self)
        ensures
            r == (PromiseOutcome::<T> { index, succeeded: false, result: None, error: Some(error) }),
    {
        PromiseOutcome { index, succeeded: false, result: None, error: Some(error) }
    }
}

/// The error object is the one reported for `e`.
pub open spec fn reports(obj: ErrorObject, e: DurableError) -> bool {
    &&& obj.error_type@ == ErrorObject::type_of_error(e)
    &&& obj.error_message@ == ErrorObject::message_of_error(e)
    &&& opt_view(obj.stack_trace) == ErrorObject::stack_of_error(e)
}

/// Replay of a combinator: `Ok(None)` to run it, `Ok(Some(text))` to return the
/// stored result `text`, or the stored failure. A combinator that is neither
/// succeeded nor failed is run again.
pub fn combinator_replay(checkpoint_result: &CheckpointedResult, op_id: &OperationIdentifier) -> (r: Result<Option<String>, DurableError>)
    ensures
        match checkpoint_result.operation {
            None => r matches Ok(None),
            Some(op) => if op.operation_type != OperationType::Step {
                r matches Err(e) && is_nondeterministic(e, OperationType::Step, op.operation_type, op_id.operation_id@)
            } else if op.status is Succeeded && op.result_view() is Some {
                r matches Ok(Some(s)) && Some(s@) == op.result_view()
            } else if op.status is Failed {
                r matches Err(e) && is_stored_failure(e, op.error, "Promise combinator failed with unknown error"@)
            } else {
                r matches Ok(None)
            },
        },
{
    if !checkpoint_result.is_existent() {
        return Ok(None);
    }
    if let Some(op_type) = checkpoint_result.operation_type() {
        if op_type != OperationType::Step {
            return Err(nondeterministic_error(OperationType::Step, op_type, op_id.operation_id.as_str()));
        }
    }
    if checkpoint_result.is_succeeded() {
        if let Some(result_str) = checkpoint_result.result() {
            return Ok(Some(result_str.to_owned()));
        }
    }
    if checkpoint_result.is_failed() {
        return Err(stored_failure_error(checkpoint_result.error(), "Promise combinator failed with unknown error"));
    }
    Ok(None)
}

/// The START update of the combinator `op_id`, marked with the
/// `PromiseCombinator` sub-type.
pub fn combinator_start_update(op_id: &OperationIdentifier) -> (r: OperationUpdate)
    ensures
        carries_identity(r, *op_id),
        r.action == OperationAction::Start,
        r.operation_type == OperationType::Step,
        opt_view(r.sub_type) == Some("PromiseCombinator"@),
        r.result is None,
        r.error is None,
        r.wait_options is None && r.step_options is None && r.callback_options is None
            && r.chained_invoke_options is None && r.context_options is None,
{
    let update = with_identity(OperationUpdate::start(op_id.operation_id.as_str(), OperationType::Step), op_id);
    update.with_sub_type("PromiseCombinator")
}

/// The SUCCEED update of the combinator `op_id` carrying the serialized result.
pub fn combinator_succeed_update(op_id: &OperationIdentifier, serialized: String) -> (r: OperationUpdate)
    ensures
        carries_identity(r, *op_id),
        r.action == OperationAction::Succeed,
        r.operation_type == OperationType::Step,
        r.result == Some(serialized),
        r.error is None,
        r.has_no_options(),
{
    with_identity(OperationUpdate::succeed(op_id.operation_id.as_str(), OperationType::Step, Some(serialized)), op_id)
}

/// The FAIL update of the combinator `op_id` carrying `error`.
pub fn combinator_fail_update(op_id: &OperationIdentifier, error: ErrorObject) -> (r: OperationUpdate)
    ensures
        carries_identity(r, *op_id),
        r.action == OperationAction::Fail,
        r.operation_type == OperationType::Step,
        r.result is None,
        r.error == Some(error),
        r.has_no_options(),
{
    with_identity(OperationUpdate::fail(op_id.operation_id.as_str(), OperationType::Step, error), op_id)
}

/// The message of the error returned by `all` when future `index` failed with `e`.
pub open spec fn all_failure_message(index: nat, e: DurableError) -> Seq<char> {
    "Promise at index "@ + decimal(index) + " failed: "@ + e.display_view()
}

/// `all`: every result, in order, when every future succeeded. Otherwise the
/// first failure (by index) decides: the error object to checkpoint for it and
/// the `AllCombinatorError` user-code error to return.
#[verifier::loop_isolation(false)]
pub fn all_outcome<T>(results: Vec<Result<T, DurableError>>) -> (r: Result<Vec<T>, (ErrorObject, DurableError)>)
    ensures
        (forall|k: int| 0 <= k < results@.len() ==> #[trigger] results@[k] is Ok) <==> r is Ok,
        r matches Ok(v) ==> v@.len() == results@.len() && forall|k: int|
            0 <= k < results@.len() ==> results@[k] == Ok::<T, DurableError>(#[trigger] v@[k]),
        r matches Err((obj, e)) ==> exists|i: int| {
            &&& 0 <= i < results@.len()
            &&& forall|k: int| 0 <= k < i ==> #[trigger] results@[k] is Ok
            &&& #[trigger] results@[i] matches Err(failure) && reports(obj, failure) && (e matches DurableError::UserCode {
                message,
                error_type,
                stack_trace,
            } && message@ == all_failure_message(i as nat, failure) && error_type@ == "AllCombinatorError"@
                && stack_trace is None)
        },
{
    let ghost orig = results@;
    let n = results.len();
    let mut rest = results;
    let mut values: Vec<T> = Vec::new();
    let mut i: usize = 0;
    while i < n
        invariant
            n == orig.len(),
            i <= n,
            rest@ == orig.subrange(i as int, n as int),
            values@.len() == i,
            forall|k: int| 0 <= k < i ==> orig[k] == Ok::<T, DurableError>(#[trigger] values@[k]),
        decreases n - i,
    {
        let item = rest.remove(0);
        assert(item == orig[i as int]);
        match item {
            Ok(v) => {
                values.push(v);
            },
            Err(e) => {
                let obj = ErrorObject::from_durable_error(&e);
                let message = "Promise at index ".to_owned().concat(usize_to_decimal(i).as_str()).concat(
                    " failed: ",
                ).concat(e.display_text().as_str());
                let err = DurableError::UserCode {
                    message,
                    error_type: "AllCombinatorError".to_owned(),
                    stack_trace: None,
                };
                proof {
                    assert forall|k: int| 0 <= k < i implies #[trigger] orig[k] is Ok by {
                        assert(orig[k] == Ok::<T, DurableError>(values@[k]));
                    }
                    assert(orig[i as int] matches Err(failure) && reports(obj, failure));
                    assert(!(orig[i as int] is Ok));
                }
                return Err((obj, err));
            },
        }
        i = i + 1;
    }
    proof {
        assert forall|k: int| 0 <= k < orig.len() implies #[trigger] orig[k] is Ok by {
            assert(orig[k] == Ok::<T, DurableError>(values@[k]));
        }
    }
    Ok(values)
}

/// `all_settled`: one batch item per future, in index order, succeeded with its
/// value or failed with its error object, completed with `AllCompleted`.
pub fn all_settled_outcome<T>(results: Vec<Result<T, DurableError>>) -> (r: BatchResult<T>)
    ensures
        r.completion_reason == CompletionReason::AllCompleted,
        r.items@.len() == results@.len(),
        forall|k: int| 0 <= k < results@.len() ==> {
            &&& (#[trigger] r.items@[k]).index == k
            &&& results@[k] matches Ok(v) ==> r.items@[k].status == BatchItemStatus::Succeeded
                && r.items@[k].result == Some(v) && r.items@[k].error is None
            &&& results@[k] matches Err(e) ==> r.items@[k].status == BatchItemStatus::Failed
                && r.items@[k].result is None && (r.items@[k].error matches Some(obj) && reports(obj, e))
        },
{
    let ghost orig = results@;
    let n = results.len();
    let mut rest = results;
    let mut items: Vec<BatchItem<T>> = Vec::new();
    let mut i: usize = 0;
    while i < n
        invariant
            n == orig.len(),
            i <= n,
            rest@ == orig.subrange(i as int, n as int),
            items@.len() == i,
            forall|k: int| 0 <= k < i ==> {
                &&& (#[trigger] items@[k]).index == k
                &&& orig[k] matches Ok(v) ==> items@[k].status == BatchItemStatus::Succeeded
                    && items@[k].result == Some(v) && items@[k].error is None
                &&& orig[k] matches Err(e) ==> items@[k].status == BatchItemStatus::Failed
                    && items@[k].result is None && (items@[k].error matches Some(obj) && reports(obj, e))
            },
        decreases n - i,
    {
        let item = rest.remove(0);
        assert(item == orig[i as int]);
        match item {
            Ok(v) => {
                items.push(BatchItem::succeeded(i, v));
            },
            Err(e) => {
                items.push(BatchItem::failed(i, ErrorObject::from_durable_error(&e)));
            },
        }
        i = i + 1;
    }
    BatchResult::new(items, CompletionReason::AllCompleted)
}

/// `race`: the first future to settle decides. Without futures: a validation
/// failure; without any settled future: an internal failure. A failure gives the
/// error object to checkpoint and the error to return.
pub fn race_outcome<T>(total: usize, first: Option<Result<T, DurableError>>) -> (r: Result<T, (ErrorObject, DurableError)>)
    ensures
        total == 0 ==> (r matches Err((obj, DurableError::Validation { message }))
            && obj.error_type@ == "ValidationError"@ && obj.error_message@ == "race requires at least one future"@
            && message@ == "race requires at least one future"@),
        total > 0 ==> match first {
            Some(Ok(v)) => r == Ok::<T, (ErrorObject, DurableError)>(v),
            Some(Err(e)) => r matches Err((obj, e2)) && reports(obj, e) && e2 == e,
            None => r matches Err((obj, e2)) && obj.error_type@ == "InternalError"@
                && obj.error_message@ == "No futures completed"@
                && (e2 matches DurableError::Execution { message, .. } && message@ == "No futures completed"@),
        },
{
    if total == 0 {
        return Err(
            (
                ErrorObject::new("ValidationError", "race requires at least one future"),
                DurableError::validation("race requires at least one future"),
            ),
        );
    }
    match first {
        Some(Ok(v)) => Ok(v),
        Some(Err(e)) => {
            let obj = ErrorObject::from_durable_error(&e);
            Err((obj, e))
        },
        None => Err(
            (ErrorObject::new("InternalError", "No futures completed"), DurableError::execution("No futures completed")),
        ),
    }
}

/// The `; `-separated join of the lines.
pub open spec fn join_lines(lines: Seq<Seq<char>>) -> Seq<char>
    decreases lines.len(),
{
    if lines.len() == 0 {
        Seq::empty()
    } else if lines.len() == 1 {
        lines[0]
    } else {
        join_lines(lines.drop_last()) + "; "@ + lines.last()
    }
}

/// The line describing a failed future, none for a successful one.
pub open spec fn failure_line<T>(entry: (usize, Result<T, DurableError>)) -> Option<Seq<char>> {
    match entry.1 {
        Ok(_) => None,
        Err(e) => Some("Future "@ + decimal(entry.0 as nat) + ": "@ + e.display_view()),
    }
}

/// The message of the error returned by `any` when all `total` futures failed.
pub open spec fn any_failure_message<T>(total: nat, settled: Seq<(usize, Result<T, DurableError>)>) -> Seq<char> {
    "All "@ + decimal(total) + " futures failed: "@ + join_lines(
        settled.filter_map(|entry: (usize, Result<T, DurableError>)| failure_line(entry)),
    )
}

/// `any`: the first future (in settling order) that succeeded decides. Without
/// futures: a validation failure. When none succeeded: an `AnyCombinatorError`
/// listing every failure in settling order. `settled` holds each future's index
/// and outcome in the order the futures settled.
#[verifier::loop_isolation(false)]
pub fn any_outcome<T>(total: usize, settled: Vec<(usize, Result<T, DurableError>)>) -> (r: Result<T, (ErrorObject, DurableError)>)
    ensures
        total == 0 ==> (r matches Err((obj, DurableError::Validation { message }))
            && obj.error_type@ == "ValidationError"@ && obj.error_message@ == "any requires at least one future"@
            && message@ == "any requires at least one future"@),
        total > 0 ==> {
            &&& (exists|k: int| 0 <= k < settled@.len() && #[trigger] settled@[k].1 is Ok) <==> r is Ok
            &&& r matches Ok(v) ==> exists|i: int| {
                &&& 0 <= i < settled@.len()
                &&& forall|k: int| 0 <= k < i ==> #[trigger] settled@[k].1 is Err
                &&& #[trigger] settled@[i].1 == Ok::<T, DurableError>(v)
            }
            &&& r matches Err((obj, e)) ==> {
                &&& obj.error_type@ == "AnyCombinatorError"@
                &&& obj.error_message@ == any_failure_message(total as nat, settled@)
                &&& e matches DurableError::UserCode { message, error_type, stack_trace }
                    && message@ == any_failure_message(total as nat, settled@)
                    && error_type@ == "AnyCombinatorError"@ && stack_trace is None
            }
        },
{
    if total == 0 {
        return Err(
            (
                ErrorObject::new("ValidationError", "any requires at least one future"),
                DurableError::validation("any requires at least one future"),
            ),
        );
    }
    let ghost orig = settled@;
    let ghost f = |entry: (usize, Result<T, DurableError>)| failure_line(entry);
    let n = settled.len();
    let mut rest = settled;
    let mut joined = String::new();
    let mut has_line = false;
    let mut i: usize = 0;
    while i < n
        invariant
            n == orig.len(),
            i <= n,
            rest@ == orig.subrange(i as int, n as int),
            f == (|entry: (usize, Result<T, DurableError>)| failure_line(entry)),
            joined@ == join_lines(orig.take(i as int).filter_map(f)),
            has_line == (orig.take(i as int).filter_map(f).len() > 0),
            forall|k: int| 0 <= k < i ==> #[trigger] orig[k].1 is Err,
        decreases n - i,
    {
        let (index, outcome) = rest.remove(0);
        assert((index, outcome) == orig[i as int]);
        proof {
            orig.lemma_filter_map_take_succ(f, i as int);
        }
        match outcome {
            Ok(v) => {
                assert(orig[i as int].1 == Ok::<T, DurableError>(v));
                assert(orig[i as int].1 is Ok);
                return Ok(v);
            },
            Err(e) => {
                let line = "Future ".to_owned().concat(usize_to_decimal(index).as_str()).concat(": ").concat(
                    e.display_text().as_str(),
                );
                let ghost lines = orig.take(i as int).filter_map(f);
                proof {
                    assert(lines.push(line@).drop_last() =~= lines);
                }
                if !has_line {
                    joined = line;
                } else {
                    joined.append("; ");
                    joined.append(line.as_str());
                }
                has_line = true;
            },
        }
        i = i + 1;
    }
    proof {
        assert(orig.take(n as int) =~= orig);
    }
    let message = "All ".to_owned().concat(usize_to_decimal(total).as_str()).concat(" futures failed: ").concat(
        joined.as_str(),
    );
    Err(
        (
            ErrorObject::new("AnyCombinatorError", message.as_str()),
            DurableError::UserCode { message, error_type: "AnyCombinatorError".to_owned(), stack_trace: None },
        ),
    )
}

} // verus!
