//! Completion logic of concurrent operations (map, parallel): progress
//! counters, the completion criteria, and the per-item and overall results.
use vstd::prelude::*;
use crate::error::{opt_view, DurableError, ErrorObject, TerminationReason};
use crate::handlers::replay::{is_execution_error, is_user_code_copy};

verus! {

broadcast use vstd::seq_lib::group_seq_properties;

/// Tracks the progress of a set of concurrent tasks.
///
/// Every finished task is counted as a success or a failure; the completed count
/// is always their sum. Suspended tasks are counted apart.
#[derive(Debug)]
pub struct ExecutionCounters {
    total_tasks: usize,
    success_count: usize,
    failure_count: usize,
    completed_count: usize,
    suspended_count: usize,
}

/// Why a concurrent operation completed.
#[derive(Debug, Clone, Copy, PartialEq, Eq, Structural)]
pub enum CompletionReason {
    /// All tasks completed (success or failure)
    AllCompleted,
    /// Minimum successful count was reached
    MinSuccessfulReached,
    /// Failure tolerance was exceeded
    FailureToleranceExceeded,
    /// Some tasks suspended (waiting for external events)
    Suspended,
}

impl CompletionReason {
    /// The name shown for this reason.
    pub open spec fn name_view(self) -> Seq<char> {
        match self {
            CompletionReason::AllCompleted => "AllCompleted"@,
            CompletionReason::MinSuccessfulReached => "MinSuccessfulReached"@,
            CompletionReason::FailureToleranceExceeded => "FailureToleranceExceeded"@,
            CompletionReason::Suspended => "Suspended"@,
        }
    }

    /// The name shown for this reason, as an owned string.
    pub fn to_display_string(&self) -> (r: String)
        ensures
            r@ == self.name_view(),
    {
        match self {
            CompletionReason::AllCompleted => "AllCompleted".to_owned(),
            CompletionReason::MinSuccessfulReached => "MinSuccessfulReached".to_owned(),
            CompletionReason::FailureToleranceExceeded => "FailureToleranceExceeded".to_owned(),
            CompletionReason::Suspended => "Suspended".to_owned(),
        }
    }
}

/// Whether the failure tolerance is exceeded: more failures than the tolerated
/// count, or the tolerated percentage exceeded.
pub open spec fn tolerance_exceeded(failures: nat, tolerated_failure_count: Option<usize>, percentage_exceeded: bool) -> bool {
    (tolerated_failure_count matches Some(max) && failures > max) || percentage_exceeded
}

/// The completion criteria applied in order: the minimum number of successes,
/// then the failure tolerance, then whether every task finished (suspended if any
/// task suspended before all completed).
pub open spec fn completion_decision(
    total: nat,
    successes: nat,
    failures: nat,
    suspended: nat,
    min_successful: Option<usize>,
    tolerated_failure_count: Option<usize>,
    percentage_exceeded: bool,
) -> Option<CompletionReason> {
    let completed = successes + failures;
    if min_successful matches Some(m) && successes >= m {
        Some(CompletionReason::MinSuccessfulReached)
    } else if tolerance_exceeded(failures, tolerated_failure_count, percentage_exceeded) {
        Some(CompletionReason::FailureToleranceExceeded)
    } else if completed + suspended >= total {
        if suspended > 0 && completed < total {
            Some(CompletionReason::Suspended)
        } else {
            Some(CompletionReason::AllCompleted)
        }
    } else {
        None
    }
}

/// Once `min_successful` tasks have succeeded the operation completes with
/// `MinSuccessfulReached`, whatever the other tasks did.
pub proof fn law_min_successful_reached(
    total: nat,
    successes: nat,
    failures: nat,
    suspended: nat,
    min_successful: usize,
    tolerated_failure_count: Option<usize>,
    percentage_exceeded: bool,
)
    requires
        successes >= min_successful,
    ensures
        completion_decision(
            total,
            successes,
            failures,
            suspended,
            Some(min_successful),
            tolerated_failure_count,
            percentage_exceeded,
        ) == Some(CompletionReason::MinSuccessfulReached),
{
}

/// Short of the minimum of successes, more failures than tolerated complete
/// the operation with `FailureToleranceExceeded`.
pub proof fn law_failure_tolerance_exceeded(
    total: nat,
    successes: nat,
    failures: nat,
    suspended: nat,
    min_successful: Option<usize>,
    tolerated_failure_count: usize,
    percentage_exceeded: bool,
)
    requires
        !(min_successful matches Some(m) && successes >= m),
        failures > tolerated_failure_count,
    ensures
        completion_decision(
            total,
            successes,
            failures,
            suspended,
            min_successful,
            Some(tolerated_failure_count),
            percentage_exceeded,
        ) == Some(CompletionReason::FailureToleranceExceeded),
{
}

/// Short of the minimum of successes, an exceeded failure percentage
/// completes the operation with `FailureToleranceExceeded`, however few
/// failures there are against the tolerated count and however many tasks are
/// still running.
pub proof fn law_failure_percentage_exceeded(
    total: nat,
    successes: nat,
    failures: nat,
    suspended: nat,
    min_successful: Option<usize>,
    tolerated_failure_count: Option<usize>,
)
    requires
        !(min_successful matches Some(m) && successes >= m),
    ensures
        completion_decision(total, successes, failures, suspended, min_successful, tolerated_failure_count, true)
            == Some(CompletionReason::FailureToleranceExceeded),
{
}

/// When no criterion applies and every task completed (none suspended), the
/// operation completes with `AllCompleted`.
pub proof fn law_all_completed(
    total: nat,
    successes: nat,
    failures: nat,
    min_successful: Option<usize>,
    tolerated_failure_count: Option<usize>,
    percentage_exceeded: bool,
)
    requires
        !(min_successful matches Some(m) && successes >= m),
        !tolerance_exceeded(failures, tolerated_failure_count, percentage_exceeded),
        successes + failures == total,
    ensures
        completion_decision(
            total,
            successes,
            failures,
            0,
            min_successful,
            tolerated_failure_count,
            percentage_exceeded,
        ) == Some(CompletionReason::AllCompleted),
{
}

/// When no criterion applies and every task either completed or suspended,
/// with at least one suspended, the operation completes with `Suspended`.
pub proof fn law_suspended(
    total: nat,
    successes: nat,
    failures: nat,
    suspended: nat,
    min_successful: Option<usize>,
    tolerated_failure_count: Option<usize>,
    percentage_exceeded: bool,
)
    requires
        !(min_successful matches Some(m) && successes >= m),
        !tolerance_exceeded(failures, tolerated_failure_count, percentage_exceeded),
        suspended > 0,
        successes + failures + suspended == total,
    ensures
        completion_decision(
            total,
            successes,
            failures,
            suspended,
            min_successful,
            tolerated_failure_count,
            percentage_exceeded,
        ) == Some(CompletionReason::Suspended),
{
}

/// While tasks are still running and no criterion applies, the operation does
/// not complete.
pub proof fn law_running_does_not_complete(
    total: nat,
    successes: nat,
    failures: nat,
    suspended: nat,
    min_successful: Option<usize>,
    tolerated_failure_count: Option<usize>,
    percentage_exceeded: bool,
)
    requires
        !(min_successful matches Some(m) && successes >= m),
        !tolerance_exceeded(failures, tolerated_failure_count, percentage_exceeded),
        successes + failures + suspended < total,
    ensures
        completion_decision(
            total,
            successes,
            failures,
            suspended,
            min_successful,
            tolerated_failure_count,
            percentage_exceeded,
        ) is None,
{
}

impl ExecutionCounters {
    #[verifier::type_invariant]
    spec fn counts_consistent(self) -> bool {
        &&& self.completed_count == self.success_count + self.failure_count
        &&& self.completed_count + self.suspended_count <= usize::MAX
    }

    /// Total number of tasks.
    pub closed spec fn spec_total(self) -> nat {
        self.total_tasks as nat
    }

    /// Number of successful tasks.
    pub closed spec fn spec_success(self) -> nat {
        self.success_count as nat
    }

    /// Number of failed tasks.
    pub closed spec fn spec_failure(self) -> nat {
        self.failure_count as nat
    }

    /// Number of completed tasks.
    pub closed spec fn spec_completed(self) -> nat {
        self.completed_count as nat
    }

    /// Number of suspended tasks.
    pub closed spec fn spec_suspended(self) -> nat {
        self.suspended_count as nat
    }

    /// Counters for `total_tasks` tasks, none of them finished.
    pub fn new(total_tasks: usize) -> (r: Self)
        ensures
            r.spec_total() == total_tasks,
            r.spec_success() == 0,
            r.spec_failure() == 0,
            r.spec_completed() == 0,
            r.spec_suspended() == 0,
    {
        ExecutionCounters {
            total_tasks,
            success_count: 0,
            failure_count: 0,
            completed_count: 0,
            suspended_count: 0,
        }
    }

    /// Records a successful task and returns the new success count.
    pub fn complete_task(&mut self) -> (r: usize)
        requires
            old(self).spec_completed() + old(self).spec_suspended() < usize::MAX,
        ensures
            final(self).spec_success() == old(self).spec_success() + 1,
            final(self).spec_failure() == old(self).spec_failure(),
            final(self).spec_completed() == old(self).spec_completed() + 1,
            final(self).spec_suspended() == old(self).spec_suspended(),
            final(self).spec_total() == old(self).spec_total(),
            r == final(self).spec_success(),
    {
        proof {
            use_type_invariant(&*self);
        }
        let completed = self.completed_count + 1;
        let successes = self.success_count + 1;
        *self = ExecutionCounters {
            total_tasks: self.total_tasks,
            success_count: successes,
            failure_count: self.failure_count,
            completed_count: completed,
            suspended_count: self.suspended_count,
        };
        successes
    }

    /// Records a failed task and returns the new failure count.
    pub fn fail_task(&mut self) -> (r: usize)
        requires
            old(self).spec_completed() + old(self).spec_suspended() < usize::MAX,
        ensures
            final(self).spec_success() == old(self).spec_success(),
            final(self).spec_failure() == old(self).spec_failure() + 1,
            final(self).spec_completed() == old(self).spec_completed() + 1,
            final(self).spec_suspended() == old(self).spec_suspended(),
            final(self).spec_total() == old(self).spec_total(),
            r == final(self).spec_failure(),
    {
        proof {
            use_type_invariant(&*self);
        }
        let completed = self.completed_count + 1;
        let failures = self.failure_count + 1;
        *self = ExecutionCounters {
            total_tasks: self.total_tasks,
            success_count: self.success_count,
            failure_count: failures,
            completed_count: completed,
            suspended_count: self.suspended_count,
        };
        failures
    }

    /// Records a suspended task and returns the new suspended count.
    pub fn suspend_task(&mut self) -> (r: usize)
        requires
            old(self).spec_completed() + old(self).spec_suspended() < usize::MAX,
        ensures
            final(self).spec_success() == old(self).spec_success(),
            final(self).spec_failure() == old(self).spec_failure(),
            final(self).spec_completed() == old(self).spec_completed(),
            final(self).spec_suspended() == old(self).spec_suspended() + 1,
            final(self).spec_total() == old(self).spec_total(),
            r == final(self).spec_suspended(),
    {
        proof {
            use_type_invariant(&*self);
        }
        let suspended = self.suspended_count + 1;
        self.suspended_count = suspended;
        suspended
    }

    /// Total number of tasks.
    pub fn total_tasks(&self) -> (r: usize)
        ensures
            r == self.spec_total(),
    {
        self.total_tasks
    }

    /// Current success count.
    pub fn success_count(&self) -> (r: usize)
        ensures
            r == self.spec_success(),
    {
        self.success_count
    }

    /// Current failure count.
    pub fn failure_count(&self) -> (r: usize)
        ensures
            r == self.spec_failure(),
    {
        self.failure_count
    }

    /// Current completed count (successes plus failures).
    pub fn completed_count(&self) -> (r: usize)
        ensures
            r == self.spec_completed(),
            r == self.spec_success() + self.spec_failure(),
    {
        proof {
            use_type_invariant(self);
        }
        self.completed_count
    }

    /// Current suspended count.
    pub fn suspended_count(&self) -> (r: usize)
        ensures
            r == self.spec_suspended(),
    {
        self.suspended_count
    }

    /// Number of tasks neither completed nor suspended (zero if more have
    /// finished than there are tasks).
    pub fn pending_count(&self) -> (r: usize)
        ensures
            r == if self.spec_completed() + self.spec_suspended() >= self.spec_total() {
                0
            } else {
                self.spec_total() - self.spec_completed() - self.spec_suspended()
            },
    {
        proof {
            use_type_invariant(self);
        }
        let total = self.total_tasks;
        let done = self.completed_count + self.suspended_count;
        total.saturating_sub(done)
    }

    /// Whether at least `min_successful` tasks succeeded.
    pub fn is_min_successful_reached(&self, min_successful: usize) -> (r: bool)
        ensures
            r == (self.spec_success() >= min_successful),
    {
        self.success_count >= min_successful
    }

    /// Whether the failure tolerance is exceeded: more failures than
    /// `tolerated_failure_count`, or `failure_percentage_exceeded`, which the
    /// caller computes as whether there are tasks and the fraction of failed tasks
    /// exceeds the tolerated percentage.
    pub fn is_failure_tolerance_exceeded(
        &self,
        tolerated_failure_count: Option<usize>,
        failure_percentage_exceeded: bool,
    ) -> (r: bool)
        ensures
            r == tolerance_exceeded(self.spec_failure(), tolerated_failure_count, failure_percentage_exceeded),
    {
        if let Some(max_failures) = tolerated_failure_count {
            if self.failure_count > max_failures {
                return true;
            }
        }
        failure_percentage_exceeded
    }

    /// Whether the operation should complete now, and why (see `completion_decision`).
    pub fn should_complete(
        &self,
        min_successful: Option<usize>,
        tolerated_failure_count: Option<usize>,
        failure_percentage_exceeded: bool,
    ) -> (r: Option<CompletionReason>)
        ensures
            r == completion_decision(
                self.spec_total(),
                self.spec_success(),
                self.spec_failure(),
                self.spec_suspended(),
                min_successful,
                tolerated_failure_count,
                failure_percentage_exceeded,
            ),
    {
        proof {
            use_type_invariant(self);
        }
        let total = self.total_tasks;
        let completed = self.completed_count;
        let suspended = self.suspended_count;
        let successes = self.success_count;
        if let Some(min) = min_successful {
            if successes >= min {
                return Some(CompletionReason::MinSuccessfulReached);
            }
        }
        if self.is_failure_tolerance_exceeded(tolerated_failure_count, failure_percentage_exceeded) {
            return Some(CompletionReason::FailureToleranceExceeded);
        }
        if completed + suspended >= total {
            if suspended > 0 && completed < total {
                return Some(CompletionReason::Suspended);
            }
            return Some(CompletionReason::AllCompleted);
        }
        None
    }

    /// Whether every task completed (suspended tasks do not count).
    pub fn all_completed(&self) -> (r: bool)
        ensures
            r == (self.spec_completed() >= self.spec_total()),
    {
        self.completed_count >= self.total_tasks
    }

    /// Whether some task is neither completed nor suspended.
    pub fn has_pending(&self) -> (r: bool)
        ensures
            r == (self.spec_completed() + self.spec_suspended() < self.spec_total()),
    {
        self.pending_count() > 0
    }
}

impl Default for ExecutionCounters {
    /// Counters for zero tasks.
    fn default() -> (r: Self)
        ensures
            r.spec_total() == 0,
            r.spec_success() == 0,
            r.spec_failure() == 0,
            r.spec_suspended() == 0,
    {
        ExecutionCounters::new(0)
    }
}

/// Status of one item of a batch operation.
#[derive(Debug, Clone, Copy, PartialEq, Eq, Structural)]
pub enum BatchItemStatus {
    /// Completed successfully
    Succeeded,
    /// Failed with an error
    Failed,
    /// Cancelled because the operation completed early
    Cancelled,
    /// Still pending
    Pending,
    /// Suspended, waiting for an external event
    Suspended,
}

impl BatchItemStatus {
    /// Returns true for `Succeeded`.
    pub fn is_success(&self) -> (r: bool)
        ensures
            r == (*self is Succeeded),
    {
        match self {
            BatchItemStatus::Succeeded => true,
            _ => false,
        }
    }

    /// Returns true for `Failed`.
    pub fn is_failure(&self) -> (r: bool)
        ensures
            r == (*self is Failed),
    {
        match self {
            BatchItemStatus::Failed => true,
            _ => false,
        }
    }

    /// Returns true for `Succeeded`, `Failed` and `Cancelled`.
    pub fn is_terminal(&self) -> (r: bool)
        ensures
            r == (*self is Succeeded || *self is Failed || *self is Cancelled),
    {
        match self {
            BatchItemStatus::Succeeded | BatchItemStatus::Failed | BatchItemStatus::Cancelled => true,
            _ => false,
        }
    }

    /// Returns true for `Pending` and `Suspended`.
    pub fn is_pending(&self) -> (r: bool)
        ensures
            r == (*self is Pending || *self is Suspended),
    {
        match self {
            BatchItemStatus::Pending | BatchItemStatus::Suspended => true,
            _ => false,
        }
    }

    /// The name shown for this status.
    pub open spec fn name_view(self) -> Seq<char> {
        match self {
            BatchItemStatus::Succeeded => "Succeeded"@,
            BatchItemStatus::Failed => "Failed"@,
            BatchItemStatus::Cancelled => "Cancelled"@,
            BatchItemStatus::Pending => "Pending"@,
            BatchItemStatus::Suspended => "Suspended"@,
        }
    }

    /// The name shown for this status, as an owned string.
    pub fn to_display_string(&self) -> (r: String)
        ensures
            r@ == self.name_view(),
    {
        match self {
            BatchItemStatus::Succeeded => "Succeeded".to_owned(),
            BatchItemStatus::Failed => "Failed".to_owned(),
            BatchItemStatus::Cancelled => "Cancelled".to_owned(),
            BatchItemStatus::Pending => "Pending".to_owned(),
            BatchItemStatus::Suspended => "Suspended".to_owned(),
        }
    }
}

/// Result of one item of a batch operation.
#[derive(Debug, Clone)]
pub struct BatchItem<T> {
    /// Index of this item in the original collection
    pub index: usize,
    /// Status of this item
    pub status: BatchItemStatus,
    /// Result value if succeeded
    pub result: Option<T>,
    /// Error details if failed
    pub error: Option<ErrorObject>,
}

impl<T> BatchItem<T> {
    /// A succeeded item with its result.
    pub fn succeeded(index: usize, result: T) -> (r: Self)
        ensures
            r == (BatchItem { index, status: BatchItemStatus::Succeeded, result: Some(result), error: None }),
    {
        BatchItem { index, status: BatchItemStatus::Succeeded, result: Some(result), error: None }
    }

    /// A failed item with its error.
    pub fn failed(index: usize, error: ErrorObject) -> (r: Self)
        ensures
            r == (BatchItem::<T> { index, status: BatchItemStatus::Failed, result: None, error: Some(error) }),
    {
        BatchItem { index, status: BatchItemStatus::Failed, result: None, error: Some(error) }
    }

    /// A cancelled item.
    pub fn cancelled(index: usize) -> (r: Self)
        ensures
            r == (BatchItem::<T> { index, status: BatchItemStatus::Cancelled, result: None, error: None }),
    {
        BatchItem { index, status: BatchItemStatus::Cancelled, result: None, error: None }
    }

    /// A pending item.
    pub fn pending(index: usize) -> (r: Self)
        ensures
            r == (BatchItem::<T> { index, status: BatchItemStatus::Pending, result: None, error: None }),
    {
        BatchItem { index, status: BatchItemStatus::Pending, result: None, error: None }
    }

    /// A suspended item.
    pub fn suspended(index: usize) -> (r: Self)
        ensures
            r == (BatchItem::<T> { index, status: BatchItemStatus::Suspended, result: None, error: None }),
    {
        BatchItem { index, status: BatchItemStatus::Suspended, result: None, error: None }
    }

    /// Returns true if this item succeeded.
    pub fn is_succeeded(&self) -> (r: bool)
        ensures
            r == (self.status is Succeeded),
    {
        self.status.is_success()
    }

    /// Returns true if this item failed.
    pub fn is_failed(&self) -> (r: bool)
        ensures
            r == (self.status is Failed),
    {
        self.status.is_failure()
    }

    /// The result, if any.
    pub fn get_result(&self) -> (r: Option<&T>)
        ensures
            r == match self.result {
                Some(v) => Some(&v),
                None => None::<&T>,
            },
    {
        self.result.as_ref()
    }

    /// The error, if any.
    pub fn get_error(&self) -> (r: Option<&ErrorObject>)
        ensures
            r == match self.error {
                Some(e) => Some(&e),
                None => None::<&ErrorObject>,
            },
    {
        self.error.as_ref()
    }
}

/// The item succeeded.
pub open spec fn item_succeeded<T>(item: BatchItem<T>) -> bool {
    item.status is Succeeded
}

/// The item failed.
pub open spec fn item_failed<T>(item: BatchItem<T>) -> bool {
    item.status is Failed
}

/// The item's result, if it has one.
pub open spec fn item_result<T>(item: BatchItem<T>) -> Option<T> {
    item.result
}

/// Result of a batch operation (map or parallel): every item's outcome and why
/// the batch completed.
#[derive(Debug, Clone)]
pub struct BatchResult<T> {
    /// Results for each item in the batch
    pub items: Vec<BatchItem<T>>,
    /// Reason why the batch completed
    pub completion_reason: CompletionReason,
}

impl<T> BatchResult<T> {
    /// The succeeded items, in order.
    pub open spec fn succeeded_items(self) -> Seq<BatchItem<T>> {
        self.items@.filter(|i: BatchItem<T>| item_succeeded(i))
    }

    /// The failed items, in order.
    pub open spec fn failed_items(self) -> Seq<BatchItem<T>> {
        self.items@.filter(|i: BatchItem<T>| item_failed(i))
    }

    /// The results of the items that have one, in order.
    pub open spec fn results(self) -> Seq<T> {
        self.items@.filter_map(|i: BatchItem<T>| item_result(i))
    }

    /// A batch result of these items.
    pub fn new(items: Vec<BatchItem<T>>, completion_reason: CompletionReason) -> (r: Self)
        ensures
            r.items == items,
            r.completion_reason == completion_reason,
    {
        BatchResult { items, completion_reason }
    }

    /// A batch result without items, completed with `AllCompleted`.
    pub fn empty() -> (r: Self)
        ensures
            r.items@.len() == 0,
            r.completion_reason == CompletionReason::AllCompleted,
    {
        BatchResult { items: Vec::new(), completion_reason: CompletionReason::AllCompleted }
    }

    /// The succeeded items, in order.
    pub fn succeeded(&self) -> (r: Vec<&BatchItem<T>>)
        ensures
            r@.len() == self.succeeded_items().len(),
            forall|k: int| 0 <= k < r@.len() ==> *r@[k] == self.succeeded_items()[k],
    {
        let mut out: Vec<&BatchItem<T>> = Vec::new();
        let n = self.items.len();
        let mut i: usize = 0;
        while i < n
            invariant
                n == self.items@.len(),
                i <= n,
                out@.len() == self.items@.take(i as int).filter(|it: BatchItem<T>| item_succeeded(it)).len(),
                forall|k: int| 0 <= k < out@.len() ==> *out@[k] == self.items@.take(i as int).filter(
                    |it: BatchItem<T>| item_succeeded(it),
                )[k],
            decreases n - i,
        {
            let item = &self.items[i];
            proof {
                self.items@.take(i as int).lemma_filter_push(self.items@[i as int], |it: BatchItem<T>| item_succeeded(it));
                assert(self.items@.take(i + 1) =~= self.items@.take(i as int).push(self.items@[i as int]));
            }
            if item.is_succeeded() {
                out.push(item);
            }
            i = i + 1;
        }
        assert(self.items@.take(n as int) =~= self.items@);
        out
    }

    /// The failed items, in order.
    pub fn failed(&self) -> (r: Vec<&BatchItem<T>>)
        ensures
            r@.len() == self.failed_items().len(),
            forall|k: int| 0 <= k < r@.len() ==> *r@[k] == self.failed_items()[k],
    {
        let mut out: Vec<&BatchItem<T>> = Vec::new();
        let n = self.items.len();
        let mut i: usize = 0;
        while i < n
            invariant
                n == self.items@.len(),
                i <= n,
                out@.len() == self.items@.take(i as int).filter(|it: BatchItem<T>| item_failed(it)).len(),
                forall|k: int| 0 <= k < out@.len() ==> *out@[k] == self.items@.take(i as int).filter(
                    |it: BatchItem<T>| item_failed(it),
                )[k],
            decreases n - i,
        {
            let item = &self.items[i];
            proof {
                self.items@.take(i as int).lemma_filter_push(self.items@[i as int], |it: BatchItem<T>| item_failed(it));
                assert(self.items@.take(i + 1) =~= self.items@.take(i as int).push(self.items@[i as int]));
            }
            if item.is_failed() {
                out.push(item);
            }
            i = i + 1;
        }
        assert(self.items@.take(n as int) =~= self.items@);
        out
    }

    /// The results of the items that have one, in item order, unless the batch
    /// completed because the failure tolerance was exceeded: then the error of
    /// the first failed item as a user-code error, or, when there is no such
    /// error, an Execution error.
    pub fn get_results(&self) -> (r: Result<Vec<&T>, DurableError>)
        ensures
            self.completion_reason == CompletionReason::FailureToleranceExceeded ==> if self.failed_items().len() > 0
                && self.failed_items()[0].error is Some {
                r matches Err(e) && is_user_code_copy(e, self.failed_items()[0].error->0)
            } else {
                r matches Err(e) && is_execution_error(e, "Batch operation failed"@, TerminationReason::ExecutionError)
            },
            self.completion_reason != CompletionReason::FailureToleranceExceeded ==> (r matches Ok(v)
                && v@.len() == self.results().len()
                && forall|k: int| 0 <= k < v@.len() ==> *v@[k] == self.results()[k]),
    {
        if self.completion_reason == CompletionReason::FailureToleranceExceeded {
            let failed = self.failed();
            if failed.len() > 0 {
                if let Some(error) = &failed[0].error {
                    return Err(DurableError::from_error_object(error));
                }
            }
            return Err(DurableError::execution("Batch operation failed"));
        }
        let mut out: Vec<&T> = Vec::new();
        let n = self.items.len();
        let mut i: usize = 0;
        while i < n
            invariant
                n == self.items@.len(),
                i <= n,
                out@.len() == self.items@.take(i as int).filter_map(|it: BatchItem<T>| item_result(it)).len(),
                forall|k: int| 0 <= k < out@.len() ==> *out@[k] == self.items@.take(i as int).filter_map(
                    |it: BatchItem<T>| item_result(it),
                )[k],
            decreases n - i,
        {
            proof {
                self.items@.lemma_filter_map_take_succ(|it: BatchItem<T>| item_result(it), i as int);
            }
            if let Some(v) = &self.items[i].result {
                out.push(v);
            }
            i = i + 1;
        }
        assert(self.items@.take(n as int) =~= self.items@);
        Ok(out)
    }

    /// Number of succeeded items.
    pub fn success_count(&self) -> (r: usize)
        ensures
            r == self.succeeded_items().len(),
    {
        self.succeeded().len()
    }

    /// Number of failed items.
    pub fn failure_count(&self) -> (r: usize)
        ensures
            r == self.failed_items().len(),
    {
        self.failed().len()
    }

    /// Number of items.
    pub fn total_count(&self) -> (r: usize)
        ensures
            r == self.items@.len(),
    {
        self.items.len()
    }

    /// Whether every item succeeded.
    pub fn all_succeeded(&self) -> (r: bool)
        ensures
            r == forall|k: int| 0 <= k < self.items@.len() ==> item_succeeded(#[trigger] self.items@[k]),
    {
        let n = self.items.len();
        let mut i: usize = 0;
        while i < n
            invariant
                n == self.items@.len(),
                i <= n,
                forall|k: int| 0 <= k < i ==> item_succeeded(#[trigger] self.items@[k]),
            decreases n - i,
        {
            if !self.items[i].is_succeeded() {
                return false;
            }
            i = i + 1;
        }
        true
    }

    /// Whether some item failed.
    pub fn has_failures(&self) -> (r: bool)
        ensures
            r == exists|k: int| 0 <= k < self.items@.len() && item_failed(#[trigger] self.items@[k]),
    {
        let n = self.items.len();
        let mut i: usize = 0;
        while i < n
            invariant
                n == self.items@.len(),
                i <= n,
                forall|k: int| 0 <= k < i ==> !item_failed(#[trigger] self.items@[k]),
            decreases n - i,
        {
            if self.items[i].is_failed() {
                return true;
            }
            i = i + 1;
        }
        false
    }

    /// Whether the batch completed because the failure tolerance was exceeded.
    pub fn is_failure(&self) -> (r: bool)
        ensures
            r == (self.completion_reason == CompletionReason::FailureToleranceExceeded),
    {
        self.completion_reason == CompletionReason::FailureToleranceExceeded
    }

    /// Whether the batch completed successfully: all completed, or the minimum
    /// number of successes reached.
    pub fn is_success(&self) -> (r: bool)
        ensures
            r == (self.completion_reason == CompletionReason::AllCompleted
                || self.completion_reason == CompletionReason::MinSuccessfulReached),
    {
        match self.completion_reason {
            CompletionReason::AllCompleted | CompletionReason::MinSuccessfulReached => true,
            _ => false,
        }
    }
}

impl<T> Default for BatchResult<T> {
    /// The empty batch result.
    fn default() -> (r: Self)
        ensures
            r.items@.len() == 0,
            r.completion_reason == CompletionReason::AllCompleted,
    {
        BatchResult::empty()
    }
}

/// Records the outcome of task `index` in `counters` and gives its batch item:
/// a value is a success, a suspension a suspended item, any other error a
/// failure carrying the error object reported for it.
pub fn record_task_outcome<T>(counters: &mut ExecutionCounters, index: usize, outcome: Result<T, DurableError>) -> (r: BatchItem<T>)
    requires
        old(counters).spec_completed() + old(counters).spec_suspended() < usize::MAX,
    ensures
        r.index == index,
        final(counters).spec_total() == old(counters).spec_total(),
        match outcome {
            Ok(v) => {
                &&& r == BatchItem { index, status: BatchItemStatus::Succeeded, result: Some(v), error: None }
                &&& final(counters).spec_success() == old(counters).spec_success() + 1
                &&& final(counters).spec_failure() == old(counters).spec_failure()
                &&& final(counters).spec_suspended() == old(counters).spec_suspended()
            },
            Err(DurableError::Suspend { .. }) => {
                &&& r == BatchItem::<T> { index, status: BatchItemStatus::Suspended, result: None, error: None }
                &&& final(counters).spec_success() == old(counters).spec_success()
                &&& final(counters).spec_failure() == old(counters).spec_failure()
                &&& final(counters).spec_suspended() == old(counters).spec_suspended() + 1
            },
            Err(e) => {
                &&& r.status == BatchItemStatus::Failed
                &&& r.result is None
                &&& r.error matches Some(o) && o.error_type@ == ErrorObject::type_of_error(e)
                    && o.error_message@ == ErrorObject::message_of_error(e)
                    && opt_view(o.stack_trace) == ErrorObject::stack_of_error(e)
                &&& final(counters).spec_success() == old(counters).spec_success()
                &&& final(counters).spec_failure() == old(counters).spec_failure() + 1
                &&& final(counters).spec_suspended() == old(counters).spec_suspended()
            },
        },
{
    match outcome {
        Ok(value) => {
            counters.complete_task();
            BatchItem::succeeded(index, value)
        },
        Err(DurableError::Suspend { .. }) => {
            counters.suspend_task();
            BatchItem::suspended(index)
        },
        Err(error) => {
            counters.fail_task();
            BatchItem::failed(index, ErrorObject::from_durable_error(&error))
        },
    }
}

/// The reason a batch finished with: the completion decision on the final
/// counters, or `AllCompleted` when no criterion is met.
pub fn final_completion_reason(
    counters: &ExecutionCounters,
    min_successful: Option<usize>,
    tolerated_failure_count: Option<usize>,
    failure_percentage_exceeded: bool,
) -> (r: CompletionReason)
    ensures
        r == match completion_decision(
            counters.spec_total(),
            counters.spec_success(),
            counters.spec_failure(),
            counters.spec_suspended(),
            min_successful,
            tolerated_failure_count,
            failure_percentage_exceeded,
        ) {
            Some(reason) => reason,
            None => CompletionReason::AllCompleted,
        },
{
    match counters.should_complete(min_successful, tolerated_failure_count, failure_percentage_exceeded) {
        Some(reason) => reason,
        None => CompletionReason::AllCompleted,
    }
}

} // verus!
