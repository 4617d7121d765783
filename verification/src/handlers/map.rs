//! Map operations: a function applied to every item of a collection, each in
//! a child context, with the results gathered into a batch result.
use vstd::prelude::*;
use vstd::string::*;
use crate::concurrency::CompletionReason;
use crate::config::{is_batching, lemma_cover_bounded, range_sum, ItemBatcher};
use crate::context::{carries_identity, with_identity, OperationIdentifier};
use crate::error::{DurableError, ErrorObject, TerminationReason};
use crate::handlers::replay::{
    is_execution_error, is_nondeterministic, is_stored_failure, nondeterministic_error,
    stored_failure_error, was_message, was_text,
};
use crate::operation::{OperationAction, OperationType, OperationUpdate};
use crate::state::CheckpointedResult;
use crate::text::{decimal, usize_to_decimal};

verus! {

/// All sizes are zero.
pub open spec fn all_zero(s: Seq<usize>) -> bool {
    forall|k: int| 0 <= k < s.len() ==> #[trigger] s[k] == 0
}

proof fn lemma_zero_sum(s: Seq<usize>, a: int, b: int)
    requires
        all_zero(s),
        0 <= a,
        b <= s.len(),
    ensures
        range_sum(s, a, b) == 0,
    decreases b - a,
{
    if b > a {
        lemma_zero_sum(s, a, b - 1);
    }
}

/// The batches of `items`: each is the index of its first item and the items
/// themselves, in order. With a positive item limit the batches cover the
/// items in order and every batch but the last is full; with a zero limit an
/// empty batch is followed by one batch per item.
pub open spec fn is_item_batching<T>(r: Seq<(usize, Vec<T>)>, items: Seq<T>, max_items: nat) -> bool {
    if max_items > 0 {
        &&& (r.len() == 0 <==> items.len() == 0)
        &&& r.len() > 0 ==> r[0].0 == 0 && r[r.len() - 1].0 + r[r.len() - 1].1@.len() == items.len()
        &&& forall|k: int| 0 <= k < r.len() - 1 ==> r[k + 1].0 == (#[trigger] r[k]).0 + r[k].1@.len()
        &&& forall|k: int| 0 <= k < r.len() ==> {
            &&& 1 <= (#[trigger] r[k]).1@.len() <= max_items
            &&& r[k].0 + r[k].1@.len() <= items.len()
            &&& r[k].1@ == items.subrange(r[k].0 as int, r[k].0 + r[k].1@.len())
        }
        &&& forall|k: int| 0 <= k < r.len() - 1 ==> (#[trigger] r[k]).1@.len() == max_items
    } else {
        &&& items.len() == 0 ==> r.len() == 0
        &&& items.len() > 0 ==> r.len() == items.len() + 1 && r[0].0 == 0 && r[0].1@.len() == 0
            && forall|k: int| 1 <= k <= items.len() ==> (#[trigger] r[k]).0 == k - 1 && r[k].1@ == seq![items[k - 1]]
    }
}

/// The batches' items, concatenated in batch order.
pub open spec fn concat_batches<T>(r: Seq<(usize, Vec<T>)>) -> Seq<T>
    decreases r.len(),
{
    if r.len() == 0 {
        Seq::empty()
    } else {
        concat_batches(r.drop_last()) + r.last().1@
    }
}

proof fn lemma_concat_prefix<T>(r: Seq<(usize, Vec<T>)>, items: Seq<T>, max_items: nat, j: int)
    requires
        max_items > 0,
        is_item_batching(r, items, max_items),
        0 < j <= r.len(),
    ensures
        concat_batches(r.take(j)) == items.subrange(0, r[j - 1].0 + r[j - 1].1@.len()),
    decreases j,
{
    let t = r.take(j);
    assert(t.drop_last() =~= r.take(j - 1));
    assert(t.last() == r[j - 1]);
    if j == 1 {
        assert(r.take(0) =~= Seq::<(usize, Vec<T>)>::empty());
        assert(concat_batches(r.take(0)) =~= Seq::<T>::empty());
        assert(r[0].0 == 0);
    } else {
        lemma_concat_prefix(r, items, max_items, j - 1);
        assert(r[j - 2].0 + r[j - 2].1@.len() == r[j - 1].0);
    }
    let e = r[j - 1].0 + r[j - 1].1@.len();
    assert(r[j - 1].1@ == items.subrange(r[j - 1].0 as int, e));
    assert(items.subrange(0, r[j - 1].0 as int) + items.subrange(r[j - 1].0 as int, e) =~= items.subrange(0, e));
}

/// Batching keeps every item, in order: with a positive item limit the
/// batches, concatenated, are the items.
pub proof fn law_batches_preserve_order<T>(r: Seq<(usize, Vec<T>)>, items: Seq<T>, max_items: nat)
    requires
        max_items > 0,
        is_item_batching(r, items, max_items),
    ensures
        concat_batches(r) == items,
{
    if r.len() == 0 {
        assert(items.len() == 0);
        assert(concat_batches(r) =~= items);
    } else {
        lemma_concat_prefix(r, items, max_items, r.len() as int);
        assert(r.take(r.len() as int) =~= r);
        assert(items.subrange(0, items.len() as int) =~= items);
    }
}

fn copy_range<T: Copy>(items: &Vec<T>, start: usize, end: usize) -> (r: Vec<T>)
    requires
        start <= end <= items@.len(),
    ensures
        r@ == items@.subrange(start as int, end as int),
{
    let mut out: Vec<T> = Vec::new();
    let mut i = start;
    while i < end
        invariant
            start <= i <= end <= items@.len(),
            out@ == items@.subrange(start as int, i as int),
        decreases end - i,
    {
        out.push(items[i]);
        i = i + 1;
    }
    out
}

/// Groups `items` by count alone (the byte limit is not consulted): batches of
/// `max_items_per_batch` items in order, the last one possibly shorter.
pub fn batch_items<T: Copy>(items: &Vec<T>, batcher: &ItemBatcher) -> (r: Vec<(usize, Vec<T>)>)
    ensures
        is_item_batching(r@, items@, batcher.max_items_per_batch as nat),
{
    let n = items.len();
    let mut sizes: Vec<usize> = Vec::new();
    let mut j: usize = 0;
    while j < n
        invariant
            j <= n,
            n == items@.len(),
            sizes@.len() == j,
            all_zero(sizes@),
        decreases n - j,
    {
        sizes.push(0);
        j = j + 1;
    }
    proof {
        lemma_zero_sum(sizes@, 0, n as int);
    }
    let bounds = batcher.batch_bounds(&sizes);
    let ghost b = bounds@;
    let ghost m = batcher.max_items_per_batch as nat;
    proof {
        if m > 0 {
            assert forall|k: int| 0 <= k < b.len() implies #[trigger] b[k].0 < b[k].1 && b[k].1 <= n by {
                lemma_cover_bounded(b, n as nat, k);
            }
        }
    }
    let mut out: Vec<(usize, Vec<T>)> = Vec::new();
    let count = bounds.len();
    let mut k: usize = 0;
    while k < count
        invariant
            count == b.len(),
            b == bounds@,
            n == items@.len(),
            k <= count,
            m == batcher.max_items_per_batch,
            is_batching(b, sizes@, m, batcher.max_bytes_per_batch as nat),
            sizes@.len() == n,
            all_zero(sizes@),
            m > 0 ==> forall|q: int| 0 <= q < b.len() ==> #[trigger] b[q].0 < b[q].1 && b[q].1 <= n,
            out@.len() == k,
            forall|q: int| 0 <= q < k ==> (#[trigger] out@[q]).0 == b[q].0 && out@[q].1@ == items@.subrange(
                b[q].0 as int,
                b[q].1 as int,
            ),
        decreases count - k,
    {
        let (s, e) = bounds[k];
        proof {
            if m == 0 {
                if k > 0 {
                    assert(b[k as int] == ((k - 1) as usize, k as usize));
                } else {
                    assert(b[0] == (0usize, 0usize));
                }
            }
        }
        let batch = copy_range(items, s, e);
        out.push((s, batch));
        k = k + 1;
    }
    proof {
        if m > 0 {
            assert forall|q: int| 0 <= q < b.len() - 1 implies (#[trigger] out@[q]).1@.len() == m by {
                lemma_zero_sum(sizes@, b[q].0 as int, b[q].1 as int);
                assert(b[q + 1].0 == b[q].1);
                assert(b[q + 1].0 < b[q + 1].1 && b[q + 1].1 <= n);
                assert(sizes@[b[q].1 as int] == 0);
                assert(b[q].1 - b[q].0 == m || range_sum(sizes@, b[q].0 as int, b[q].1 as int) + sizes@[b[q].1 as int] > batcher.max_bytes_per_batch);
            }
            assert forall|q: int| 0 <= q < out@.len() - 1 implies out@[q + 1].0 == (#[trigger] out@[q]).0 + out@[q].1@.len() by {
                assert(b[q + 1].0 == b[q].1);
            }
        } else {
            assert forall|q: int| 1 <= q <= n implies (#[trigger] out@[q]).0 == q - 1 && out@[q].1@ == seq![items@[q - 1]] by {
                assert(b[q] == ((q - 1) as usize, q as usize));
                assert(items@.subrange(q - 1, q) =~= seq![items@[q - 1]]);
            }
        }
    }
    out
}

/// The SUCCEED update of the map operation `op_id` carrying `result`.
pub fn create_succeed_update(op_id: &OperationIdentifier, result: Option<String>) -> (r: OperationUpdate)
    ensures
        carries_identity(r, *op_id),
        r.action == OperationAction::Succeed,
        r.operation_type == OperationType::Context,
        r.result == result,
        r.error is None,
        r.has_no_options(),
{
    with_identity(OperationUpdate::succeed(op_id.operation_id.as_str(), OperationType::Context, result), op_id)
}

/// The FAIL update of the map operation `op_id` carrying `error`.
pub fn create_fail_update(op_id: &OperationIdentifier, error: ErrorObject) -> (r: OperationUpdate)
    ensures
        carries_identity(r, *op_id),
        r.action == OperationAction::Fail,
        r.operation_type == OperationType::Context,
        r.result is None,
        r.error == Some(error),
        r.has_no_options(),
{
    with_identity(OperationUpdate::fail(op_id.operation_id.as_str(), OperationType::Context, error), op_id)
}

/// The most items one task of a map runs: the batcher's item limit when a
/// batcher with a positive limit is configured, one item otherwise.
pub open spec fn task_width(batcher: Option<ItemBatcher>) -> nat {
    match batcher {
        Some(b) => if b.max_items_per_batch > 0 { b.max_items_per_batch as nat } else { 1 },
        None => 1,
    }
}

/// `plan` splits the items `0..item_count` into tasks: each task is the range
/// `start..end` of the items it runs, the ranges follow one another from the
/// first item to the last, none is empty or wider than `width`, and all but
/// the last are exactly `width` wide.
pub open spec fn is_task_plan(plan: Seq<(usize, usize)>, item_count: nat, width: nat) -> bool {
    &&& (plan.len() == 0 <==> item_count == 0)
    &&& plan.len() > 0 ==> plan[0].0 == 0 && plan[plan.len() - 1].1 == item_count
    &&& forall|k: int| 0 <= k < plan.len() - 1 ==> plan[k + 1].0 == (#[trigger] plan[k]).1
    &&& forall|k: int| 0 <= k < plan.len() ==> (#[trigger] plan[k]).0 < plan[k].1 && plan[k].1 - plan[k].0 <= width
    &&& forall|k: int| 0 <= k < plan.len() - 1 ==> (#[trigger] plan[k]).1 - plan[k].0 == width
}

/// The task of `plan` that runs item `item`.
pub open spec fn runs_item(plan: Seq<(usize, usize)>, task: int, item: int) -> bool {
    0 <= task < plan.len() && plan[task].0 <= item < plan[task].1
}

proof fn lemma_plan_ordered(plan: Seq<(usize, usize)>, n: nat, w: nat, k: int, j: int)
    requires
        is_task_plan(plan, n, w),
        0 <= k < j < plan.len(),
    ensures
        plan[k].1 <= plan[j].0,
    decreases j - k,
{
    if j > k + 1 {
        lemma_plan_ordered(plan, n, w, k, j - 1);
        assert(plan[j].0 == plan[j - 1].1);
    } else {
        assert(plan[k + 1].0 == plan[k].1);
    }
}

proof fn lemma_plan_covers(plan: Seq<(usize, usize)>, n: nat, w: nat, m: int, item: int)
    requires
        is_task_plan(plan, n, w),
        0 <= m < plan.len(),
        0 <= item < plan[m].1,
    ensures
        exists|t: int| 0 <= t <= m && #[trigger] runs_item(plan, t, item),
    decreases m,
{
    if m == 0 {
        assert(runs_item(plan, 0, item));
    } else if item >= plan[m].0 {
        assert(runs_item(plan, m, item));
    } else {
        assert(plan[m].0 == plan[m - 1].1);
        lemma_plan_covers(plan, n, w, m - 1, item);
    }
}

/// A map runs every item exactly once: each item of `0..item_count` belongs to
/// one task of the plan and to no other, and an earlier task runs earlier items.
pub proof fn law_plan_runs_every_item_once(plan: Seq<(usize, usize)>, item_count: nat, width: nat, item: int)
    requires
        is_task_plan(plan, item_count, width),
        0 <= item < item_count,
    ensures
        exists|t: int| #[trigger] runs_item(plan, t, item),
        forall|t: int, u: int| runs_item(plan, t, item) && runs_item(plan, u, item) ==> t == u,
        forall|t: int, u: int| 0 <= t < u < plan.len() ==> plan[t].1 <= plan[u].0,
{
    lemma_plan_covers(plan, item_count, width, plan.len() - 1, item);
    assert forall|t: int, u: int| 0 <= t < u < plan.len() implies plan[t].1 <= plan[u].0 by {
        lemma_plan_ordered(plan, item_count, width, t, u);
    }
    assert forall|t: int, u: int| runs_item(plan, t, item) && runs_item(plan, u, item) implies t == u by {
        if t < u {
            lemma_plan_ordered(plan, item_count, width, t, u);
        } else if u < t {
            lemma_plan_ordered(plan, item_count, width, u, t);
        }
    }
}

/// The tasks of a map over `item_count` items: with a batcher whose item limit
/// is positive, consecutive batches of that many items (the last possibly
/// shorter); otherwise one task per item. Each task runs the items of its
/// range, each in its own child context named after the item's index.
pub fn map_plan(item_count: usize, batcher: &Option<ItemBatcher>) -> (r: Vec<(usize, usize)>)
    ensures
        is_task_plan(r@, item_count as nat, task_width(*batcher)),
{
    let width: usize = match batcher {
        Some(b) => if b.max_items_per_batch > 0 { b.max_items_per_batch } else { 1 },
        None => 1,
    };
    let mut plan: Vec<(usize, usize)> = Vec::new();
    let mut start: usize = 0;
    while start < item_count
        invariant
            width == task_width(*batcher),
            width >= 1,
            start <= item_count,
            (plan@.len() == 0 <==> start == 0),
            plan@.len() > 0 ==> plan@[0].0 == 0 && plan@[plan@.len() - 1].1 == start,
            forall|k: int| 0 <= k < plan@.len() - 1 ==> plan@[k + 1].0 == (#[trigger] plan@[k]).1,
            forall|k: int| 0 <= k < plan@.len() ==> (#[trigger] plan@[k]).0 < plan@[k].1 && plan@[k].1 - plan@[k].0
                <= width,
            forall|k: int| 0 <= k < plan@.len() - 1 ==> (#[trigger] plan@[k]).1 - plan@[k].0 == width,
            plan@.len() > 0 ==> plan@[plan@.len() - 1].1 - plan@[plan@.len() - 1].0 == width || start
                == item_count,
        decreases item_count - start,
    {
        let end: usize = if item_count - start > width { start + width } else { item_count };
        plan.push((start, end));
        start = end;
    }
    plan
}

/// The name of the child operation of item `index`.
pub fn map_item_name(index: usize) -> (r: String)
    ensures
        r@ == "map-item-"@ + decimal(index as nat),
{
    "map-item-".to_owned().concat(usize_to_decimal(index).as_str())
}

/// A batch result is checkpointed unless the batch suspended.
pub fn should_checkpoint_result(reason: CompletionReason) -> (r: bool)
    ensures
        r == !(reason is Suspended),
{
    !(reason == CompletionReason::Suspended)
}

/// Replay of a map operation: `Ok(None)` to run it, `Ok(Some(text))` to return
/// the stored batch result `text`, or the error to return.
pub fn map_replay(checkpoint_result: &CheckpointedResult, op_id: &OperationIdentifier) -> (r: Result<Option<String>, DurableError>)
    ensures
        match checkpoint_result.operation {
            None => r matches Ok(None),
            Some(op) => if op.operation_type != OperationType::Context {
                r matches Err(e) && is_nondeterministic(e, OperationType::Context, op.operation_type, op_id.operation_id@)
            } else if op.status is Succeeded && op.result_view() is Some {
                r matches Ok(Some(s)) && Some(s@) == op.result_view()
            } else if op.status is Failed {
                r matches Err(e) && is_stored_failure(e, op.error, "Map operation failed with unknown error"@)
            } else if op.status.spec_is_terminal() {
                r matches Err(e) && is_execution_error(
                    e,
                    was_message("Map operation"@, op.status),
                    TerminationReason::ExecutionError,
                )
            } else {
                r matches Ok(None)
            },
        },
{
    if !checkpoint_result.is_existent() {
        return Ok(None);
    }
    if let Some(op_type) = checkpoint_result.operation_type() {
        if op_type != OperationType::Context {
            return Err(nondeterministic_error(OperationType::Context, op_type, op_id.operation_id.as_str()));
        }
    }
    if checkpoint_result.is_succeeded() {
        if let Some(result_str) = checkpoint_result.result() {
            return Ok(Some(result_str.to_owned()));
        }
    }
    if checkpoint_result.is_failed() {
        return Err(stored_failure_error(checkpoint_result.error(), "Map operation failed with unknown error"));
    }
    if checkpoint_result.is_terminal() {
        let status = checkpoint_result.status().unwrap();
        return Err(DurableError::execution(was_text("Map operation", status).as_str()));
    }
    Ok(None)
}

} // verus!
