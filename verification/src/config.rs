//! Configuration of durable operations: checkpointing modes, retry strategies,
//! step semantics, per-operation settings and item batching.
use vstd::prelude::*;
use core::marker::PhantomData;
use crate::duration::Duration;

verus! {

/// Checkpointing mode: the trade-off between durability and performance.
///
/// Eager checkpoints after every operation (maximum durability); Batched, the
/// default, groups operations before checkpointing; Optimistic executes several
/// operations before checkpointing (best performance).
#[derive(Debug, Clone, Copy, PartialEq, Eq, Structural)]
pub enum CheckpointingMode {
    /// Checkpoint after every operation.
    Eager,
    /// Batch operations before checkpointing.
    Batched,
    /// Execute several operations before checkpointing.
    Optimistic,
}

impl Default for CheckpointingMode {
    /// Batched mode.
    fn default() -> (r: Self)
        ensures
            r == CheckpointingMode::Batched,
    {
        CheckpointingMode::Batched
    }
}

impl CheckpointingMode {
    /// Returns true for the eager mode.
    pub fn is_eager(&self) -> (r: bool)
        ensures
            r == (*self is Eager),
    {
        match self {
            CheckpointingMode::Eager => true,
            _ => false,
        }
    }

    /// Returns true for the batched mode.
    pub fn is_batched(&self) -> (r: bool)
        ensures
            r == (*self is Batched),
    {
        match self {
            CheckpointingMode::Batched => true,
            _ => false,
        }
    }

    /// Returns true for the optimistic mode.
    pub fn is_optimistic(&self) -> (r: bool)
        ensures
            r == (*self is Optimistic),
    {
        match self {
            CheckpointingMode::Optimistic => true,
            _ => false,
        }
    }

    /// The description of each mode.
    pub open spec fn description_view(self) -> Seq<char> {
        match self {
            CheckpointingMode::Eager => "Checkpoint after every operation (maximum durability)"@,
            CheckpointingMode::Batched => "Batch operations before checkpointing (balanced)"@,
            CheckpointingMode::Optimistic => "Execute multiple operations before checkpointing (best performance)"@,
        }
    }

    /// A human-readable description of this mode.
    pub fn description(&self) -> (r: &'static str)
        ensures
            r@ == self.description_view(),
    {
        match self {
            CheckpointingMode::Eager => "Checkpoint after every operation (maximum durability)",
            CheckpointingMode::Batched => "Batch operations before checkpointing (balanced)",
            CheckpointingMode::Optimistic => "Execute multiple operations before checkpointing (best performance)",
        }
    }
}

/// Exactly one of the three classifications holds for every mode.
pub proof fn lemma_mode_classification_exclusive(mode: CheckpointingMode)
    ensures
        (mode is Eager) as int + (mode is Batched) as int + (mode is Optimistic) as int == 1,
{
}

/// A retry strategy: the delay before the next attempt of a failed step, or
/// `None` when no more attempts are to be made.
pub trait RetryStrategy {
    /// The delay before retry `attempt` (0-indexed) after `error`, or `None`.
    fn next_delay(&self, attempt: u32, error: &str) -> Option<Duration>;
}

/// Retries up to `max_attempts` times with a constant delay.
#[derive(Debug, Clone, Copy)]
pub struct FixedDelay {
    /// Maximum number of retry attempts.
    pub max_attempts: u32,
    /// Delay between retry attempts.
    pub delay: Duration,
}

impl FixedDelay {
    /// Creates a fixed delay strategy.
    pub fn new(max_attempts: u32, delay: Duration) -> (r: Self)
        ensures
            r.max_attempts == max_attempts,
            r.delay == delay,
    {
        FixedDelay { max_attempts, delay }
    }
}

impl RetryStrategy for FixedDelay {
    /// `delay` for attempts below `max_attempts`, `None` from then on.
    fn next_delay(&self, attempt: u32, error: &str) -> (r: Option<Duration>)
        ensures
            r == if attempt < self.max_attempts { Some(self.delay) } else { None },
    {
        if attempt >= self.max_attempts {
            return None;
        }
        Some(self.delay)
    }
}

/// Retries with a delay growing linearly with the attempt number.
#[derive(Debug, Clone, Copy)]
pub struct LinearBackoff {
    /// Maximum number of retry attempts.
    pub max_attempts: u32,
    /// Base delay, multiplied by the attempt number plus one.
    pub base_delay: Duration,
    /// Maximum delay between retries.
    pub max_delay: Duration,
}

/// `base * (attempt + 1)` seconds saturated at the largest `u64`, capped at `max`.
pub open spec fn linear_delay_secs(base: nat, attempt: nat, max: nat) -> nat {
    let raw = if base * (attempt + 1) > u64::MAX { u64::MAX as nat } else { base * (attempt + 1) };
    if raw < max { raw } else { max }
}

impl LinearBackoff {
    /// Creates a linear backoff strategy with a one-hour cap.
    pub fn new(max_attempts: u32, base_delay: Duration) -> (r: Self)
        ensures
            r.max_attempts == max_attempts,
            r.base_delay == base_delay,
            r.max_delay.secs() == 3600,
    {
        LinearBackoff { max_attempts, base_delay, max_delay: Duration::from_hours(1) }
    }

    /// Sets the maximum delay, leaving the other settings as they were.
    pub fn with_max_delay(self, max_delay: Duration) -> (r: Self)
        ensures
            r == (LinearBackoff { max_delay, ..self }),
    {
        LinearBackoff { max_delay, ..self }
    }
}

impl RetryStrategy for LinearBackoff {
    /// `base_delay * (attempt + 1)` capped at `max_delay` for attempts below
    /// `max_attempts`, `None` from then on.
    fn next_delay(&self, attempt: u32, error: &str) -> (r: Option<Duration>)
        ensures
            attempt >= self.max_attempts ==> r is None,
            attempt < self.max_attempts ==> (r matches Some(d) && d.secs() == linear_delay_secs(
                self.base_delay.secs(),
                attempt as nat,
                self.max_delay.secs(),
            )),
    {
        if attempt >= self.max_attempts {
            return None;
        }
        let base_seconds = self.base_delay.to_seconds();
        let factor: u64 = attempt as u64 + 1;
        let delay_seconds: u64 = match base_seconds.checked_mul(factor) {
            Some(v) => v,
            None => u64::MAX,
        };
        let max_seconds = self.max_delay.to_seconds();
        let capped: u64 = if delay_seconds < max_seconds { delay_seconds } else { max_seconds };
        Some(Duration::from_seconds(capped))
    }
}

/// Never retries.
#[derive(Debug, Clone, Copy)]
pub struct NoRetry;

impl Default for NoRetry {
    fn default() -> (r: Self) {
        NoRetry
    }
}

impl RetryStrategy for NoRetry {
    /// Always `None`.
    fn next_delay(&self, attempt: u32, error: &str) -> (r: Option<Duration>)
        ensures
            r is None,
    {
        None
    }
}

/// A retry strategy given by a function of the attempt number and the error
/// text, which answers every call.
pub struct CustomRetry<F> where F: Fn(u32, &str) -> Option<Duration> {
    f: F,
}

impl<F> CustomRetry<F> where F: Fn(u32, &str) -> Option<Duration> {
    #[verifier::type_invariant]
    spec fn answers_every_call(self) -> bool {
        forall|attempt: u32, error: &str| #[trigger] self.f.requires((attempt, error))
    }

    /// The function that decides.
    pub closed spec fn decider(self) -> F {
        self.f
    }
}

/// A retry strategy that asks `f` for the delay of every retry.
pub fn custom_retry<F>(f: F) -> (r: CustomRetry<F>)
    where F: Fn(u32, &str) -> Option<Duration>,
    requires
        forall|attempt: u32, error: &str| #[trigger] f.requires((attempt, error)),
    ensures
        r.decider() == f,
{
    CustomRetry { f }
}

impl<F> RetryStrategy for CustomRetry<F> where F: Fn(u32, &str) -> Option<Duration> {
    /// What the function answers for this attempt and error.
    fn next_delay(&self, attempt: u32, error: &str) -> (r: Option<Duration>)
        ensures
            self.decider().ensures((attempt, error), r),
    {
        proof {
            use_type_invariant(self);
        }
        (self.f)(attempt, error)
    }
}

/// Configuration of a step operation: its retry strategy, if any, and its
/// execution semantics.
pub struct StepConfig {
    /// Retry strategy for failed steps, if any.
    pub retry_strategy: Option<Box<dyn RetryStrategy>>,
    /// Execution semantics (at-most-once or at-least-once).
    pub step_semantics: StepSemantics,
}

impl Default for StepConfig {
    /// No retry strategy, at-least-once semantics.
    fn default() -> (r: Self)
        ensures
            r.retry_strategy is None,
            r.step_semantics == StepSemantics::AtLeastOncePerRetry,
    {
        StepConfig { retry_strategy: None, step_semantics: StepSemantics::AtLeastOncePerRetry }
    }
}

/// Execution semantics for step operations.
#[derive(Debug, Clone, Copy, PartialEq, Eq, Structural)]
pub enum StepSemantics {
    /// Checkpoint before execution: at most one execution per retry.
    AtMostOncePerRetry,
    /// Checkpoint after execution: at least one execution per retry.
    AtLeastOncePerRetry,
}

impl Default for StepSemantics {
    /// At-least-once semantics.
    fn default() -> (r: Self)
        ensures
            r == StepSemantics::AtLeastOncePerRetry,
    {
        StepSemantics::AtLeastOncePerRetry
    }
}

impl StepSemantics {
    /// Whether the step's start is checkpointed before its work runs.
    pub fn checkpoints_before_execution(&self) -> (r: bool)
        ensures
            r == (*self is AtMostOncePerRetry),
    {
        match self {
            StepSemantics::AtMostOncePerRetry => true,
            StepSemantics::AtLeastOncePerRetry => false,
        }
    }
}

/// Configuration for callback operations.
#[derive(Debug, Clone, Copy)]
pub struct CallbackConfig {
    /// Timeout duration for the callback.
    pub timeout: Duration,
    /// Heartbeat timeout duration.
    pub heartbeat_timeout: Duration,
}

impl Default for CallbackConfig {
    /// Zero timeouts.
    fn default() -> (r: Self)
        ensures
            r.timeout.secs() == 0,
            r.heartbeat_timeout.secs() == 0,
    {
        CallbackConfig { timeout: Duration::default(), heartbeat_timeout: Duration::default() }
    }
}

/// Configuration for invoke operations with payload type `P` and result type `R`.
#[derive(Debug)]
pub struct InvokeConfig<P, R> {
    /// Timeout duration for the invocation.
    pub timeout: Duration,
    /// Optional tenant ID for multi-tenant scenarios.
    pub tenant_id: Option<String>,
    /// Marker for the payload and result types.
    pub _marker: PhantomData<(P, R)>,
}

impl<P, R> Default for InvokeConfig<P, R> {
    /// Zero timeout and no tenant.
    fn default() -> (r: Self)
        ensures
            r.timeout.secs() == 0,
            r.tenant_id is None,
    {
        InvokeConfig { timeout: Duration::default(), tenant_id: None, _marker: PhantomData }
    }
}

/// Configuration for child context operations.
#[derive(Debug, Clone, Copy)]
pub struct ChildConfig {
    /// Whether to include child operations in state loads when replaying.
    pub replay_children: bool,
}

/// The design name of `ChildConfig`.
pub type ContextConfig = ChildConfig;

impl Default for ChildConfig {
    /// Children are not replayed.
    fn default() -> (r: Self)
        ensures
            !r.replay_children,
    {
        ChildConfig { replay_children: false }
    }
}

impl ChildConfig {
    /// The default configuration.
    pub fn new() -> (r: Self)
        ensures
            !r.replay_children,
    {
        ChildConfig::default()
    }

    /// A configuration that replays children.
    pub fn with_replay_children() -> (r: Self)
        ensures
            r.replay_children,
    {
        ChildConfig { replay_children: true }
    }

    /// Sets whether children are replayed.
    pub fn set_replay_children(self, replay_children: bool) -> (r: Self)
        ensures
            r.replay_children == replay_children,
    {
        ChildConfig { replay_children }
    }
}

/// Limits for grouping the items of a map operation into batches.
#[derive(Debug, Clone, Copy)]
pub struct ItemBatcher {
    /// Maximum number of items per batch.
    pub max_items_per_batch: usize,
    /// Maximum total bytes per batch.
    pub max_bytes_per_batch: usize,
}

impl Default for ItemBatcher {
    /// 100 items and 256 KiB per batch.
    fn default() -> (r: Self)
        ensures
            r.max_items_per_batch == 100,
            r.max_bytes_per_batch == 256 * 1024,
    {
        ItemBatcher { max_items_per_batch: 100, max_bytes_per_batch: 256 * 1024 }
    }
}

/// The sum of `sizes[a..b]`.
pub open spec fn range_sum(sizes: Seq<usize>, a: int, b: int) -> int
    decreases b - a,
{
    if b <= a {
        0
    } else {
        range_sum(sizes, a, b - 1) + sizes[b - 1]
    }
}

/// Splitting a range splits its sum; sums of sizes are non-negative.
pub proof fn lemma_range_sum_split(sizes: Seq<usize>, a: int, m: int, b: int)
    requires
        a <= m <= b,
    ensures
        range_sum(sizes, a, b) == range_sum(sizes, a, m) + range_sum(sizes, m, b),
        range_sum(sizes, m, b) >= 0,
    decreases b - m,
{
    if b > m {
        lemma_range_sum_split(sizes, a, m, b - 1);
    }
}

/// The batches (half-open index ranges) cover `0..n` in order, each non-empty.
pub open spec fn is_contiguous_cover(b: Seq<(usize, usize)>, n: nat) -> bool {
    &&& (b.len() == 0 <==> n == 0)
    &&& b.len() > 0 ==> b[0].0 == 0 && b[b.len() - 1].1 == n
    &&& forall|k: int| 0 <= k < b.len() - 1 ==> #[trigger] b[k + 1].0 == b[k].1
    &&& forall|k: int| 0 <= k < b.len() ==> #[trigger] b[k].0 < b[k].1
}

/// In a contiguous cover of `0..n` every batch ends at or before `n`.
pub proof fn lemma_cover_bounded(b: Seq<(usize, usize)>, n: nat, k: int)
    requires
        is_contiguous_cover(b, n),
        0 <= k < b.len(),
    ensures
        b[k].1 <= n,
    decreases b.len() - k,
{
    if k < b.len() - 1 {
        lemma_cover_bounded(b, n, k + 1);
        assert(b[k + 1].0 == b[k].1);
    }
}

/// Every batch holds at most `max_items` items, and a batch of two or more items
/// holds at most `max_bytes` bytes.
pub open spec fn respects_limits(b: Seq<(usize, usize)>, sizes: Seq<usize>, max_items: nat, max_bytes: nat) -> bool {
    forall|k: int| 0 <= k < b.len() ==> {
        &&& #[trigger] b[k].1 - b[k].0 <= max_items
        &&& b[k].1 - b[k].0 >= 2 ==> range_sum(sizes, b[k].0 as int, b[k].1 as int) <= max_bytes
    }
}

/// Every batch but the last is closed only because the next item would break a
/// limit: the batch is full, or the next item's bytes would exceed the limit.
pub open spec fn is_greedy(b: Seq<(usize, usize)>, sizes: Seq<usize>, max_items: nat, max_bytes: nat) -> bool {
    forall|k: int| 0 <= k < b.len() - 1 ==> {
        ||| #[trigger] b[k].1 - b[k].0 == max_items
        ||| range_sum(sizes, b[k].0 as int, b[k].1 as int) + sizes[b[k].1 as int] > max_bytes
    }
}

/// With a zero item limit every item is closed off at once: an empty first batch
/// then one batch per item.
pub open spec fn is_degenerate_batching(b: Seq<(usize, usize)>, n: nat) -> bool {
    &&& n == 0 ==> b.len() == 0
    &&& n > 0 ==> b.len() == n + 1 && b[0] == (0usize, 0usize) && forall|k: int|
        1 <= k <= n ==> #[trigger] b[k] == ((k - 1) as usize, k as usize)
}

/// The batching of `n` items of these sizes under these limits.
pub open spec fn is_batching(b: Seq<(usize, usize)>, sizes: Seq<usize>, max_items: nat, max_bytes: nat) -> bool {
    if max_items > 0 {
        &&& is_contiguous_cover(b, sizes.len())
        &&& respects_limits(b, sizes, max_items, max_bytes)
        &&& is_greedy(b, sizes, max_items, max_bytes)
    } else {
        is_degenerate_batching(b, sizes.len())
    }
}

impl ItemBatcher {
    /// A batcher with these limits.
    pub fn new(max_items_per_batch: usize, max_bytes_per_batch: usize) -> (r: Self)
        ensures
            r.max_items_per_batch == max_items_per_batch,
            r.max_bytes_per_batch == max_bytes_per_batch,
    {
        ItemBatcher { max_items_per_batch, max_bytes_per_batch }
    }

    /// Groups items of the given serialized sizes into batches, returned as
    /// half-open index ranges `(start, end)` in item order.
    ///
    /// Items are taken in order; a batch is closed when it holds
    /// `max_items_per_batch` items or when the next item would push its bytes over
    /// `max_bytes_per_batch` (a lone item may exceed the byte limit).
    pub fn batch_bounds(&self, item_sizes: &Vec<usize>) -> (r: Vec<(usize, usize)>)
        requires
            range_sum(item_sizes@, 0, item_sizes@.len() as int) <= usize::MAX,
        ensures
            is_batching(r@, item_sizes@, self.max_items_per_batch as nat, self.max_bytes_per_batch as nat),
    {
        let n = item_sizes.len();
        let m = self.max_items_per_batch;
        let max_bytes = self.max_bytes_per_batch;
        let ghost sizes = item_sizes@;
        let mut out: Vec<(usize, usize)> = Vec::new();
        if n == 0 {
            return out;
        }
        let mut start: usize = 0;
        let mut bytes: usize = 0;
        let mut i: usize = 0;
        while i < n
            invariant
                n == sizes.len(),
                sizes == item_sizes@,
                m == self.max_items_per_batch,
                max_bytes == self.max_bytes_per_batch,
                range_sum(sizes, 0, n as int) <= usize::MAX,
                0 <= start <= i <= n,
                i > 0 ==> start < i,
                bytes == range_sum(sizes, start as int, i as int),
                m > 0 ==> {
                    &&& i - start <= m
                    &&& i - start >= 2 ==> bytes <= max_bytes
                    &&& out@.len() == 0 ==> start == 0
                    &&& out@.len() > 0 ==> out@[0].0 == 0 && out@[out@.len() - 1].1 == start
                    &&& forall|k: int| 0 <= k < out@.len() - 1 ==> #[trigger] out@[k + 1].0 == out@[k].1
                    &&& forall|k: int| 0 <= k < out@.len() ==> #[trigger] out@[k].0 < out@[k].1
                    &&& respects_limits(out@, sizes, m as nat, max_bytes as nat)
                    &&& forall|k: int| 0 <= k < out@.len() ==> {
                        ||| #[trigger] out@[k].1 - out@[k].0 == m
                        ||| range_sum(sizes, out@[k].0 as int, out@[k].1 as int) + sizes[out@[k].1 as int] > max_bytes
                    }
                },
                m == 0 ==> {
                    &&& out@.len() == i
                    &&& i > 0 ==> start == i - 1
                    &&& forall|k: int| 0 <= k < i ==> #[trigger] out@[k] == if k == 0 {
                        (0usize, 0usize)
                    } else {
                        ((k - 1) as usize, k as usize)
                    }
                },
            decreases n - i,
        {
            let item_bytes = item_sizes[i];
            proof {
                lemma_range_sum_split(sizes, 0, start as int, n as int);
                lemma_range_sum_split(sizes, 0, 0, start as int);
                lemma_range_sum_split(sizes, start as int, i + 1, n as int);
                lemma_range_sum_split(sizes, 0, i as int, i + 1);
                assert(range_sum(sizes, start as int, i + 1) == bytes + item_bytes);
                assert(range_sum(sizes, i as int, i + 1) == item_bytes);
            }
            let cur_len = i - start;
            let would_exceed_items = cur_len >= m;
            let would_exceed_bytes = bytes + item_bytes > max_bytes && cur_len > 0;
            if would_exceed_items || would_exceed_bytes {
                let ghost prev = out@;
                out.push((start, i));
                proof {
                    if m > 0 {
                        assert forall|k: int| 0 <= k < out@.len() implies {
                            ||| #[trigger] out@[k].1 - out@[k].0 == m
                            ||| range_sum(sizes, out@[k].0 as int, out@[k].1 as int) + sizes[out@[k].1 as int] > max_bytes
                        } by {
                            if k < prev.len() {
                                assert(out@[k] == prev[k]);
                            }
                        }
                        assert forall|k: int| 0 <= k < out@.len() - 1 implies #[trigger] out@[k + 1].0 == out@[k].1 by {
                            if k + 1 < prev.len() {
                                assert(out@[k] == prev[k]);
                                assert(out@[k + 1] == prev[k + 1]);
                            } else {
                                assert(out@[k] == prev[k]);
                            }
                        }
                        assert forall|k: int| 0 <= k < out@.len() implies {
                            &&& #[trigger] out@[k].1 - out@[k].0 <= m
                            &&& out@[k].1 - out@[k].0 >= 2 ==> range_sum(sizes, out@[k].0 as int, out@[k].1 as int) <= max_bytes
                        } by {
                            if k < prev.len() {
                                assert(out@[k] == prev[k]);
                            }
                        }
                    }
                }
                start = i;
                bytes = 0;
            }
            bytes = bytes + item_bytes;
            i = i + 1;
        }
        let ghost prev = out@;
        out.push((start, n));
        proof {
            if m > 0 {
                assert forall|k: int| 0 <= k < out@.len() - 1 implies #[trigger] out@[k + 1].0 == out@[k].1 by {
                    if k + 1 < prev.len() {
                        assert(out@[k] == prev[k]);
                        assert(out@[k + 1] == prev[k + 1]);
                    } else {
                        assert(out@[k] == prev[k]);
                    }
                }
                assert forall|k: int| 0 <= k < out@.len() implies {
                    &&& #[trigger] out@[k].1 - out@[k].0 <= m
                    &&& out@[k].1 - out@[k].0 >= 2 ==> range_sum(sizes, out@[k].0 as int, out@[k].1 as int) <= max_bytes
                } by {
                    if k < prev.len() {
                        assert(out@[k] == prev[k]);
                    }
                }
                assert forall|k: int| 0 <= k < out@.len() - 1 implies {
                    ||| #[trigger] out@[k].1 - out@[k].0 == m
                    ||| range_sum(sizes, out@[k].0 as int, out@[k].1 as int) + sizes[out@[k].1 as int] > max_bytes
                } by {
                    assert(out@[k] == prev[k]);
                }
                assert forall|k: int| 0 <= k < out@.len() implies #[trigger] out@[k].0 < out@[k].1 by {
                    if k < prev.len() {
                        assert(out@[k] == prev[k]);
                    }
                }
            } else {
                assert forall|k: int| 1 <= k <= n implies #[trigger] out@[k] == ((k - 1) as usize, k as usize) by {
                    if k < n {
                        assert(out@[k] == prev[k]);
                    }
                }
            }
        }
        out
    }
}

} // verus!
