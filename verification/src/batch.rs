//! Batch execution accounting: fee discounts, per-item outcomes and the
//! estimated instruction savings of one batch call over many single calls.
use vstd::prelude::*;

verus! {

/// Maximum number of items allowed in a single batch call.
pub const MAX_BATCH_SIZE: u32 = 50;

/// Discount (basis points off the aggregate fee) for a batch of `n` items.
pub open spec fn discount_for(item_count: u32) -> u32 {
    if item_count <= 4 {
        0
    } else if item_count <= 9 {
        500
    } else if item_count <= 19 {
        1_000
    } else if item_count <= 49 {
        1_500
    } else {
        2_000
    }
}

/// Batch discount schedule: 1-4 items 0%, 5-9 5%, 10-19 10%, 20-49 15%,
/// 50+ 20%.
pub fn batch_discount_bps(item_count: u32) -> (r: u32)
    ensures
        r == discount_for(item_count),
{
    if item_count <= 4 {
        0
    } else if item_count <= 9 {
        500
    } else if item_count <= 19 {
        1_000
    } else if item_count <= 49 {
        1_500
    } else {
        2_000
    }
}

/// `v` clamped into the range of `i128`.
pub open spec fn clamp_i128(v: int) -> int {
    if v > i128::MAX {
        i128::MAX as int
    } else if v < i128::MIN {
        i128::MIN as int
    } else {
        v
    }
}

/// `v` clamped into the range of `u64`.
pub open spec fn clamp_u64(v: int) -> int {
    if v > u64::MAX {
        u64::MAX as int
    } else if v < 0 {
        0
    } else {
        v
    }
}

/// Integer division truncating toward zero, as Rust computes it.
pub open spec fn div_toward_zero(a: int, b: int) -> int
    recommends
        b > 0,
{
    if a >= 0 {
        a / b
    } else {
        -((-a) / b)
    }
}

/// The fee after a basis-point discount, saturating at zero: a
/// non-negative fee is never discounted below zero. The product and the
/// difference saturate at the bounds of `i128`.
pub open spec fn discounted_fee(fee: i128, discount_bps: u32) -> int {
    let raw = clamp_i128(fee - div_toward_zero(clamp_i128(fee * discount_bps), 10_000));
    if fee >= 0 && raw < 0 {
        0
    } else {
        raw
    }
}

/// Apply a basis-point discount to a fee amount (1 bp = 0.01%); the
/// discounted fee saturates at zero.
pub fn apply_discount(fee: i128, discount_bps: u32) -> (r: i128)
    ensures
        r == discounted_fee(fee, discount_bps),
{
    let bps = discount_bps as i128;
    assert(fee < 0 ==> fee * bps <= 0) by (nonlinear_arith)
        requires
            bps >= 0,
    ;
    assert(fee >= 0 ==> fee * bps >= 0) by (nonlinear_arith)
        requires
            bps >= 0,
    ;
    let product = match fee.checked_mul(bps) {
        Some(p) => p,
        None => if fee < 0 {
            i128::MIN
        } else {
            i128::MAX
        },
    };
    let discount = product / 10_000;
    assert(discount == div_toward_zero(product as int, 10_000));
    let raw = match fee.checked_sub(discount) {
        Some(d) => d,
        None => if discount > 0 {
            i128::MIN
        } else {
            i128::MAX
        },
    };
    if fee >= 0 && raw < 0 {
        0
    } else {
        raw
    }
}

/// Per-item outcome inside a `BatchResult`.
#[derive(Clone, Debug)]
pub struct BatchItemResult {
    /// Zero-based index of the item in the input batch.
    pub index: u32,
    /// `true` if the item was processed successfully.
    pub success: bool,
    /// Optional identifier produced by the operation.
    pub item_id: Option<u64>,
    /// Human-readable reason for failure (empty on success).
    pub error: String,
}

/// Aggregate outcome returned by every batch entry point.
#[derive(Clone, Debug)]
pub struct BatchResult {
    pub succeeded: u32,
    pub failed: u32,
    pub results: Vec<BatchItemResult>,
    pub estimated_savings_instructions: u64,
}

/// Instruction-budget snapshot used for refund accounting.
#[derive(Clone, Debug)]
pub struct GasMeter {
    instructions_before: u64,
}

/// Per-call baseline overhead (auth, events, storage round-trips).
pub open spec fn single_call_overhead() -> int {
    200_000
}

/// Instructions consumed so far in this invocation. The host does not
/// expose the budget in production builds, so the counter reads zero.
fn instructions_consumed() -> (r: u64)
    ensures
        r == 0,
{
    0
}

impl GasMeter {
    /// Instructions recorded when the meter was started.
    pub closed spec fn before(&self) -> u64 {
        self.instructions_before
    }

    /// Snapshot the current consumed-instruction counter.
    pub fn start() -> (m: Self)
        ensures
            m.before() == 0,
    {
        GasMeter { instructions_before: instructions_consumed() }
    }

    /// Instructions used since `start()` (saturating at zero).
    pub fn consumed(&self) -> (r: u64)
        ensures
            r == clamp_u64(0 - self.before()),
    {
        instructions_consumed().saturating_sub(self.instructions_before)
    }

    /// Estimated savings of one batch of `n` items over `n` single calls:
    /// `(n - 1)` call overheads, minus 5% of the batch's own usage, floored
    /// at zero.
    pub open spec fn savings(&self, item_count: u32) -> int {
        if item_count == 0 {
            0
        } else {
            clamp_u64(
                clamp_u64(single_call_overhead() * (item_count - 1)) - clamp_u64(0 - self.before())
                    / 20,
            )
        }
    }

    /// Estimate instruction savings relative to `item_count` individual calls.
    pub fn batch_savings(&self, item_count: u32) -> (r: u64)
        ensures
            r == self.savings(item_count),
    {
        if item_count == 0 {
            return 0;
        }
        let used = self.consumed();
        let single_overhead: u64 = 200_000;
        let n = item_count as u64;
        let gross_savings = match single_overhead.checked_mul(n - 1) {
            Some(g) => g,
            None => u64::MAX,
        };
        let batch_overhead = used / 20;
        gross_savings.saturating_sub(batch_overhead)
    }
}

/// Build a successful `BatchItemResult`.
pub fn ok_item(index: u32, item_id: u64) -> (r: BatchItemResult)
    ensures
        r.index == index,
        r.success,
        r.item_id == Some(item_id),
        r.error@ == Seq::<char>::empty(),
{
    BatchItemResult { index, success: true, item_id: Some(item_id), error: String::new() }
}

/// Build a failed `BatchItemResult`.
pub fn err_item(index: u32, reason: &str) -> (r: BatchItemResult)
    ensures
        r.index == index,
        !r.success,
        r.item_id.is_none(),
        r.error@ == reason@,
{
    BatchItemResult { index, success: false, item_id: None, error: reason.to_owned() }
}

/// Number of successful outcomes.
pub open spec fn count_succeeded(items: Seq<BatchItemResult>) -> nat
    decreases items.len(),
{
    if items.len() == 0 {
        0
    } else {
        count_succeeded(items.drop_last()) + if items.last().success {
            1nat
        } else {
            0nat
        }
    }
}

proof fn lemma_count_succeeded_bound(items: Seq<BatchItemResult>)
    ensures
        count_succeeded(items) <= items.len(),
    decreases items.len(),
{
    if items.len() > 0 {
        lemma_count_succeeded_bound(items.drop_last());
    }
}

/// Assemble the final `BatchResult` from the item outcomes.
pub fn finalize(items: Vec<BatchItemResult>, meter: &GasMeter, item_count: u32) -> (r: BatchResult)
    requires
        items@.len() <= u32::MAX,
    ensures
        r.succeeded == count_succeeded(items@),
        r.failed == items@.len() - count_succeeded(items@),
        r.results@ == items@,
        r.estimated_savings_instructions == meter.savings(item_count),
{
    let mut succeeded: u32 = 0;
    let mut failed: u32 = 0;
    let mut i: usize = 0;
    while i < items.len()
        invariant
            i <= items@.len(),
            items@.len() <= u32::MAX,
            succeeded == count_succeeded(items@.take(i as int)),
            succeeded + failed == i,
        decreases items@.len() - i,
    {
        proof {
            assert(items@.take(i + 1).drop_last() =~= items@.take(i as int));
            lemma_count_succeeded_bound(items@.take(i as int));
        }
        if items[i].success {
            succeeded = succeeded + 1;
        } else {
            failed = failed + 1;
        }
        i = i + 1;
    }
    assert(items@.take(items@.len() as int) =~= items@);
    BatchResult {
        succeeded,
        failed,
        results: items,
        estimated_savings_instructions: meter.batch_savings(item_count),
    }
}

/// The success and failure counts always add up to the number of outcomes.
pub proof fn law_batch_counts_cover_all_items(items: Seq<BatchItemResult>)
    ensures
        count_succeeded(items) <= items.len(),
{
    lemma_count_succeeded_bound(items);
}

} // verus!
