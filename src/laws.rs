use vstd::prelude::*;

use crate::material::MaterialView;
use crate::transfer::{transfer_outcome, transferred};

verus! {

/// The record after the transfer attempts `steps`, taken in order, each a
/// pair of signer and new holder; `None` when one of them is refused.
pub open spec fn after_transfers(
    start: MaterialView,
    steps: Seq<(Seq<u8>, Seq<u8>)>,
) -> Option<MaterialView>
    decreases steps.len(),
{
    if steps.len() == 0 {
        Some(start)
    } else {
        match after_transfers(start, steps.drop_last()) {
            Some(record) => transfer_outcome(record, steps.last().0, steps.last().1),
            None => None,
        }
    }
}

/// When every transfer of a run succeeds, so does each run of its first
/// transfers.
proof fn lemma_prefix_succeeds(start: MaterialView, steps: Seq<(Seq<u8>, Seq<u8>)>, k: int)
    requires
        after_transfers(start, steps) is Some,
        0 <= k <= steps.len(),
    ensures
        after_transfers(start, steps.take(k)) is Some,
        after_transfers(start, steps.take(k))->0.sequence == start.sequence + k,
    decreases steps.len(),
{
    if steps.len() > 0 {
        let shorter = steps.drop_last();
        if k == steps.len() {
            lemma_prefix_succeeds(start, shorter, k - 1);
            assert(shorter.take(k - 1) =~= shorter);
            assert(steps.take(k) =~= steps);
        } else {
            lemma_prefix_succeeds(start, shorter, k);
            assert(shorter.take(k) =~= steps.take(k));
        }
    } else {
        assert(steps.take(k) =~= steps);
    }
}

/// Sequence monotonicity: on a record created with counter 0, after a run of
/// `n` successful transfers the counter is `n`, and after the first `k` of
/// them it is `k` (so it is `n - 1` just before the last one).
pub proof fn lemma_sequence_counts_transfers(
    start: MaterialView,
    steps: Seq<(Seq<u8>, Seq<u8>)>,
)
    requires
        start.sequence == 0,
        after_transfers(start, steps) is Some,
    ensures
        after_transfers(start, steps)->0.sequence == steps.len(),
        forall|k: int|
            0 <= k <= steps.len() ==> #[trigger] after_transfers(start, steps.take(k)) is Some
                && after_transfers(start, steps.take(k))->0.sequence == k,
{
    assert forall|k: int| 0 <= k <= steps.len() implies #[trigger] after_transfers(
        start,
        steps.take(k),
    ) is Some && after_transfers(start, steps.take(k))->0.sequence == k by {
        lemma_prefix_succeeds(start, steps, k);
    }
    lemma_prefix_succeeds(start, steps, steps.len() as int);
    assert(steps.take(steps.len() as int) =~= steps);
}

/// Self-transfer: the holder may transfer a record to itself; the holder
/// stays the same and the counter still advances by one.
pub proof fn lemma_self_transfer(record: MaterialView)
    ensures
        transfer_outcome(record, record.holder, record.holder) == Some(
            MaterialView { holder: record.holder, sequence: record.sequence + 1, id: record.id },
        ),
        transfer_outcome(record, record.holder, record.holder) == Some(
            transferred(record, record.holder),
        ),
{
}

} // verus!
