use vstd::prelude::*;

use crate::applier::{consecutive_from, is_chunk_boundary, snapshot_points};
use crate::evm_map::{token_map, SpotToken, SystemAddressMap};
use crate::plan::{range_len, windows_cover};

verus! {

/// Resolving the token map twice from the same token list gives the same map.
pub proof fn lemma_token_map_idempotent(
    first: SystemAddressMap,
    second: SystemAddressMap,
    tokens_a: Seq<SpotToken>,
    tokens_b: Seq<SpotToken>,
)
    requires
        tokens_a == tokens_b,
        first@ == token_map(tokens_a),
        second@ == token_map(tokens_b),
    ensures
        first@ == second@,
{
}

/// Once a run of consecutive blocks has been applied, none of them is the block
/// the cursor expects next, so applying any of them again is rejected.
pub proof fn lemma_reapply_rejected(applied: Seq<u64>, start: int, i: int)
    requires
        consecutive_from(applied, start),
        0 <= i < applied.len(),
    ensures
        applied[i] != start + applied.len(),
{
}

/// The snapshots of a run of consecutive blocks fall exactly on the chunk
/// boundaries inside that run, in order.
pub proof fn lemma_snapshot_points_exact(numbers: Seq<u64>, start: int, chunk_size: u64)
    requires
        consecutive_from(numbers, start),
        chunk_size > 0,
    ensures
        forall|n: u64| snapshot_points(numbers, chunk_size, true).contains(n)
            <==> start <= n < start + numbers.len() && n % chunk_size == 0,
        forall|i: int, j: int| 0 <= i < j < snapshot_points(numbers, chunk_size, true).len()
            ==> snapshot_points(numbers, chunk_size, true)[i] < snapshot_points(numbers, chunk_size, true)[j],
    decreases numbers.len(),
{
    if numbers.len() > 0 {
        let rest = numbers.drop_last();
        lemma_snapshot_points_exact(rest, start, chunk_size);
        let p = snapshot_points(rest, chunk_size, true);
        let last = numbers.last();
        assert(last == start + rest.len());
        let whole = snapshot_points(numbers, chunk_size, true);
        assert forall|n: u64| whole.contains(n)
            <==> start <= n < start + numbers.len() && n % chunk_size == 0 by {
            if last % chunk_size == 0 {
                assert(whole == p.push(last));
                if whole.contains(n) {
                    let k = choose|k: int| 0 <= k < whole.len() && whole[k] == n;
                    if k < p.len() {
                        assert(p[k] == n);
                    }
                }
                if p.contains(n) {
                    let k = choose|k: int| 0 <= k < p.len() && p[k] == n;
                    assert(whole[k] == n);
                }
                if n == last {
                    assert(whole[p.len() as int] == n);
                }
            } else {
                assert(whole == p);
            }
        }
        assert forall|i: int, j: int| 0 <= i < j < snapshot_points(numbers, chunk_size, true).len()
            implies snapshot_points(numbers, chunk_size, true)[i] < snapshot_points(numbers, chunk_size, true)[j] by {
            if j == p.len() {
                assert(p.contains(p[i]));
            }
        }
    }
}

/// Where snapshots fall depends on the block numbers alone, not on how the
/// blocks were cut into batches.
pub proof fn lemma_snapshot_points_batching(a: Seq<u64>, b: Seq<u64>, chunk_size: u64, enabled: bool)
    ensures
        snapshot_points(a + b, chunk_size, enabled)
            == snapshot_points(a, chunk_size, enabled) + snapshot_points(b, chunk_size, enabled),
    decreases b.len(),
{
    if b.len() == 0 {
        assert(a + b == a);
        assert(snapshot_points(a, chunk_size, enabled) + Seq::<u64>::empty() == snapshot_points(a, chunk_size, enabled));
    } else {
        lemma_snapshot_points_batching(a, b.drop_last(), chunk_size, enabled);
        assert((a + b).drop_last() == a + b.drop_last());
        assert((a + b).last() == b.last());
        let pa = snapshot_points(a, chunk_size, enabled);
        let pb = snapshot_points(b.drop_last(), chunk_size, enabled);
        if enabled && is_chunk_boundary(b.last(), chunk_size) {
            assert((pa + pb).push(b.last()) == pa + pb.push(b.last()));
        }
    }
}

/// Every read window holds at most `limit` blocks, so the one queued window and
/// the one being read hold at most twice that many at any instant.
pub proof fn lemma_resident_blocks_bound(windows: Seq<(u64, u64)>, start: u64, end: u64, limit: u64, i: int)
    requires
        limit > 0,
        windows_cover(windows, start, end, limit),
        0 <= i < windows.len() - 1,
    ensures
        range_len(windows[i]) <= limit,
        range_len(windows[i]) + range_len(windows[i + 1]) <= 2 * limit,
{
}

} // verus!
