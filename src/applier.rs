use vstd::prelude::*;

use crate::error::SyncError;

verus! {

/// Whether block `n` closes a chunk of `chunk_size` blocks.
pub open spec fn is_chunk_boundary(n: u64, chunk_size: u64) -> bool {
    chunk_size > 0 && n % chunk_size == 0
}

/// Whether `numbers` are `start`, `start + 1`, ... with no gap or repeat.
pub open spec fn consecutive_from(numbers: Seq<u64>, start: int) -> bool {
    forall|i: int| 0 <= i < numbers.len() ==> numbers[i] == start + i
}

/// The blocks among `numbers` after which a snapshot is written, in order.
pub open spec fn snapshot_points(numbers: Seq<u64>, chunk_size: u64, enabled: bool) -> Seq<u64>
    decreases numbers.len(),
{
    if numbers.len() == 0 {
        Seq::empty()
    } else {
        let rest = snapshot_points(numbers.drop_last(), chunk_size, enabled);
        let n = numbers.last();
        if enabled && is_chunk_boundary(n, chunk_size) {
            rest.push(n)
        } else {
            rest
        }
    }
}

/// The processor's bookkeeping: which block comes next, and when to checkpoint.
///
/// It owns the cursor of the single state a run advances; executing a block's
/// transactions is left to the caller, which asks `apply_block` first.
#[derive(Debug, Clone, Copy, PartialEq, Eq, Structural)]
pub struct Applier {
    /// The number of the block the state expects next.
    pub next_block: u64,
    /// Snapshots are due at multiples of this.
    pub chunk_size: u64,
    /// Whether a snapshot directory was configured.
    pub snapshots: bool,
}

impl Applier {
    pub open spec fn wf(&self) -> bool {
        self.chunk_size > 0
    }

    /// Whether a snapshot is due once block `n` is committed.
    pub open spec fn snapshot_due(&self, n: u64) -> bool {
        self.snapshots && is_chunk_boundary(n, self.chunk_size)
    }

    /// An applier whose state expects block `next_block`.
    pub fn new(next_block: u64, chunk_size: u64, snapshots: bool) -> (r: Applier)
        requires
            chunk_size > 0,
        ensures
            r.wf(),
            r.next_block == next_block,
            r.chunk_size == chunk_size,
            r.snapshots == snapshots,
    {
        Applier { next_block, chunk_size, snapshots }
    }

    /// Accepts block `number` if it is the one the state expects, and advances
    /// the cursor; the result tells whether a snapshot is due after it.
    pub fn apply_block(&mut self, number: u64) -> (r: Result<bool, SyncError>)
        requires
            old(self).wf(),
            old(self).next_block < u64::MAX,
        ensures
            final(self).wf(),
            final(self).chunk_size == old(self).chunk_size,
            final(self).snapshots == old(self).snapshots,
            number == old(self).next_block ==> r == Ok::<bool, SyncError>(old(self).snapshot_due(number))
                && final(self).next_block == old(self).next_block + 1,
            number != old(self).next_block ==> r == Err::<bool, SyncError>(
                SyncError::State { expected: old(self).next_block, found: number },
            ) && *final(self) == *old(self),
    {
        if number != self.next_block {
            return Err(SyncError::State { expected: self.next_block, found: number });
        }
        self.next_block = self.next_block + 1;
        Ok(self.snapshots && number % self.chunk_size == 0)
    }

    /// Applies a batch of block numbers in order, stopping at the first one out
    /// of place; on success returns the blocks after which snapshots are due.
    pub fn apply_blocks(&mut self, numbers: &Vec<u64>) -> (r: Result<Vec<u64>, SyncError>)
        requires
            old(self).wf(),
            old(self).next_block + numbers@.len() < u64::MAX,
        ensures
            final(self).wf(),
            final(self).chunk_size == old(self).chunk_size,
            final(self).snapshots == old(self).snapshots,
            r is Ok <==> consecutive_from(numbers@, old(self).next_block as int),
            r matches Ok(points) ==> final(self).next_block == old(self).next_block + numbers@.len()
                && points@ == snapshot_points(numbers@, old(self).chunk_size, old(self).snapshots),
            r is Err ==> exists|k: int|
                0 <= k < numbers@.len()
                && consecutive_from(numbers@.take(k), old(self).next_block as int)
                && numbers@[k] != old(self).next_block + k
                && final(self).next_block == old(self).next_block + k
                && r == Err::<Vec<u64>, SyncError>(
                    SyncError::State { expected: (old(self).next_block + k) as u64, found: numbers@[k] },
                ),
    {
        let ghost start = self.next_block as int;
        let mut points: Vec<u64> = Vec::new();
        let mut i: usize = 0;
        while i < numbers.len()
            invariant
                self.wf(),
                self.chunk_size == old(self).chunk_size,
                self.snapshots == old(self).snapshots,
                start == old(self).next_block,
                start + numbers@.len() < u64::MAX,
                0 <= i <= numbers@.len(),
                self.next_block == start + i,
                consecutive_from(numbers@.take(i as int), start),
                points@ == snapshot_points(numbers@.take(i as int), self.chunk_size, self.snapshots),
            decreases numbers@.len() - i,
        {
            let n = numbers[i];
            let due = match self.apply_block(n) {
                Ok(due) => due,
                Err(e) => {
                    assert(numbers@[i as int] != start + i);
                    return Err(e);
                },
            };
            assert(numbers@.take(i + 1).drop_last() == numbers@.take(i as int));
            if due {
                points.push(n);
            }
            i = i + 1;
        }
        assert(numbers@.take(numbers@.len() as int) == numbers@);
        proof {
            if exists|k: int| 0 <= k < numbers@.len() && numbers@[k] != start + k {
                let k = choose|k: int| 0 <= k < numbers@.len() && numbers@[k] != start + k;
                assert(numbers@.take(i as int)[k] == numbers@[k]);
            }
        }
        Ok(points)
    }
}

} // verus!
