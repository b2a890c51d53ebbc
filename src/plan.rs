use vstd::prelude::*;

verus! {

/// The last block of the read window that starts at `cur`.
pub open spec fn spec_window_end(cur: u64, end: u64, limit: u64) -> int {
    if end - cur < limit {
        end as int
    } else {
        cur + limit - 1
    }
}

/// Whether `windows` split `[start, end]` into consecutive ranges of `limit`
/// blocks each, the last one possibly shorter.
pub open spec fn windows_cover(windows: Seq<(u64, u64)>, start: u64, end: u64, limit: u64) -> bool {
    &&& (windows.len() == 0 <==> start > end)
    &&& windows.len() > 0 ==> windows[0].0 == start && windows.last().1 == end
    &&& forall|i: int| 0 <= i < windows.len() ==> windows[i].0 <= windows[i].1
        && windows[i].1 == spec_window_end(windows[i].0, end, limit)
    &&& forall|i: int| 0 <= i < windows.len() - 1 ==> windows[i + 1].0 == windows[i].1 + 1
}

/// The number of blocks in a range.
pub open spec fn range_len(r: (u64, u64)) -> int {
    r.1 - r.0 + 1
}

/// The last block the reader asks for in one go, starting at `cur`.
pub fn read_window_end(cur: u64, end: u64, limit: u64) -> (r: u64)
    requires
        cur <= end,
        limit > 0,
    ensures
        r == spec_window_end(cur, end, limit),
        cur <= r <= end,
        range_len((cur, r)) <= limit,
{
    if end - cur < limit {
        end
    } else {
        cur + (limit - 1)
    }
}

/// The windows the reader requests from storage, in order, to cover `[start, end]`.
pub fn read_windows(start: u64, end: u64, limit: u64) -> (r: Vec<(u64, u64)>)
    requires
        limit > 0,
    ensures
        windows_cover(r@, start, end, limit),
{
    let mut windows: Vec<(u64, u64)> = Vec::new();
    if start > end {
        return windows;
    }
    let mut cur: u64 = start;
    let mut done: bool = false;
    while !done
        invariant
            limit > 0,
            start <= end,
            start <= cur <= end,
            done ==> windows@.len() > 0 && windows@.last().1 == end,
            !done ==> (windows@.len() == 0 <==> cur == start),
            !done && windows@.len() > 0 ==> cur == windows@.last().1 + 1,
            windows@.len() > 0 ==> windows@[0].0 == start,
            forall|i: int| 0 <= i < windows@.len() ==> windows@[i].0 <= windows@[i].1
                && windows@[i].1 == spec_window_end(windows@[i].0, end, limit),
            forall|i: int| 0 <= i < windows@.len() - 1 ==> windows@[i + 1].0 == windows@[i].1 + 1,
        decreases end - cur + (if done { 0int } else { 1int }),
    {
        let last = read_window_end(cur, end, limit);
        windows.push((cur, last));
        if last == end {
            done = true;
        } else {
            cur = last + 1;
        }
    }
    windows
}

/// The chunk boundary a block belongs to: the first multiple of `chunk_size` at or after it.
pub open spec fn boundary_of(n: u64, chunk_size: u64) -> int {
    if n % chunk_size == 0 {
        n as int
    } else {
        n - n % chunk_size + chunk_size
    }
}

/// Whether `batches` split `[first, last]` into consecutive `(boundary, lo, hi)`
/// ranges, each inside one chunk and ending at a chunk boundary or at `last`.
pub open spec fn batches_cover(batches: Seq<(u64, u64, u64)>, first: u64, last: u64, chunk_size: u64) -> bool {
    &&& (batches.len() == 0 <==> first > last)
    &&& batches.len() > 0 ==> batches[0].1 == first && batches.last().2 == last
    &&& forall|i: int| 0 <= i < batches.len() ==> {
        let (key, lo, hi) = #[trigger] batches[i];
        &&& lo <= hi
        &&& key == boundary_of(lo, chunk_size)
        &&& hi == if last < key { last as int } else { key as int }
    }
    &&& forall|i: int| 0 <= i < batches.len() - 1 ==> batches[i + 1].1 == batches[i].2 + 1
}

/// The chunk boundary `n` belongs to.
pub fn chunk_boundary_of(n: u64, chunk_size: u64) -> (r: u64)
    requires
        chunk_size > 0,
        n + chunk_size <= u64::MAX,
    ensures
        r == boundary_of(n, chunk_size),
        n <= r,
        r % chunk_size == 0,
        r - n < chunk_size,
{
    let rem = n % chunk_size;
    if rem == 0 {
        n
    } else {
        proof {
            vstd::arithmetic::div_mod::lemma_fundamental_div_mod(n as int, chunk_size as int);
            vstd::arithmetic::div_mod::lemma_mod_multiples_basic(n as int / chunk_size as int + 1, chunk_size as int);
            assert(n - rem + chunk_size == (n as int / chunk_size as int + 1) * chunk_size) by (nonlinear_arith)
                requires n == chunk_size * (n as int / chunk_size as int) + rem;
        }
        n - rem + chunk_size
    }
}

/// Splits a read window `[first, last]` into chunk-aligned batches, each keyed by
/// the chunk boundary it belongs to, so that a batch never spans two chunks.
pub fn chunk_batches(first: u64, last: u64, chunk_size: u64) -> (r: Vec<(u64, u64, u64)>)
    requires
        chunk_size > 0,
        last + chunk_size <= u64::MAX,
    ensures
        batches_cover(r@, first, last, chunk_size),
{
    let mut batches: Vec<(u64, u64, u64)> = Vec::new();
    if first > last {
        return batches;
    }
    let mut lo: u64 = first;
    let mut done: bool = false;
    while !done
        invariant
            chunk_size > 0,
            last + chunk_size <= u64::MAX,
            first <= last,
            first <= lo <= last,
            done ==> batches@.len() > 0 && batches@.last().2 == last,
            !done ==> (batches@.len() == 0 <==> lo == first),
            !done && batches@.len() > 0 ==> lo == batches@.last().2 + 1,
            batches@.len() > 0 ==> batches@[0].1 == first,
            forall|i: int| 0 <= i < batches@.len() ==> {
                let (key, l, h) = #[trigger] batches@[i];
                &&& l <= h
                &&& key == boundary_of(l, chunk_size)
                &&& h == if last < key { last as int } else { key as int }
            },
            forall|i: int| 0 <= i < batches@.len() - 1 ==> batches@[i + 1].1 == batches@[i].2 + 1,
        decreases last - lo + (if done { 0int } else { 1int }),
    {
        let key = chunk_boundary_of(lo, chunk_size);
        let hi = if last < key { last } else { key };
        batches.push((key, lo, hi));
        if hi == last {
            done = true;
        } else {
            lo = hi + 1;
        }
    }
    batches
}

} // verus!
