//! Bounded fan-out: records are fetched in fixed-size chunks, one chunk at a time.

use vstd::prelude::*;

verus! {

/// How many detail fetches run together.
pub const CHUNK_SIZE: usize = 30;

pub open spec fn min(a: int, b: int) -> int {
    if a < b {
        a
    } else {
        b
    }
}

/// The chunks of `n` items: `[k * size, min(k * size + size, n))` for each
/// chunk `k`, as many as it takes to cover every item and none empty.
pub fn chunk_bounds(n: usize, size: usize) -> (r: Vec<(usize, usize)>)
    requires
        size > 0,
    ensures
        forall|k: int| 0 <= k < r@.len() ==> (#[trigger] r@[k]).0 == k * size && r@[k].1 == min(k * size + size, n as int),
        forall|k: int| 0 <= k < r@.len() ==> #[trigger] (k * size) < n,
        r@.len() * size >= n,
{
    let mut out: Vec<(usize, usize)> = Vec::new();
    let mut start: usize = 0;
    assert(out@.len() * size == 0) by (nonlinear_arith)
        requires
            out@.len() == 0,
    ;
    while start < n
        invariant
            size > 0,
            start <= n,
            start == min(out@.len() * size, n as int),
            forall|k: int| 0 <= k < out@.len() ==> (#[trigger] out@[k]).0 == k * size && out@[k].1 == min(k * size + size, n as int),
            forall|k: int| 0 <= k < out@.len() ==> #[trigger] (k * size) < n,
        decreases n - start,
    {
        let ghost k = out@.len() as int;
        let ghost before = out@;
        assert(start == k * size);
        let end = if n - start < size { n } else { start + size };
        out.push((start, end));
        assert((k + 1) * size == k * size + size) by (nonlinear_arith);
        assert forall|x: int| 0 <= x < out@.len() implies #[trigger] (x * size) < n by {
            if x < k {
                assert(out@[x] == before[x]);
            }
        }
        start = end;
    }
    out
}

/// The number of items in the first `c` chunks of `n` items.
pub open spec fn chunk_total(size: int, n: int, c: nat) -> int
    decreases c,
{
    if c == 0 {
        0
    } else {
        let k = c - 1;
        chunk_total(size, n, k as nat) + (min(k * size + size, n) - k * size)
    }
}

proof fn lemma_chunk_total_prefix(size: int, n: int, c: nat)
    requires
        size > 0,
        n >= 0,
        forall|k: int| 0 <= k < c ==> #[trigger] (k * size) < n,
    ensures
        chunk_total(size, n, c) == min(c * size, n),
    decreases c,
{
    if c > 0 {
        let k = c - 1;
        lemma_chunk_total_prefix(size, n, k as nat);
        assert(k * size < n);
        assert(c * size == k * size + size) by (nonlinear_arith)
            requires
                k == c - 1,
        ;
        assert(chunk_total(size, n, c) == chunk_total(size, n, k as nat) + (min(k * size + size, n) - k * size));
    } else {
        assert(c * size == 0) by (nonlinear_arith)
            requires
                c == 0,
        ;
    }
}

/// The chunks that `chunk_bounds` makes hold every item once: as many
/// chunks as it returns hold `n` items together, so a batch over `n`
/// records yields `n` results.
pub proof fn lemma_chunks_cover(n: nat, size: nat, c: nat)
    requires
        size > 0,
        forall|k: int| 0 <= k < c ==> #[trigger] (k * size) < n,
        c * size >= n,
    ensures
        chunk_total(size as int, n as int, c) == n,
{
    lemma_chunk_total_prefix(size as int, n as int, c);
}

} // verus!
