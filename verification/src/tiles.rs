//! The row partition handed to the rendering workers.
//!
//! The image's rows are split into contiguous blocks, one per worker,
//! each block holding the ceiling of `height / workers` rows except
//! possibly the last. The functions here plan that partition and size the
//! per-block pixel buffers; the partition laws say the blocks tile the
//! row range exactly, in order, with no gap and no overlap.

use vstd::prelude::*;

use crate::geom::spec_min2;
use vstd::arithmetic::div_mod::lemma_fundamental_div_mod;
use vstd::arithmetic::div_mod::lemma_mod_bound;
use vstd::arithmetic::mul::lemma_mul_inequality;

verus! {

/// Rows per block: `height / workers`, rounded up.
pub open spec fn spec_block_rows(height: int, workers: int) -> int {
    (height + workers - 1) / workers
}

/// First row of block `n`, clamped to the row range.
pub open spec fn spec_block_lo(n: int, height: int, workers: int) -> int {
    spec_min2(n * spec_block_rows(height, workers), height)
}

/// One past the last row of block `n`, clamped to the row range.
pub open spec fn spec_block_hi(n: int, height: int, workers: int) -> int {
    spec_min2((n + 1) * spec_block_rows(height, workers), height)
}

/// The per-block row ranges tile `0 .. height` exactly: the first block
/// starts at row zero, the last ends at `height`, every block is within
/// range, and each block begins where the previous one ended.
pub proof fn lemma_blocks_partition(height: int, workers: int)
    requires
        1 <= workers,
        0 <= height,
    ensures
        spec_block_lo(0, height, workers) == 0,
        spec_block_hi(workers - 1, height, workers) == height,
        forall|n: int|
            0 <= n ==> spec_block_hi(n, height, workers) == spec_block_lo(n + 1, height, workers),
        forall|n: int|
            0 <= n ==> (0 <= #[trigger] spec_block_lo(n, height, workers) && spec_block_lo(
                n,
                height,
                workers,
            ) <= spec_block_hi(n, height, workers) <= height),
{
    let rows = spec_block_rows(height, workers);
    lemma_fundamental_div_mod(height + workers - 1, workers);
    lemma_mod_bound(height + workers - 1, workers);
    assert(workers * rows == height + workers - 1 - ((height + workers - 1) % workers));
    assert(height <= workers * rows <= height + workers - 1);
    assert(rows >= 0) by (nonlinear_arith)
        requires
            workers >= 1,
            workers * rows >= 0,
    ;
    assert forall|n: int|
        0 <= n implies (0 <= #[trigger] spec_block_lo(n, height, workers) && spec_block_lo(
        n,
        height,
        workers,
    ) <= spec_block_hi(n, height, workers) <= height) by {
        lemma_mul_inequality(0, n, rows);
        lemma_mul_inequality(n, n + 1, rows);
    }
    lemma_mul_inequality(workers - 1, workers, rows);
    assert((workers - 1 + 1) * rows == workers * rows);
}

/// The row range of block `n` of `workers` blocks over `height` rows.
pub fn block_bounds(n: usize, height: usize, workers: usize) -> (r: (usize, usize))
    requires
        1 <= workers,
        n < workers,
        height + workers <= usize::MAX,
    ensures
        r.0 == spec_block_lo(n as int, height as int, workers as int),
        r.1 == spec_block_hi(n as int, height as int, workers as int),
        r.0 <= r.1 <= height,
{
    let rows = (height + workers - 1) / workers;
    proof {
        lemma_blocks_partition(height as int, workers as int);
        lemma_fundamental_div_mod(height as int + workers as int - 1, workers as int);
        lemma_mod_bound(height as int + workers as int - 1, workers as int);
        assert(workers * rows <= height + workers - 1);
        lemma_mul_inequality(n as int, workers as int, rows as int);
        lemma_mul_inequality(n as int + 1, workers as int, rows as int);
    }
    let lo_raw = n * rows;
    let hi_raw = (n + 1) * rows;
    let lo = if lo_raw > height {
        height
    } else {
        lo_raw
    };
    let hi = if hi_raw > height {
        height
    } else {
        hi_raw
    };
    (lo, hi)
}

/// Relies on `num_cpus::get`: the number of logical CPUs available to the
/// process; its documentation promises that it always returns at least 1.
#[verifier::external_body]
fn worker_count() -> (n: usize)
    ensures
        1 <= n,
{
    num_cpus::get()
}

/// Plan the row blocks for one render: one contiguous block per worker,
/// as many workers as the host offers (capped at one block per row).
///
/// Whatever the host reports, the returned ranges tile `0 .. height` in
/// order: the first starts at row zero, the last ends at `height`, each
/// block begins where the previous ended, and none is empty unless the
/// image is.
pub fn plan_blocks(height: usize) -> (blocks: Vec<(usize, usize)>)
    requires
        height <= usize::MAX / 2,
    ensures
        1 <= blocks@.len(),
        blocks@[0].0 == 0,
        blocks@[blocks@.len() - 1].1 == height,
        forall|i: int| 0 <= i < blocks@.len() ==> #[trigger] blocks@[i].0 <= blocks@[i].1 <= height,
        forall|i: int|
            0 <= i < blocks@.len() - 1 ==> #[trigger] blocks@[i + 1].0 == blocks@[i].1,
{
    let reported = worker_count();
    let workers = if height == 0 {
        1
    } else if reported > height {
        height
    } else {
        reported
    };
    let mut blocks: Vec<(usize, usize)> = Vec::new();
    let mut n: usize = 0;
    while n < workers
        invariant
            1 <= workers,
            height + workers <= usize::MAX,
            n <= workers,
            blocks@.len() == n,
            forall|i: int|
                0 <= i < n ==> #[trigger] blocks@[i] == (
                    spec_block_lo(i, height as int, workers as int) as usize,
                    spec_block_hi(i, height as int, workers as int) as usize,
                ),
        decreases workers - n,
    {
        let b = block_bounds(n, height, workers);
        blocks.push(b);
        n = n + 1;
    }
    proof {
        lemma_blocks_partition(height as int, workers as int);
    }
    blocks
}

/// The byte length of one block's pixel buffer: three bytes per pixel,
/// `width` pixels per row.
pub fn block_byte_len(lo: usize, hi: usize, width: usize) -> (sz: usize)
    requires
        lo <= hi,
        (hi - lo) * width * 3 <= usize::MAX,
    ensures
        sz == (hi - lo) * width * 3,
{
    proof {
        assert((hi - lo) * width >= 0 && (hi - lo) * width * 3 >= (hi - lo) * width)
            by (nonlinear_arith)
            requires
                lo <= hi,
                width >= 0,
        ;
    }
    (hi - lo) * width * 3
}

} // verus!
