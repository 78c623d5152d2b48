//! Pixel scan order, block gathering, and the image's orientation.
//!
//! Each worker walks its row block from the last row to the first and each
//! row from the last column to the first, and the driver collects the
//! per-block buffers last block first. The two reversals together make the
//! output stream list every image row exactly once, top row of the stream
//! first; the laws here pin that down, and say that turning the reversals
//! off yields the same image mirrored on both axes.

use vstd::prelude::*;

use vstd::arithmetic::div_mod::lemma_fundamental_div_mod_converse_div;
use vstd::arithmetic::div_mod::lemma_fundamental_div_mod_converse_mod;

verus! {

/// The column of the `k`-th pixel a worker emits, with or without the
/// column reversal.
pub open spec fn spec_scan_col(width: int, k: int, rev: bool) -> int {
    if rev {
        width - 1 - k % width
    } else {
        k % width
    }
}

/// The image row of the `k`-th pixel a worker covering rows
/// `lo .. hi` emits, with or without the row reversal.
pub open spec fn spec_scan_row(lo: int, hi: int, width: int, k: int, rev: bool) -> int {
    if rev {
        hi - 1 - k / width
    } else {
        lo + k / width
    }
}

/// The pixels of rows `lo .. hi`, in the order a worker emits them:
/// `(column, row)` pairs, rows and columns descending when `rev` is set
/// and ascending otherwise.
pub fn scan_order(lo: usize, hi: usize, width: usize, rev: bool) -> (order: Vec<(usize, usize)>)
    requires
        lo <= hi,
        1 <= width,
        (hi - lo) * width <= usize::MAX,
    ensures
        order@.len() == (hi - lo) * width,
        forall|k: int|
            0 <= k < order@.len() ==> #[trigger] order@[k] == (
                spec_scan_col(width as int, k, rev) as usize,
                spec_scan_row(lo as int, hi as int, width as int, k, rev) as usize,
            ),
{
    let rows = hi - lo;
    let mut order: Vec<(usize, usize)> = Vec::new();
    let mut r: usize = 0;
    while r < rows
        invariant
            lo + rows == hi,
            1 <= width,
            rows * width <= usize::MAX,
            r <= rows,
            order@.len() == r * width,
            forall|k: int|
                0 <= k < order@.len() ==> #[trigger] order@[k] == (
                    spec_scan_col(width as int, k, rev) as usize,
                    spec_scan_row(lo as int, hi as int, width as int, k, rev) as usize,
                ),
        decreases rows - r,
    {
        proof {
            vstd::arithmetic::mul::lemma_mul_inequality(r as int + 1, rows as int, width as int);
        }
        let row: usize = if rev {
            hi - 1 - r
        } else {
            lo + r
        };
        let mut c: usize = 0;
        while c < width
            invariant
                lo + rows == hi,
                1 <= width,
                rows * width <= usize::MAX,
                r < rows,
                (r + 1) * width <= usize::MAX,
                c <= width,
                row == if rev {
                    hi - 1 - r
                } else {
                    lo + r
                },
                order@.len() == r * width + c,
                forall|k: int|
                    0 <= k < order@.len() ==> #[trigger] order@[k] == (
                        spec_scan_col(width as int, k, rev) as usize,
                        spec_scan_row(lo as int, hi as int, width as int, k, rev) as usize,
                    ),
            decreases width - c,
        {
            let col: usize = if rev {
                width - 1 - c
            } else {
                c
            };
            proof {
                lemma_fundamental_div_mod_converse_div(
                    r as int * width as int + c as int,
                    width as int,
                    r as int,
                    c as int,
                );
                lemma_fundamental_div_mod_converse_mod(
                    r as int * width as int + c as int,
                    width as int,
                    r as int,
                    c as int,
                );
            }
            order.push((col, row));
            c = c + 1;
        }
        r = r + 1;
        proof {
            assert(r * width == (r - 1) * width + width) by (nonlinear_arith);
        }
    }
    proof {
        assert(rows * width == (hi - lo) * width);
    }
    order
}

/// With both reversals on, the `k`-th pixel emitted is the mirror image —
/// horizontally and vertically — of the `k`-th pixel emitted with them
/// off, so disabling the reversals flips the rendered image on both axes.
pub proof fn lemma_reversal_mirrors(width: int, height: int, k: int)
    requires
        1 <= width,
        0 <= k < width * height,
    ensures
        spec_scan_col(width, k, true) + spec_scan_col(width, k, false) == width - 1,
        spec_scan_row(0, height, width, k, true) + spec_scan_row(0, height, width, k, false)
            == height - 1,
{
}

/// All of a sequence of buffers, joined back to front.
pub open spec fn spec_rev_concat<T>(bufs: Seq<Seq<T>>) -> Seq<T>
    decreases bufs.len(),
{
    if bufs.len() == 0 {
        Seq::empty()
    } else {
        bufs.last() + spec_rev_concat(bufs.drop_last())
    }
}

/// Join the workers' buffers in reverse creation order, the last worker's
/// buffer first, as the driver writes them out.
pub fn gather_blocks(buffers: Vec<Vec<u8>>) -> (out: Vec<u8>)
    ensures
        out@ == spec_rev_concat(buffers@.map_values(|b: Vec<u8>| b@)),
{
    let mut rest = buffers;
    let mut out: Vec<u8> = Vec::new();
    loop
        invariant
            spec_rev_concat(buffers@.map_values(|b: Vec<u8>| b@)) == out@ + spec_rev_concat(
                rest@.map_values(|b: Vec<u8>| b@),
            ),
        ensures
            rest@.len() == 0,
            out@ == spec_rev_concat(buffers@.map_values(|b: Vec<u8>| b@)),
        decreases rest@.len(),
    {
        let ghost prev = rest@;
        match rest.pop() {
            Some(mut buf) => {
                proof {
                    assert(prev.map_values(|b: Vec<u8>| b@).drop_last() =~= prev.subrange(
                        0,
                        prev.len() - 1,
                    ).map_values(|b: Vec<u8>| b@));
                }
                out.append(&mut buf);
            },
            None => {
                proof {
                    assert(rest@.map_values(|b: Vec<u8>| b@).len() == 0);
                    assert(out@ + spec_rev_concat(rest@.map_values(|b: Vec<u8>| b@)) =~= out@);
                }
                break ;
            },
        }
    }
    out
}

/// The rows `lo .. hi`, listed from the last to the first, as a worker
/// emits them with the row reversal on.
pub open spec fn spec_desc_rows(lo: int, hi: int) -> Seq<int> {
    Seq::new(if hi >= lo {
        (hi - lo) as nat
    } else {
        0
    }, |k: int| hi - 1 - k)
}

/// The two reversals cancel into a single one: when ascending, contiguous
/// row blocks are each emitted bottom-up and then gathered last block
/// first, the row order of the whole stream is exactly all of
/// `0 .. height` descending — every image row once, none lost, none
/// repeated, in the orientation the camera intends.
pub proof fn lemma_gather_rows_descending(blocks: Seq<(int, int)>, height: int)
    requires
        blocks.len() >= 1,
        blocks[0].0 == 0,
        blocks.last().1 == height,
        forall|i: int| 0 <= i < blocks.len() ==> (#[trigger] blocks[i]).0 <= blocks[i].1,
        forall|i: int| 0 <= i < blocks.len() - 1 ==> (#[trigger] blocks[i + 1]).0 == blocks[i].1,
    ensures
        0 <= height,
        spec_rev_concat(blocks.map_values(|b: (int, int)| spec_desc_rows(b.0, b.1)))
            == spec_desc_rows(0, height),
    decreases blocks.len(),
{
    let mapped = blocks.map_values(|b: (int, int)| spec_desc_rows(b.0, b.1));
    assert(blocks[blocks.len() - 1].0 <= blocks[blocks.len() - 1].1);
    if blocks.len() == 1 {
        assert(mapped.last() == spec_desc_rows(0, height));
        assert(mapped.drop_last().len() == 0);
        assert(mapped.last() + spec_rev_concat(mapped.drop_last()) =~= spec_desc_rows(0, height));
    } else {
        let front = blocks.drop_last();
        let cut = blocks.last().0;
        assert(front.last() == blocks[blocks.len() - 2]);
        assert(blocks[blocks.len() - 2 + 1].0 == blocks[blocks.len() - 2].1);
        assert(front.last().1 == cut);
        lemma_gather_rows_descending(front, cut);
        assert(front.map_values(|b: (int, int)| spec_desc_rows(b.0, b.1)) =~= mapped.drop_last());
        assert(mapped.last() == spec_desc_rows(cut, height));
        assert(spec_desc_rows(cut, height) + spec_desc_rows(0, cut) =~= spec_desc_rows(0, height));
    }
}

} // verus!
