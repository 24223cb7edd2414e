//! Splitting a run of consecutive numbers (API pages, repository indices)
//! into batches of bounded width that are processed one after the other.

use vstd::prelude::*;

verus! {

/// A batch of `count` consecutive numbers starting at `first`.
#[derive(Debug, Clone, Copy, PartialEq, Eq, Structural)]
pub struct Batch {
    pub first: usize,
    pub count: usize,
}

/// The batches that cover the half-open range `[start, end)` when each batch
/// takes as many numbers as it may, at most `width`, in increasing order.
pub open spec fn plan(start: int, end: int, width: int) -> Seq<(int, int)>
    decreases end - start,
{
    if width <= 0 || start >= end {
        seq![]
    } else {
        let c = if end - start < width { end - start } else { width };
        seq![(start, c)] + plan(start + c, end, width)
    }
}

/// The numbers a sequence of batches covers, batch after batch.
pub open spec fn covered(p: Seq<(int, int)>) -> Seq<int>
    decreases p.len(),
{
    if p.len() == 0 {
        seq![]
    } else {
        Seq::new(p[0].1 as nat, |i: int| p[0].0 + i) + covered(p.drop_first())
    }
}

/// The numbers `start, start + 1, ..., end - 1`.
pub open spec fn span(start: int, end: int) -> Seq<int> {
    Seq::new((end - start) as nat, |i: int| start + i)
}

/// Batch planning law: the batches planned for `[start, end)` cover every
/// number of the range exactly once and in increasing order, and each batch
/// holds at least one and at most `width` numbers.
pub proof fn lemma_plan_covers(start: int, end: int, width: int)
    requires
        width > 0,
        start <= end,
    ensures
        covered(plan(start, end, width)) == span(start, end),
        forall|k: int| 0 <= k < plan(start, end, width).len()
            ==> 0 < #[trigger] plan(start, end, width)[k].1 <= width,
    decreases end - start,
{
    if start < end {
        let c = if end - start < width { end - start } else { width };
        lemma_plan_covers(start + c, end, width);
        let p = plan(start, end, width);
        assert(p.drop_first() =~= plan(start + c, end, width));
        assert(covered(p) =~= span(start, end));
        assert forall|k: int| 0 <= k < p.len() implies 0 < #[trigger] p[k].1 <= width by {
            if k > 0 {
                assert(p[k] == plan(start + c, end, width)[k - 1]);
            }
        }
    } else {
        assert(covered(plan(start, end, width)) =~= span(start, end));
    }
}

/// Batch counting law: the plan for `[start, end)` holds as many batches as
/// `batch_count` announces, the length of the range divided by the width
/// and rounded up.
pub proof fn lemma_plan_len(start: int, end: int, width: int)
    requires
        width > 0,
        start <= end,
    ensures
        plan(start, end, width).len() == (end - start + width - 1) / width,
    decreases end - start,
{
    if start < end {
        let c = if end - start < width { end - start } else { width };
        lemma_plan_len(start + c, end, width);
        let p = plan(start, end, width);
        assert(p.len() == 1 + plan(start + c, end, width).len());
        let l = end - start;
        if l < width {
            assert((l + width - 1) / width == 1) by (nonlinear_arith)
                requires
                    0 < l < width,
            ;
            assert((0 + width - 1) / width == 0) by (nonlinear_arith)
                requires
                    width > 0,
            ;
        } else {
            assert((l + width - 1) / width == 1 + (l - width + width - 1) / width) by (nonlinear_arith)
                requires
                    width > 0,
                    l >= width,
            ;
        }
    } else {
        assert((width - 1) / width == 0) by (nonlinear_arith)
            requires
                width > 0,
        ;
    }
}

/// The first batch of the plan for `[next, end)` with width `width`, or
/// `None` when the range is empty.  After that batch, the rest of the plan
/// is the plan of what is left.
pub fn next_batch(next: usize, end: usize, width: usize) -> (res: Option<Batch>)
    requires
        width > 0,
    ensures
        next >= end ==> res is None,
        next < end ==> (res matches Some(b) && {
            &&& plan(next as int, end as int, width as int).len() > 0
            &&& (b.first as int, b.count as int) == plan(next as int, end as int, width as int)[0]
            &&& b.first == next
            &&& 0 < b.count <= width
            &&& b.first + b.count <= end
            &&& plan((next + b.count) as int, end as int, width as int)
                == plan(next as int, end as int, width as int).drop_first()
        }),
{
    if next >= end {
        None
    } else {
        let left = end - next;
        let count = if left < width { left } else { width };
        let b = Batch { first: next, count };
        proof {
            let p = plan(next as int, end as int, width as int);
            assert(p.drop_first() =~= plan((next + count) as int, end as int, width as int));
        }
        Some(b)
    }
}

/// The number of batches of at most `width` items that `total` items take,
/// that is `total / width` rounded up.
pub fn batch_count(total: usize, width: usize) -> (res: usize)
    requires
        width > 0,
    ensures
        res as int == (total as int + width as int - 1) / width as int,
{
    let q = total / width;
    let r = total % width;
    proof {
        let t = total as int;
        let w = width as int;
        let qi = q as int;
        let ri = r as int;
        assert(t == qi * w + ri && 0 <= ri < w) by (nonlinear_arith)
            requires
                w > 0,
                qi == t / w,
                ri == t % w,
        ;
        if ri == 0 {
            assert((t + w - 1) / w == qi) by (nonlinear_arith)
                requires
                    w > 0,
                    t == qi * w,
            ;
        } else {
            assert((t + w - 1) / w == qi + 1) by (nonlinear_arith)
                requires
                    w > 0,
                    t == qi * w + ri,
                    0 < ri < w,
            ;
            assert(qi * w <= t) by (nonlinear_arith)
                requires
                    w > 0,
                    qi >= 0,
                    t == qi * w + ri,
                    ri >= 0,
            ;
            assert(qi * 2 <= t) by (nonlinear_arith)
                requires
                    w >= 2,
                    qi >= 0,
                    qi * w <= t,
            ;
        }
    }
    if r == 0 {
        q
    } else {
        q + 1
    }
}

} // verus!
