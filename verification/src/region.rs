//! Rectangle-region algebra for the occlusion computation: subtracting an
//! accumulated covered region from a window rectangle and measuring the
//! bounding box of what is left.
//!
//! A region is a list of rectangles; the points it covers are the points
//! of any of its rectangles. Rectangles are half-open: a rectangle covers
//! the integer points `(x, y)` with `left <= x < right` and
//! `top <= y < bottom`.

use vstd::prelude::*;

verus! {

/// Minimum bounding-box width of unoccluded area for a window to count
/// as actually visible.
pub const MIN_VISIBLE_WIDTH: i32 = 80;

/// Minimum bounding-box height of unoccluded area for a window to count
/// as actually visible.
pub const MIN_VISIBLE_HEIGHT: i32 = 80;

/// An axis-aligned rectangle in screen coordinates; `right` and `bottom`
/// are exclusive.
#[derive(Debug, Clone, Copy, PartialEq, Eq, Structural)]
pub struct WinRect {
    pub left: i32,
    pub top: i32,
    pub right: i32,
    pub bottom: i32,
}

/// A rectangle that covers at least one point.
pub open spec fn rect_nonempty(r: WinRect) -> bool {
    r.left < r.right && r.top < r.bottom
}

/// Whether the point `(x, y)` lies in `r`.
pub open spec fn pt_in_rect(r: WinRect, x: int, y: int) -> bool {
    r.left <= x < r.right && r.top <= y < r.bottom
}

/// Whether the point `(x, y)` lies in some rectangle of the region.
pub open spec fn pt_in_region(reg: Seq<WinRect>, x: int, y: int) -> bool {
    exists|j: int| 0 <= j < reg.len() && pt_in_rect(#[trigger] reg[j], x, y)
}

/// Whether `(x, y)` is an unoccluded point of `w`: inside `w` and outside
/// the covered region.
pub open spec fn pt_unoccluded(w: WinRect, cov: Seq<WinRect>, x: int, y: int) -> bool {
    pt_in_rect(w, x, y) && !pt_in_region(cov, x, y)
}

/// The bounding box of the unoccluded part of `w` is at least
/// `MIN_VISIBLE_WIDTH` wide: two unoccluded points span that width.
pub open spec fn spread_wide(w: WinRect, cov: Seq<WinRect>) -> bool {
    exists|x1: int, y1: int, x2: int, y2: int|
        #![trigger pt_unoccluded(w, cov, x1, y1), pt_unoccluded(w, cov, x2, y2)]
        pt_unoccluded(w, cov, x1, y1) && pt_unoccluded(w, cov, x2, y2) && x2 - x1
            >= MIN_VISIBLE_WIDTH - 1
}

/// The bounding box of the unoccluded part of `w` is at least
/// `MIN_VISIBLE_HEIGHT` tall: two unoccluded points span that height.
pub open spec fn spread_tall(w: WinRect, cov: Seq<WinRect>) -> bool {
    exists|x1: int, y1: int, x2: int, y2: int|
        #![trigger pt_unoccluded(w, cov, x1, y1), pt_unoccluded(w, cov, x2, y2)]
        pt_unoccluded(w, cov, x1, y1) && pt_unoccluded(w, cov, x2, y2) && y2 - y1
            >= MIN_VISIBLE_HEIGHT - 1
}

/// A window is actually visible when the bounding box of its unoccluded
/// area is at least `MIN_VISIBLE_WIDTH` by `MIN_VISIBLE_HEIGHT`.
pub open spec fn spec_visible(w: WinRect, cov: Seq<WinRect>) -> bool {
    spread_wide(w, cov) && spread_tall(w, cov)
}

/// All rectangles of the region are nonempty.
pub open spec fn region_wf(reg: Seq<WinRect>) -> bool {
    forall|j: int| 0 <= j < reg.len() ==> rect_nonempty(#[trigger] reg[j])
}

/// Splits `p` minus `c` into at most four rectangles that cover exactly
/// the points of `p` outside `c`.
fn subtract_rect(p: WinRect, c: WinRect) -> (out: Vec<WinRect>)
    requires
        rect_nonempty(p),
        rect_nonempty(c),
    ensures
        region_wf(out@),
        forall|x: int, y: int| #![trigger pt_in_region(out@, x, y)]
            pt_in_region(out@, x, y) == (pt_in_rect(p, x, y) && !pt_in_rect(c, x, y)),
{
    let mut out: Vec<WinRect> = Vec::new();
    if !(c.left < p.right && c.right > p.left && c.top < p.bottom && c.bottom > p.top) {
        out.push(p);
        assert forall|x: int, y: int| #![trigger pt_in_region(out@, x, y)]
            pt_in_region(out@, x, y) == (pt_in_rect(p, x, y) && !pt_in_rect(c, x, y)) by {
            if pt_in_rect(p, x, y) && !pt_in_rect(c, x, y) {
                assert(pt_in_rect(out@[0], x, y));
            }
        }
        return out;
    }
    let clip_top = if c.top > p.top {
        c.top
    } else {
        p.top
    };
    let clip_bottom = if c.bottom < p.bottom {
        c.bottom
    } else {
        p.bottom
    };
    if c.top > p.top {
        out.push(WinRect { left: p.left, top: p.top, right: p.right, bottom: c.top });
    }
    if c.bottom < p.bottom {
        out.push(WinRect { left: p.left, top: c.bottom, right: p.right, bottom: p.bottom });
    }
    if c.left > p.left {
        out.push(WinRect { left: p.left, top: clip_top, right: c.left, bottom: clip_bottom });
    }
    if c.right < p.right {
        out.push(WinRect { left: c.right, top: clip_top, right: p.right, bottom: clip_bottom });
    }
    assert forall|x: int, y: int| #![trigger pt_in_region(out@, x, y)]
        pt_in_region(out@, x, y) == (pt_in_rect(p, x, y) && !pt_in_rect(c, x, y)) by {
        if pt_in_rect(p, x, y) && !pt_in_rect(c, x, y) {
            if y < c.top {
                assert(pt_in_rect(out@[0], x, y));
            } else if y >= c.bottom {
                let j = if c.top > p.top {
                    1int
                } else {
                    0int
                };
                assert(pt_in_rect(out@[j], x, y));
            } else if x < c.left {
                let j = (if c.top > p.top {
                    1int
                } else {
                    0int
                }) + (if c.bottom < p.bottom {
                    1int
                } else {
                    0int
                });
                assert(pt_in_rect(out@[j], x, y));
            } else {
                let j = (if c.top > p.top {
                    1int
                } else {
                    0int
                }) + (if c.bottom < p.bottom {
                    1int
                } else {
                    0int
                }) + (if c.left > p.left {
                    1int
                } else {
                    0int
                });
                assert(pt_in_rect(out@[j], x, y));
            }
        }
    }
    out
}

proof fn lemma_region_concat(a: Seq<WinRect>, b: Seq<WinRect>)
    ensures
        forall|x: int, y: int| #![trigger pt_in_region(a + b, x, y)]
            pt_in_region(a + b, x, y) == (pt_in_region(a, x, y) || pt_in_region(b, x, y)),
{
    assert forall|x: int, y: int| #![trigger pt_in_region(a + b, x, y)]
        pt_in_region(a + b, x, y) == (pt_in_region(a, x, y) || pt_in_region(b, x, y)) by {
        if pt_in_region(a, x, y) {
            let j = choose|j: int| 0 <= j < a.len() && pt_in_rect(#[trigger] a[j], x, y);
            assert(pt_in_rect((a + b)[j], x, y));
        }
        if pt_in_region(b, x, y) {
            let j = choose|j: int| 0 <= j < b.len() && pt_in_rect(#[trigger] b[j], x, y);
            assert(pt_in_rect((a + b)[a.len() + j], x, y));
        }
        if pt_in_region(a + b, x, y) {
            let j = choose|j: int| 0 <= j < (a + b).len() && pt_in_rect(#[trigger] (a + b)[j], x, y);
            if j < a.len() {
                assert(pt_in_rect(a[j], x, y));
            } else {
                assert(pt_in_rect(b[j - a.len()], x, y));
            }
        }
    }
}

proof fn lemma_region_take_one_more(reg: Seq<WinRect>, i: int)
    requires
        0 <= i < reg.len(),
    ensures
        forall|x: int, y: int| #![trigger pt_in_region(reg.take(i + 1), x, y)]
            pt_in_region(reg.take(i + 1), x, y) == (pt_in_region(reg.take(i), x, y) || pt_in_rect(
                reg[i],
                x,
                y,
            )),
{
    assert forall|x: int, y: int| #![trigger pt_in_region(reg.take(i + 1), x, y)]
        pt_in_region(reg.take(i + 1), x, y) == (pt_in_region(reg.take(i), x, y) || pt_in_rect(
            reg[i],
            x,
            y,
        )) by {
        let t1 = reg.take(i + 1);
        let t0 = reg.take(i);
        if pt_in_region(t1, x, y) {
            let j = choose|j: int| 0 <= j < t1.len() && pt_in_rect(#[trigger] t1[j], x, y);
            if j < i {
                assert(pt_in_rect(t0[j], x, y));
            } else {
                assert(pt_in_rect(reg[i], x, y));
            }
        }
        if pt_in_region(t0, x, y) {
            let j = choose|j: int| 0 <= j < t0.len() && pt_in_rect(#[trigger] t0[j], x, y);
            assert(pt_in_rect(t1[j], x, y));
        }
        if pt_in_rect(reg[i], x, y) {
            assert(pt_in_rect(t1[i], x, y));
        }
    }
}

/// The rectangles that cover exactly the unoccluded points of `w`: `w`
/// minus every rectangle of `cov`.
fn subtract_region(w: WinRect, cov: &Vec<WinRect>) -> (out: Vec<WinRect>)
    requires
        rect_nonempty(w),
        region_wf(cov@),
    ensures
        region_wf(out@),
        forall|x: int, y: int| #![trigger pt_in_region(out@, x, y)]
            pt_in_region(out@, x, y) == pt_unoccluded(w, cov@, x, y),
{
    let mut pieces: Vec<WinRect> = Vec::new();
    pieces.push(w);
    assert forall|x: int, y: int| #![trigger pt_in_region(pieces@, x, y)]
        pt_in_region(pieces@, x, y) == pt_unoccluded(w, cov@.take(0), x, y) by {
        if pt_in_rect(w, x, y) {
            assert(pt_in_rect(pieces@[0], x, y));
        }
    }
    let mut i: usize = 0;
    while i < cov.len()
        invariant
            i <= cov@.len(),
            region_wf(cov@),
            region_wf(pieces@),
            forall|x: int, y: int| #![trigger pt_in_region(pieces@, x, y)]
                pt_in_region(pieces@, x, y) == pt_unoccluded(w, cov@.take(i as int), x, y),
        decreases cov@.len() - i,
    {
        let c = cov[i];
        let ghost i0: int = i as int;
        let mut next: Vec<WinRect> = Vec::new();
        let mut k: usize = 0;
        while k < pieces.len()
            invariant
                k <= pieces@.len(),
                region_wf(pieces@),
                region_wf(next@),
                rect_nonempty(c),
                forall|x: int, y: int| #![trigger pt_in_region(next@, x, y)]
                    pt_in_region(next@, x, y) == (pt_in_region(pieces@.take(k as int), x, y)
                        && !pt_in_rect(c, x, y)),
            decreases pieces@.len() - k,
        {
            let ghost k0: int = k as int;
            let p = pieces[k];
            let mut parts = subtract_rect(p, c);
            let ghost pre_parts = parts@;
            let ghost pre_next = next@;
            next.append(&mut parts);
            k += 1;
            proof {
                lemma_region_concat(pre_next, pre_parts);
                lemma_region_take_one_more(pieces@, k0);
                assert(next@ == pre_next + pre_parts);
                assert forall|x: int, y: int| #![trigger pt_in_region(next@, x, y)]
                    pt_in_region(next@, x, y) == (pt_in_region(pieces@.take(k as int), x, y)
                        && !pt_in_rect(c, x, y)) by {
                    assert(pt_in_region(pre_next, x, y) == (pt_in_region(pieces@.take(k0), x, y)
                        && !pt_in_rect(c, x, y)));
                    assert(pt_in_region(pre_parts, x, y) == (pt_in_rect(p, x, y) && !pt_in_rect(
                        c,
                        x,
                        y,
                    )));
                    assert(pt_in_region(pre_next + pre_parts, x, y) == (pt_in_region(
                        pre_next,
                        x,
                        y,
                    ) || pt_in_region(pre_parts, x, y)));
                    assert(pieces@[k0] == p);
                    assert(pt_in_region(pieces@.take(k0 + 1), x, y) == (pt_in_region(
                        pieces@.take(k0),
                        x,
                        y,
                    ) || pt_in_rect(pieces@[k0], x, y)));
                    assert(pieces@.take(k as int) == pieces@.take(k0 + 1));
                }
            }
        }
        let ghost prev_pieces = pieces@;
        pieces = next;
        i += 1;
        proof {
            lemma_region_take_one_more(cov@, i0);
            assert(prev_pieces.take(prev_pieces.len() as int) =~= prev_pieces);
            assert forall|x: int, y: int| #![trigger pt_in_region(pieces@, x, y)]
                pt_in_region(pieces@, x, y) == pt_unoccluded(w, cov@.take(i as int), x, y) by {
                assert(pt_in_region(pieces@, x, y) == (pt_in_region(
                    prev_pieces.take(prev_pieces.len() as int),
                    x,
                    y,
                ) && !pt_in_rect(c, x, y)));
                assert(pt_in_region(prev_pieces, x, y) == pt_unoccluded(w, cov@.take(i0), x, y));
                assert(cov@[i0] == c);
                assert(pt_in_region(cov@.take(i0 + 1), x, y) == (pt_in_region(cov@.take(i0), x, y)
                    || pt_in_rect(cov@[i0], x, y)));
                assert(cov@.take(i as int) == cov@.take(i0 + 1));
            }
        }
    }
    proof {
        assert(cov@.take(cov@.len() as int) =~= cov@);
        assert forall|x: int, y: int| #![trigger pt_in_region(pieces@, x, y)]
            pt_in_region(pieces@, x, y) == pt_unoccluded(w, cov@, x, y) by {
            assert(pt_in_region(pieces@, x, y) == pt_unoccluded(w, cov@.take(i as int), x, y));
        }
    }
    pieces
}

/// Whether the unoccluded part of `w` has a bounding box at least
/// `MIN_VISIBLE_WIDTH` by `MIN_VISIBLE_HEIGHT`.
pub fn visible_flag(w: WinRect, cov: &Vec<WinRect>) -> (b: bool)
    requires
        rect_nonempty(w),
        region_wf(cov@),
    ensures
        b == spec_visible(w, cov@),
{
    let pieces = subtract_region(w, cov);
    if pieces.len() == 0 {
        assert(!spread_wide(w, cov@)) by {
            assert forall|x: int, y: int|
                #![trigger pt_unoccluded(w, cov@, x, y)]
                !pt_unoccluded(w, cov@, x, y) by {
                assert(!pt_in_region(pieces@, x, y));
            }
        }
        return false;
    }
    let first = pieces[0];
    let mut min_left = first.left;
    let mut max_right = first.right;
    let mut min_top = first.top;
    let mut max_bottom = first.bottom;
    let ghost mut jl: int = 0;
    let ghost mut jr: int = 0;
    let ghost mut jt: int = 0;
    let ghost mut jb: int = 0;
    let mut k: usize = 1;
    while k < pieces.len()
        invariant
            1 <= k <= pieces@.len(),
            0 <= jl < k && pieces@[jl].left == min_left,
            0 <= jr < k && pieces@[jr].right == max_right,
            0 <= jt < k && pieces@[jt].top == min_top,
            0 <= jb < k && pieces@[jb].bottom == max_bottom,
            forall|j: int| 0 <= j < k ==> min_left <= (#[trigger] pieces@[j]).left,
            forall|j: int| 0 <= j < k ==> max_right >= (#[trigger] pieces@[j]).right,
            forall|j: int| 0 <= j < k ==> min_top <= (#[trigger] pieces@[j]).top,
            forall|j: int| 0 <= j < k ==> max_bottom >= (#[trigger] pieces@[j]).bottom,
        decreases pieces@.len() - k,
    {
        let p = pieces[k];
        if p.left < min_left {
            min_left = p.left;
            proof {
                jl = k as int;
            }
        }
        if p.right > max_right {
            max_right = p.right;
            proof {
                jr = k as int;
            }
        }
        if p.top < min_top {
            min_top = p.top;
            proof {
                jt = k as int;
            }
        }
        if p.bottom > max_bottom {
            max_bottom = p.bottom;
            proof {
                jb = k as int;
            }
        }
        k += 1;
    }
    let wide = (max_right as i64) - (min_left as i64) >= MIN_VISIBLE_WIDTH as i64;
    let tall = (max_bottom as i64) - (min_top as i64) >= MIN_VISIBLE_HEIGHT as i64;
    proof {
        if wide && tall {
            assert(pt_in_rect(pieces@[jl], pieces@[jl].left as int, pieces@[jl].top as int));
            assert(pt_in_region(pieces@, pieces@[jl].left as int, pieces@[jl].top as int));
            assert(pt_in_rect(pieces@[jr], max_right - 1, pieces@[jr].top as int));
            assert(pt_in_region(pieces@, max_right - 1, pieces@[jr].top as int));
            assert(pt_unoccluded(w, cov@, pieces@[jl].left as int, pieces@[jl].top as int));
            assert(pt_unoccluded(w, cov@, max_right - 1, pieces@[jr].top as int));
            assert(spread_wide(w, cov@));
            assert(pt_in_rect(pieces@[jt], pieces@[jt].left as int, pieces@[jt].top as int));
            assert(pt_in_region(pieces@, pieces@[jt].left as int, pieces@[jt].top as int));
            assert(pt_in_rect(pieces@[jb], pieces@[jb].left as int, max_bottom - 1));
            assert(pt_in_region(pieces@, pieces@[jb].left as int, max_bottom - 1));
            assert(pt_unoccluded(w, cov@, pieces@[jt].left as int, pieces@[jt].top as int));
            assert(pt_unoccluded(w, cov@, pieces@[jb].left as int, max_bottom - 1));
            assert(spread_tall(w, cov@));
        }
        if !wide {
            assert forall|x1: int, y1: int, x2: int, y2: int|
                #![trigger pt_unoccluded(w, cov@, x1, y1), pt_unoccluded(w, cov@, x2, y2)]
                pt_unoccluded(w, cov@, x1, y1) && pt_unoccluded(w, cov@, x2, y2) implies x2 - x1
                < MIN_VISIBLE_WIDTH - 1 by {
                assert(pt_in_region(pieces@, x1, y1));
                assert(pt_in_region(pieces@, x2, y2));
                let j1 = choose|j: int|
                    0 <= j < pieces@.len() && pt_in_rect(#[trigger] pieces@[j], x1, y1);
                let j2 = choose|j: int|
                    0 <= j < pieces@.len() && pt_in_rect(#[trigger] pieces@[j], x2, y2);
                assert(min_left <= pieces@[j1].left <= x1);
                assert(x2 < pieces@[j2].right <= max_right);
            }
            assert(!spread_wide(w, cov@));
        }
        if !tall {
            assert forall|x1: int, y1: int, x2: int, y2: int|
                #![trigger pt_unoccluded(w, cov@, x1, y1), pt_unoccluded(w, cov@, x2, y2)]
                pt_unoccluded(w, cov@, x1, y1) && pt_unoccluded(w, cov@, x2, y2) implies y2 - y1
                < MIN_VISIBLE_HEIGHT - 1 by {
                assert(pt_in_region(pieces@, x1, y1));
                assert(pt_in_region(pieces@, x2, y2));
                let j1 = choose|j: int|
                    0 <= j < pieces@.len() && pt_in_rect(#[trigger] pieces@[j], x1, y1);
                let j2 = choose|j: int|
                    0 <= j < pieces@.len() && pt_in_rect(#[trigger] pieces@[j], x2, y2);
                assert(min_top <= pieces@[j1].top <= y1);
                assert(y2 < pieces@[j2].bottom <= max_bottom);
            }
            assert(!spread_tall(w, cov@));
        }
    }
    wide && tall
}

} // verus!
