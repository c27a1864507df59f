//! The window-visibility detector: given the on-screen windows in
//! front-to-back order, decides which of them are actually visible.
//!
//! Windows below the noise size, windows with known non-content system
//! titles, and windows owned by executables under an OS system path are
//! excluded entirely; every other window is reported, in order, with a
//! flag that is true exactly when the bounding box of its unoccluded
//! area is large enough. Every non-excluded window occludes the windows
//! below it with its full rectangle, whether or not it is itself
//! visible.

use vstd::prelude::*;

use crate::region::{
    pt_in_rect, pt_in_region, pt_unoccluded, rect_nonempty, region_wf, spec_visible, spread_tall,
    spread_wide, visible_flag, WinRect,
};
use crate::text::{prefix_ci, prefix_ci_exec, str_eq};

verus! {

/// Windows narrower than this are treated as visual noise and excluded.
pub const NOISE_MIN_WIDTH: i32 = 100;

/// Windows shorter than this are treated as visual noise and excluded.
pub const NOISE_MIN_HEIGHT: i32 = 100;

/// One on-screen window as reported by the OS window probe, in
/// front-to-back order.
#[derive(Debug, Clone)]
pub struct RawWindow {
    /// The window's title.
    pub title: String,
    /// Full path of the owning executable.
    pub process_path: String,
    /// The window's rectangle in screen coordinates.
    pub rect: WinRect,
}

/// One entry of the detector's output: a non-excluded window and whether
/// it is actually visible on screen.
#[derive(Debug, Clone)]
pub struct WindowInfo {
    /// The window's title.
    pub title: String,
    /// Whether the unoccluded part of the window is large enough to see.
    pub is_visible_on_screen: bool,
    /// The window's rectangle in screen coordinates.
    pub rect: WinRect,
}

/// A rectangle below the noise threshold; a malformed rectangle (with
/// a non-positive width or height) always is.
pub open spec fn noise_rect(r: WinRect) -> bool {
    r.right - r.left < NOISE_MIN_WIDTH as int || r.bottom - r.top < NOISE_MIN_HEIGHT as int
}

/// A title on the denylist of known non-content system windows.
pub open spec fn denied_title(t: Seq<char>) -> bool {
    ||| t == "Shell Handwriting Canvas"@
    ||| t == "Microsoft Text Input Application"@
    ||| t == "Program Manager"@
    ||| t == "Settings"@
}

/// A process path under a known OS-system-binary path prefix, compared
/// ASCII case-insensitively.
pub open spec fn system_process_path(p: Seq<char>) -> bool {
    ||| prefix_ci(p, "C:\\WINDOWS\\SYSTEM32"@)
    ||| prefix_ci(p, "C:\\WINDOWS\\SYSTEMAPPS"@)
    ||| prefix_ci(p, "C:\\PROGRAM FILES\\WINDOWSAPPS"@)
    ||| prefix_ci(p, "C:\\WINDOWS\\EXPLORER.EXE"@)
}

/// Whether a probed window is excluded from the output entirely: noise
/// size, denylisted title, or system-owned process.
pub open spec fn excluded(w: RawWindow) -> bool {
    noise_rect(w.rect) || denied_title(w.title@) || system_process_path(w.process_path@)
}

/// The windows that pass the filters, in their original front-to-back
/// order.
pub open spec fn kept_windows(ws: Seq<RawWindow>) -> Seq<RawWindow>
    decreases ws.len(),
{
    if ws.len() == 0 {
        Seq::empty()
    } else {
        let prefix = kept_windows(ws.drop_last());
        if excluded(ws.last()) {
            prefix
        } else {
            prefix.push(ws.last())
        }
    }
}

/// The rectangles of a window sequence, in order.
pub open spec fn rects_of(ws: Seq<RawWindow>) -> Seq<WinRect> {
    ws.map_values(|w: RawWindow| w.rect)
}

/// The visibility flag the detector owes entry `k` of the output: the
/// bounding box of the part of its rectangle not covered by the kept
/// windows stacked above it is at least the minimum visible size.
pub open spec fn owed_flag(ws: Seq<RawWindow>, k: int) -> bool {
    spec_visible(kept_windows(ws)[k].rect, rects_of(kept_windows(ws).take(k)))
}

/// Whether this window is excluded from the output and from occlusion.
fn is_excluded(w: &RawWindow) -> (r: bool)
    ensures
        r == excluded(*w),
{
    let rect = w.rect;
    if (rect.right as i64) - (rect.left as i64) < NOISE_MIN_WIDTH as i64 {
        return true;
    }
    if (rect.bottom as i64) - (rect.top as i64) < NOISE_MIN_HEIGHT as i64 {
        return true;
    }
    let title: &str = w.title.as_str();
    if str_eq(title, "Shell Handwriting Canvas") || str_eq(title, "Microsoft Text Input Application")
        || str_eq(title, "Program Manager") || str_eq(title, "Settings") {
        return true;
    }
    let path: &str = w.process_path.as_str();
    if prefix_ci_exec(path, "C:\\WINDOWS\\SYSTEM32") || prefix_ci_exec(path, "C:\\WINDOWS\\SYSTEMAPPS")
        || prefix_ci_exec(path, "C:\\PROGRAM FILES\\WINDOWSAPPS") || prefix_ci_exec(
        path,
        "C:\\WINDOWS\\EXPLORER.EXE",
    ) {
        return true;
    }
    false
}

/// Computes, for the given windows in front-to-back order, which of them
/// are actually visible. Excluded windows do not appear in the output
/// and do not occlude; every other window is reported in encounter
/// order, marked visible exactly when the unoccluded part of its
/// rectangle has a bounding box at least the minimum visible size.
pub fn compute_visible_windows(windows: Vec<RawWindow>) -> (out: Vec<WindowInfo>)
    ensures
        out@.len() == kept_windows(windows@).len(),
        forall|k: int|
            0 <= k < out@.len() ==> {
                &&& (#[trigger] out@[k]).title == kept_windows(windows@)[k].title
                &&& out@[k].rect == kept_windows(windows@)[k].rect
                &&& out@[k].is_visible_on_screen == owed_flag(windows@, k)
            },
{
    let ghost orig = windows@;
    let mut rest = windows;
    let mut out: Vec<WindowInfo> = Vec::new();
    let mut covered: Vec<WinRect> = Vec::new();
    let ghost mut t: int = 0;
    proof {
        assert(orig.take(0) =~= Seq::<RawWindow>::empty());
        assert(rest@ =~= orig.skip(0));
        assert(covered@ =~= rects_of(kept_windows(orig.take(0))));
    }
    while rest.len() > 0
        invariant
            0 <= t <= orig.len(),
            rest@ == orig.skip(t),
            covered@ == rects_of(kept_windows(orig.take(t))),
            region_wf(covered@),
            out@.len() == kept_windows(orig.take(t)).len(),
            forall|k: int|
                0 <= k < out@.len() ==> {
                    &&& (#[trigger] out@[k]).title == kept_windows(orig.take(t))[k].title
                    &&& out@[k].rect == kept_windows(orig.take(t))[k].rect
                    &&& out@[k].is_visible_on_screen == spec_visible(
                        kept_windows(orig.take(t))[k].rect,
                        rects_of(kept_windows(orig.take(t)).take(k)),
                    )
                },
        decreases rest@.len(),
    {
        let w = rest.remove(0);
        let ghost t0: int = t;
        let ghost kept_old = kept_windows(orig.take(t0));
        proof {
            assert(w == orig[t0]);
            assert(rest@ =~= orig.skip(t0 + 1));
            assert(orig.take(t0 + 1).drop_last() =~= orig.take(t0));
            assert(orig.take(t0 + 1).last() == orig[t0]);
            t = t + 1;
        }
        let excl = is_excluded(&w);
        if !excl {
            let ghost kept_new = kept_windows(orig.take(t));
            proof {
                assert(kept_new == kept_old.push(w));
                assert(rect_nonempty(w.rect));
            }
            let flag = visible_flag(w.rect, &covered);
            let ghost covered_before = covered@;
            let ghost out_before = out@;
            covered.push(w.rect);
            out.push(WindowInfo { title: w.title, is_visible_on_screen: flag, rect: w.rect });
            proof {
                let klast = kept_old.len() as int;
                assert(kept_new.take(klast) =~= kept_old);
                assert(covered@ =~= rects_of(kept_new)) by {
                    assert(rects_of(kept_old).push(w.rect) =~= rects_of(kept_old.push(w)));
                }
                assert forall|k: int| 0 <= k < out@.len() implies {
                    &&& (#[trigger] out@[k]).title == kept_new[k].title
                    &&& out@[k].rect == kept_new[k].rect
                    &&& out@[k].is_visible_on_screen == spec_visible(
                        kept_new[k].rect,
                        rects_of(kept_new.take(k)),
                    )
                } by {
                    if k < klast {
                        assert(out@[k] == out_before[k]);
                        assert(kept_new[k] == kept_old[k]);
                        assert(kept_new.take(k) =~= kept_old.take(k));
                    } else {
                        assert(out@[k].title == w.title);
                        assert(kept_new[klast] == w);
                        assert(kept_new.take(klast) =~= kept_old);
                        assert(out@[k].is_visible_on_screen == spec_visible(
                            w.rect,
                            covered_before,
                        ));
                    }
                }
            }
        } else {
            proof {
                assert(kept_windows(orig.take(t)) == kept_old);
            }
        }
    }
    proof {
        assert(t == orig.len());
        assert(orig.take(t) =~= orig);
    }
    out
}

/// No window that passed the filters is excluded — each output entry
/// came through them unchanged.
pub proof fn lemma_kept_not_excluded(ws: Seq<RawWindow>, k: int)
    requires
        0 <= k < kept_windows(ws).len(),
    ensures
        !excluded(kept_windows(ws)[k]),
    decreases ws.len(),
{
    if ws.len() == 0 {
    } else {
        let prefix = kept_windows(ws.drop_last());
        if excluded(ws.last()) {
            lemma_kept_not_excluded(ws.drop_last(), k);
        } else {
            if k < prefix.len() {
                lemma_kept_not_excluded(ws.drop_last(), k);
                assert(kept_windows(ws)[k] == prefix[k]);
            } else {
                assert(kept_windows(ws)[k] == ws.last());
            }
        }
    }
}

/// Law: windows below the noise size never appear in the output — every
/// entry the detector owes is at least `NOISE_MIN_WIDTH` by
/// `NOISE_MIN_HEIGHT`.
pub proof fn lemma_no_small_windows_in_output(ws: Seq<RawWindow>, k: int)
    requires
        0 <= k < kept_windows(ws).len(),
    ensures
        kept_windows(ws)[k].rect.right - kept_windows(ws)[k].rect.left >= NOISE_MIN_WIDTH as int,
        kept_windows(ws)[k].rect.bottom - kept_windows(ws)[k].rect.top >= NOISE_MIN_HEIGHT as int,
{
    lemma_kept_not_excluded(ws, k);
}

/// Law: a window is never marked visible unless the bounding box of its
/// unoccluded area reaches the minimum in both axes: the mark implies
/// unoccluded points spanning at least `MIN_VISIBLE_WIDTH - 1` columns
/// and `MIN_VISIBLE_HEIGHT - 1` rows.
pub proof fn lemma_visible_mark_needs_spread(ws: Seq<RawWindow>, k: int)
    requires
        0 <= k < kept_windows(ws).len(),
        owed_flag(ws, k),
    ensures
        spread_wide(kept_windows(ws)[k].rect, rects_of(kept_windows(ws).take(k))),
        spread_tall(kept_windows(ws)[k].rect, rects_of(kept_windows(ws).take(k))),
{
}

/// Law: of two filtered windows where the higher-stacked first entirely
/// covers the second, the detector owes the first a visible mark and
/// the second an invisible one — the covered window has no unoccluded
/// point at all.
pub proof fn lemma_covered_window_not_visible(w1: RawWindow, w2: RawWindow)
    requires
        !excluded(w1),
        !excluded(w2),
        w1.rect.left <= w2.rect.left,
        w1.rect.top <= w2.rect.top,
        w2.rect.right <= w1.rect.right,
        w2.rect.bottom <= w1.rect.bottom,
    ensures
        owed_flag(seq![w1, w2], 0),
        !owed_flag(seq![w1, w2], 1),
{
    let ws = seq![w1, w2];
    assert(ws.drop_last() =~= seq![w1]);
    assert(seq![w1].drop_last() =~= Seq::<RawWindow>::empty());
    assert(kept_windows(Seq::<RawWindow>::empty()) =~= Seq::<RawWindow>::empty());
    assert(kept_windows(seq![w1]) =~= seq![w1]);
    assert(kept_windows(ws) =~= seq![w1, w2]);

    let none: Seq<WinRect> = rects_of(kept_windows(ws).take(0));
    assert(none =~= Seq::<WinRect>::empty());
    let r1 = w1.rect;
    assert(r1.right - r1.left >= NOISE_MIN_WIDTH as int && r1.bottom - r1.top
        >= NOISE_MIN_HEIGHT as int);
    assert(pt_unoccluded(r1, none, r1.left as int, r1.top as int));
    assert(pt_unoccluded(r1, none, r1.right - 1, r1.top as int));
    assert(pt_unoccluded(r1, none, r1.left as int, r1.bottom - 1));
    assert(spread_wide(r1, none));
    assert(spread_tall(r1, none));
    assert(kept_windows(ws)[0] == w1);

    let above: Seq<WinRect> = rects_of(kept_windows(ws).take(1));
    assert(above =~= seq![w1.rect]);
    let r2 = w2.rect;
    assert forall|x: int, y: int|
        #![trigger pt_unoccluded(r2, above, x, y)]
        !pt_unoccluded(r2, above, x, y) by {
        if pt_in_rect(r2, x, y) {
            assert(pt_in_rect(above[0], x, y));
            assert(pt_in_region(above, x, y));
        }
    }
    assert(!spread_wide(r2, above));
    assert(kept_windows(ws)[1] == w2);
}

} // verus!
