//! Popup placement: below the selection and centred by default; when the
//! popup would leave the work area, try above, then right, then left, and
//! finally open at the anchor; if nothing fits, clamp into the work area.
use vstd::prelude::*;

verus! {

/// A rectangle in screen pixels.
#[derive(Debug, Clone, Copy, PartialEq, Eq, Structural)]
pub struct Rect {
    pub x: i32,
    pub y: i32,
    pub w: i32,
    pub h: i32,
}

/// Where the popup prefers to open relative to the anchor.
#[derive(Debug, Clone, Copy, PartialEq, Eq, Structural)]
pub enum PopupPosition {
    Below,
    TopRight,
}

/// Distance in pixels between the anchor and the popup.
pub const GAP: i32 = 8;

/// Whether an integer fits in `i32`.
pub open spec fn in_i32(v: int) -> bool {
    i32::MIN <= v <= i32::MAX
}

/// Integer division rounding toward zero, as `/` does on `i32`.
pub open spec fn half(v: int) -> int {
    if v >= 0 {
        v / 2
    } else {
        -((-v) / 2)
    }
}

/// The window at `(x, y)` with size `(w, h)` lies inside `area`.
pub open spec fn encloses(area: Rect, x: int, y: int, w: int, h: int) -> bool {
    &&& x >= area.x
    &&& y >= area.y
    &&& x + w <= area.x + area.w
    &&& y + h <= area.y + area.h
}

impl Rect {
    /// `r` lies inside `self` (edges may touch).
    pub open spec fn spec_contains(&self, r: &Rect) -> bool {
        encloses(*self, r.x as int, r.y as int, r.w as int, r.h as int)
    }

    /// The right and bottom edges of both rectangles fit in `i32`.
    pub open spec fn edges_in_range(&self, r: &Rect) -> bool {
        &&& in_i32(self.x + self.w)
        &&& in_i32(self.y + self.h)
        &&& in_i32(r.x + r.w)
        &&& in_i32(r.y + r.h)
    }

    /// Whether `r` lies completely inside `self`.
    pub fn contains(&self, r: &Rect) -> (res: bool)
        requires
            self.edges_in_range(r),
        ensures
            res == self.spec_contains(r),
    {
        r.x >= self.x && r.y >= self.y && r.x + r.w <= self.x + self.w && r.y + r.h <= self.y
            + self.h
    }
}

/// The `i`-th position tried for the popup, in order of preference.
pub open spec fn candidate(anchor: (i32, i32), size: (i32, i32), pref: PopupPosition, i: int) -> (
    int,
    int,
) {
    let (ax, ay) = (anchor.0 as int, anchor.1 as int);
    let (w, h) = (size.0 as int, size.1 as int);
    let below = (ax - half(w), ay + 8);
    let above = (ax - half(w), ay - 8 - h);
    let right = (ax + 8, ay - half(h));
    let left = (ax - 8 - w, ay - half(h));
    let top_right = (ax + 8, ay - 8 - h);
    match pref {
        PopupPosition::Below => if i == 0 {
            below
        } else if i == 1 {
            above
        } else if i == 2 {
            right
        } else if i == 3 {
            left
        } else {
            (ax, ay)
        },
        PopupPosition::TopRight => if i == 0 {
            top_right
        } else if i == 1 {
            below
        } else if i == 2 {
            left
        } else if i == 3 {
            above
        } else {
            (ax, ay)
        },
    }
}

/// `v` clamped to `[lo, hi]`; when the range is empty, `lo`.
pub open spec fn clamp_spec(v: int, lo: int, hi: int) -> int {
    if hi < lo {
        lo
    } else if v < lo {
        lo
    } else if v > hi {
        hi
    } else {
        v
    }
}

/// The fallback position: the anchor clamped into the work area.
pub open spec fn clamped(anchor: (i32, i32), size: (i32, i32), workarea: Rect) -> (int, int) {
    (
        clamp_spec(anchor.0 as int, workarea.x as int, workarea.x + workarea.w - size.0),
        clamp_spec(anchor.1 as int, workarea.y as int, workarea.y + workarea.h - size.1),
    )
}

/// Whether candidate `i` keeps the whole popup inside the work area.
pub open spec fn candidate_fits(
    anchor: (i32, i32),
    size: (i32, i32),
    workarea: Rect,
    pref: PopupPosition,
    i: int,
) -> bool {
    let c = candidate(anchor, size, pref, i);
    encloses(workarea, c.0, c.1, size.0 as int, size.1 as int)
}

/// The first candidate from `i` on that fits, or the clamped fallback.
pub open spec fn locate_from(
    anchor: (i32, i32),
    size: (i32, i32),
    workarea: Rect,
    pref: PopupPosition,
    i: int,
) -> (int, int)
    decreases 5 - i,
{
    if i >= 5 || i < 0 {
        clamped(anchor, size, workarea)
    } else if candidate_fits(anchor, size, workarea, pref, i) {
        candidate(anchor, size, pref, i)
    } else {
        locate_from(anchor, size, workarea, pref, i + 1)
    }
}

/// The position at which the popup opens.
pub open spec fn spec_locate(
    anchor: (i32, i32),
    size: (i32, i32),
    workarea: Rect,
    pref: PopupPosition,
) -> (int, int) {
    locate_from(anchor, size, workarea, pref, 0)
}

/// Every candidate coordinate, and every candidate edge, fits in `i32`.
pub open spec fn offsets_in_range(anchor: (i32, i32), size: (i32, i32)) -> bool {
    let (ax, ay) = (anchor.0 as int, anchor.1 as int);
    let (w, h) = (size.0 as int, size.1 as int);
    &&& in_i32(ax - half(w))
    &&& in_i32(ax - half(w) + w)
    &&& in_i32(ay + 8)
    &&& in_i32(ay + 8 + h)
    &&& in_i32(ay - 8)
    &&& in_i32(ay - 8 - h)
    &&& in_i32(ax + 8)
    &&& in_i32(ax + 8 + w)
    &&& in_i32(ay - half(h))
    &&& in_i32(ay - half(h) + h)
    &&& in_i32(ax - 8)
    &&& in_i32(ax - 8 - w)
    &&& in_i32(ax + w)
    &&& in_i32(ay + h)
}

/// Every coordinate the placement computes fits in `i32`.
pub open spec fn locate_in_range(anchor: (i32, i32), size: (i32, i32), workarea: Rect) -> bool {
    let (w, h) = (size.0 as int, size.1 as int);
    &&& offsets_in_range(anchor, size)
    &&& in_i32(workarea.x + workarea.w)
    &&& in_i32(workarea.y + workarea.h)
    &&& in_i32(workarea.x + workarea.w - w)
    &&& in_i32(workarea.y + workarea.h - h)
}

/// The edges of every candidate window fit in `i32`.
proof fn lemma_candidate_edges(anchor: (i32, i32), size: (i32, i32), pref: PopupPosition, i: int)
    requires
        offsets_in_range(anchor, size),
        0 <= i < 5,
    ensures
        in_i32(candidate(anchor, size, pref, i).0),
        in_i32(candidate(anchor, size, pref, i).1),
        in_i32(candidate(anchor, size, pref, i).0 + size.0),
        in_i32(candidate(anchor, size, pref, i).1 + size.1),
{
}

/// `v` clamped to `[lo, hi]`; when the range is empty, `lo`.
fn clamp_value(v: i32, lo: i32, hi: i32) -> (r: i32)
    ensures
        r == clamp_spec(v as int, lo as int, hi as int),
{
    if hi < lo {
        lo
    } else if v < lo {
        lo
    } else if v > hi {
        hi
    } else {
        v
    }
}

/// The five candidate positions for `pref`, in the order they are tried.
fn candidates(anchor: (i32, i32), size: (i32, i32), pref: PopupPosition) -> (res: Vec<(i32, i32)>)
    requires
        offsets_in_range(anchor, size),
    ensures
        res@.len() == 5,
        forall|i: int|
            0 <= i < 5 ==> (res@[i].0 as int, res@[i].1 as int) == candidate(
                anchor,
                size,
                pref,
                i,
            ),
{
    let (ax, ay) = anchor;
    let (w, h) = size;
    let below = (ax - w / 2, ay + GAP);
    let above = (ax - w / 2, ay - GAP - h);
    let right = (ax + GAP, ay - h / 2);
    let left = (ax - GAP - w, ay - h / 2);
    let top_right = (ax + GAP, ay - GAP - h);
    let at_anchor = (ax, ay);
    match pref {
        PopupPosition::Below => vec![below, above, right, left, at_anchor],
        PopupPosition::TopRight => vec![top_right, below, left, above, at_anchor],
    }
}

/// Places a popup of `size` next to `anchor` inside `workarea` and returns
/// its top-left corner.
pub fn locate(anchor: (i32, i32), size: (i32, i32), workarea: Rect, pref: PopupPosition) -> (res: (
    i32,
    i32,
))
    requires
        locate_in_range(anchor, size, workarea),
    ensures
        (res.0 as int, res.1 as int) == spec_locate(anchor, size, workarea, pref),
{
    let (w, h) = size;
    let cands = candidates(anchor, size, pref);
    let mut i: usize = 0;
    while i < 5
        invariant
            0 <= i <= 5,
            w == size.0,
            h == size.1,
            cands@.len() == 5,
            locate_in_range(anchor, size, workarea),
            forall|j: int|
                0 <= j < 5 ==> (cands@[j].0 as int, cands@[j].1 as int) == candidate(
                    anchor,
                    size,
                    pref,
                    j,
                ),
            spec_locate(anchor, size, workarea, pref) == locate_from(
                anchor,
                size,
                workarea,
                pref,
                i as int,
            ),
        decreases 5 - i,
    {
        let (x, y) = cands[i];
        let win = Rect { x, y, w, h };
        proof {
            lemma_candidate_edges(anchor, size, pref, i as int);
            assert((cands@[i as int].0 as int, cands@[i as int].1 as int) == candidate(
                anchor,
                size,
                pref,
                i as int,
            ));
        }
        if workarea.contains(&win) {
            return (x, y);
        }
        i = i + 1;
    }
    let x = clamp_value(anchor.0, workarea.x, workarea.x + workarea.w - w);
    let y = clamp_value(anchor.1, workarea.y, workarea.y + workarea.h - h);
    (x, y)
}

/// The work area assumed when no monitor is known: a 1920×1080 screen at
/// the origin.
pub open spec fn fallback_workarea() -> Rect {
    Rect { x: 0, y: 0, w: 1920, h: 1080 }
}

/// The size assumed for a window whose size cannot be read.
pub open spec fn fallback_size() -> (i32, i32) {
    (420, 540)
}

/// The work area a popup is placed in: the monitor that holds the anchor,
/// else the primary monitor, else the fallback screen.
pub open spec fn workarea_for(at_anchor: Option<Rect>, primary: Option<Rect>) -> Rect {
    match at_anchor {
        Some(r) => r,
        None => match primary {
            Some(r) => r,
            None => fallback_workarea(),
        },
    }
}

/// The popup's size: the window's own when known, else the fallback.
pub open spec fn size_or_fallback(size: Option<(i32, i32)>) -> (i32, i32) {
    match size {
        Some(s) => s,
        None => fallback_size(),
    }
}

/// Picks the work area for a popup from the monitors that could be found.
pub fn choose_workarea(at_anchor: Option<Rect>, primary: Option<Rect>) -> (r: Rect)
    ensures
        r == workarea_for(at_anchor, primary),
{
    match at_anchor {
        Some(r) => r,
        None => match primary {
            Some(r) => r,
            None => Rect { x: 0, y: 0, w: 1920, h: 1080 },
        },
    }
}

/// The anchor a popup opens at: the selection's own, else the mouse cursor.
pub fn popup_anchor(selection_anchor: Option<(i32, i32)>, cursor: Option<(i32, i32)>) -> (r:
    Option<(i32, i32)>)
    ensures
        r == (match selection_anchor {
            Some(a) => Some(a),
            None => cursor,
        }),
{
    match selection_anchor {
        Some(a) => Some(a),
        None => cursor,
    }
}

/// Whether `place_at` can compute the placement for these inputs without
/// leaving the `i32` range.
pub fn placement_in_range(
    anchor: (i32, i32),
    at_anchor: Option<Rect>,
    primary: Option<Rect>,
    size: Option<(i32, i32)>,
) -> (r: bool)
    ensures
        r == locate_in_range(anchor, size_or_fallback(size), workarea_for(at_anchor, primary)),
{
    let wa = choose_workarea(at_anchor, primary);
    let (w, h) = match size {
        Some(s) => s,
        None => (420i32, 540i32),
    };
    let (ax, ay) = (anchor.0 as i64, anchor.1 as i64);
    let (w, h) = (w as i64, h as i64);
    let (hw, hh) = (w / 2, h / 2);
    let lo = i32::MIN as i64;
    let hi = i32::MAX as i64;
    let fits = |v: i64| -> (b: bool)
        ensures
            b == (lo <= v && v <= hi),
        { lo <= v && v <= hi };
    proof {
        assert(hw == half(w as int));
        assert(hh == half(h as int));
    }
    fits(ax - hw) && fits(ax - hw + w) && fits(ay + 8) && fits(ay + 8 + h) && fits(ay - 8)
        && fits(ay - 8 - h) && fits(ax + 8) && fits(ax + 8 + w) && fits(ay - hh) && fits(
        ay - hh + h,
    ) && fits(ax - 8) && fits(ax - 8 - w) && fits(ax + w) && fits(ay + h) && fits(
        wa.x as i64 + wa.w as i64,
    ) && fits(wa.y as i64 + wa.h as i64) && fits(wa.x as i64 + wa.w as i64 - w) && fits(
        wa.y as i64 + wa.h as i64 - h,
    )
}

/// The top-left corner of a popup opened at `anchor`: the work area is the
/// monitor holding the anchor, else the primary monitor, else a 1920×1080
/// screen; the size is the window's own, else 420×540.
pub fn place_at(
    anchor: (i32, i32),
    at_anchor: Option<Rect>,
    primary: Option<Rect>,
    size: Option<(i32, i32)>,
    pref: PopupPosition,
) -> (r: (i32, i32))
    requires
        locate_in_range(anchor, size_or_fallback(size), workarea_for(at_anchor, primary)),
    ensures
        (r.0 as int, r.1 as int) == spec_locate(
            anchor,
            size_or_fallback(size),
            workarea_for(at_anchor, primary),
            pref,
        ),
{
    let workarea = choose_workarea(at_anchor, primary);
    let size = match size {
        Some(s) => s,
        None => (420i32, 540i32),
    };
    locate(anchor, size, workarea, pref)
}

} // verus!

verus! {

proof fn lemma_locate_from_bounds(
    anchor: (i32, i32),
    size: (i32, i32),
    workarea: Rect,
    pref: PopupPosition,
    i: int,
)
    ensures
        locate_from(anchor, size, workarea, pref, i).0 >= workarea.x,
        locate_from(anchor, size, workarea, pref, i).1 >= workarea.y,
        size.0 <= workarea.w && size.1 <= workarea.h ==> encloses(
            workarea,
            locate_from(anchor, size, workarea, pref, i).0,
            locate_from(anchor, size, workarea, pref, i).1,
            size.0 as int,
            size.1 as int,
        ),
    decreases 5 - i,
{
    if i >= 5 || i < 0 {
    } else if candidate_fits(anchor, size, workarea, pref, i) {
    } else {
        lemma_locate_from_bounds(anchor, size, workarea, pref, i + 1);
    }
}

/// A popup no larger than the work area always opens completely inside it,
/// whichever side it ends up on.
pub proof fn law_popup_inside_workarea(
    anchor: (i32, i32),
    size: (i32, i32),
    workarea: Rect,
    pref: PopupPosition,
)
    requires
        size.0 <= workarea.w,
        size.1 <= workarea.h,
    ensures
        encloses(
            workarea,
            spec_locate(anchor, size, workarea, pref).0,
            spec_locate(anchor, size, workarea, pref).1,
            size.0 as int,
            size.1 as int,
        ),
{
    lemma_locate_from_bounds(anchor, size, workarea, pref, 0);
}

/// The popup's top-left corner never lies left of or above the work area,
/// even when the popup is larger than the work area.
pub proof fn law_popup_origin_in_workarea(
    anchor: (i32, i32),
    size: (i32, i32),
    workarea: Rect,
    pref: PopupPosition,
)
    ensures
        spec_locate(anchor, size, workarea, pref).0 >= workarea.x,
        spec_locate(anchor, size, workarea, pref).1 >= workarea.y,
{
    lemma_locate_from_bounds(anchor, size, workarea, pref, 0);
}

/// The preferred side wins whenever the popup fits there: below and centred
/// for `Below`, above and to the right for `TopRight`.
pub proof fn law_preferred_side_first(
    anchor: (i32, i32),
    size: (i32, i32),
    workarea: Rect,
    pref: PopupPosition,
)
    requires
        candidate_fits(anchor, size, workarea, pref, 0),
    ensures
        spec_locate(anchor, size, workarea, pref) == candidate(anchor, size, pref, 0),
        pref == PopupPosition::Below ==> spec_locate(anchor, size, workarea, pref) == (
            anchor.0 - half(size.0 as int),
            anchor.1 + GAP,
        ),
        pref == PopupPosition::TopRight ==> spec_locate(anchor, size, workarea, pref) == (
            anchor.0 + GAP,
            anchor.1 - GAP - size.1,
        ),
{
}

/// When some candidate position fits, the popup opens at a candidate that
/// fits, so the whole popup lies inside the work area.
pub proof fn law_fitting_candidate_is_used(
    anchor: (i32, i32),
    size: (i32, i32),
    workarea: Rect,
    pref: PopupPosition,
    k: int,
)
    requires
        0 <= k < 5,
        candidate_fits(anchor, size, workarea, pref, k),
    ensures
        exists|j: int|
            0 <= j <= k && candidate_fits(anchor, size, workarea, pref, j) && spec_locate(
                anchor,
                size,
                workarea,
                pref,
            ) == candidate(anchor, size, pref, j),
{
    lemma_first_fit(anchor, size, workarea, pref, 0, k);
}

proof fn lemma_first_fit(
    anchor: (i32, i32),
    size: (i32, i32),
    workarea: Rect,
    pref: PopupPosition,
    i: int,
    k: int,
)
    requires
        0 <= i <= k < 5,
        candidate_fits(anchor, size, workarea, pref, k),
    ensures
        exists|j: int|
            i <= j <= k && candidate_fits(anchor, size, workarea, pref, j) && locate_from(
                anchor,
                size,
                workarea,
                pref,
                i,
            ) == candidate(anchor, size, pref, j),
    decreases k - i,
{
    if candidate_fits(anchor, size, workarea, pref, i) {
        assert(locate_from(anchor, size, workarea, pref, i) == candidate(anchor, size, pref, i));
    } else {
        lemma_first_fit(anchor, size, workarea, pref, i + 1, k);
        let j = choose|j: int|
            i + 1 <= j <= k && candidate_fits(anchor, size, workarea, pref, j) && locate_from(
                anchor,
                size,
                workarea,
                pref,
                i + 1,
            ) == candidate(anchor, size, pref, j);
        assert(locate_from(anchor, size, workarea, pref, i) == locate_from(
            anchor,
            size,
            workarea,
            pref,
            i + 1,
        ));
    }
}


/// The order in which placements are tried with `Below` preferred: below
/// and centred (8 px under the anchor); if that leaves the work area, above
/// and centred; then to the right, vertically centred; then to the left;
/// then with the anchor as the top-left corner; and if none of these fits,
/// the anchor clamped into the work area.
pub proof fn law_below_try_order(anchor: (i32, i32), size: (i32, i32), workarea: Rect)
    ensures
        ({
            let (ax, ay) = (anchor.0 as int, anchor.1 as int);
            let (w, h) = (size.0 as int, size.1 as int);
            let r = spec_locate(anchor, size, workarea, PopupPosition::Below);
            let below = encloses(workarea, ax - half(w), ay + 8, w, h);
            let above = encloses(workarea, ax - half(w), ay - 8 - h, w, h);
            let right = encloses(workarea, ax + 8, ay - half(h), w, h);
            let left = encloses(workarea, ax - 8 - w, ay - half(h), w, h);
            let at = encloses(workarea, ax, ay, w, h);
            &&& below ==> r == (ax - half(w), ay + 8)
            &&& !below && above ==> r == (ax - half(w), ay - 8 - h)
            &&& !below && !above && right ==> r == (ax + 8, ay - half(h))
            &&& !below && !above && !right && left ==> r == (ax - 8 - w, ay - half(h))
            &&& !below && !above && !right && !left && at ==> r == (ax, ay)
            &&& !below && !above && !right && !left && !at ==> r == (
                clamp_spec(ax, workarea.x as int, workarea.x + workarea.w - w),
                clamp_spec(ay, workarea.y as int, workarea.y + workarea.h - h),
            )
        }),
{
    reveal_with_fuel(locate_from, 6);
}

/// The order in which placements are tried with `TopRight` preferred:
/// above and to the right (8 px from the anchor each way); then below and
/// centred; then to the left; then above and centred; then with the anchor
/// as the top-left corner; and if none fits, the anchor clamped into the
/// work area.
pub proof fn law_top_right_try_order(anchor: (i32, i32), size: (i32, i32), workarea: Rect)
    ensures
        ({
            let (ax, ay) = (anchor.0 as int, anchor.1 as int);
            let (w, h) = (size.0 as int, size.1 as int);
            let r = spec_locate(anchor, size, workarea, PopupPosition::TopRight);
            let top_right = encloses(workarea, ax + 8, ay - 8 - h, w, h);
            let below = encloses(workarea, ax - half(w), ay + 8, w, h);
            let left = encloses(workarea, ax - 8 - w, ay - half(h), w, h);
            let above = encloses(workarea, ax - half(w), ay - 8 - h, w, h);
            let at = encloses(workarea, ax, ay, w, h);
            &&& top_right ==> r == (ax + 8, ay - 8 - h)
            &&& !top_right && below ==> r == (ax - half(w), ay + 8)
            &&& !top_right && !below && left ==> r == (ax - 8 - w, ay - half(h))
            &&& !top_right && !below && !left && above ==> r == (ax - half(w), ay - 8 - h)
            &&& !top_right && !below && !left && !above && at ==> r == (ax, ay)
            &&& !top_right && !below && !left && !above && !at ==> r == (
                clamp_spec(ax, workarea.x as int, workarea.x + workarea.w - w),
                clamp_spec(ay, workarea.y as int, workarea.y + workarea.h - h),
            )
        }),
{
    reveal_with_fuel(locate_from, 6);
}
} // verus!
