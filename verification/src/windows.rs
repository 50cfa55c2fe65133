//! Pixel windows over a raster and their intersection.
use vstd::prelude::*;

verus! {

/// A rectangle of pixels of a raster image. The offsets are signed: a window
/// may start before the first pixel or run past the last one.
#[derive(Debug, PartialEq, Eq, Copy, Clone, Structural)]
pub struct Window {
    /// Column index of the upper-left corner.
    pub col_off: isize,
    /// Row index of the upper-left corner.
    pub row_off: isize,
    /// Width in pixels.
    pub width: usize,
    /// Height in pixels.
    pub height: usize,
}

/// The window with every field zero: what an empty intersection is.
pub open spec fn zero_window() -> Window {
    Window { col_off: 0, row_off: 0, width: 0, height: 0 }
}

/// The greater of two integers.
pub open spec fn max_int(a: int, b: int) -> int {
    if a >= b { a } else { b }
}

/// The lesser of two integers.
pub open spec fn min_int(a: int, b: int) -> int {
    if a <= b { a } else { b }
}

/// Quotient of `a` by 2, rounded toward zero.
pub open spec fn half_toward_zero(a: int) -> int {
    if a >= 0 { a / 2 } else { -((-a) / 2) }
}

impl Window {
    /// First column after the window.
    pub open spec fn col_end(self) -> int {
        self.col_off + self.width
    }

    /// First row after the window.
    pub open spec fn row_end(self) -> int {
        self.row_off + self.height
    }

    /// True iff the window covers no pixel.
    pub open spec fn spec_is_zero(self) -> bool {
        self.height == 0 || self.width == 0
    }

    /// True iff the pixel at column `col`, row `row` lies in the window.
    pub open spec fn covers(self, col: int, row: int) -> bool {
        &&& self.col_off <= col < self.col_end()
        &&& self.row_off <= row < self.row_end()
    }

    /// True iff every pixel of `self` is a pixel of `outer`, stated on the edges.
    pub open spec fn inside(self, outer: Window) -> bool {
        &&& outer.col_off <= self.col_off
        &&& self.col_end() <= outer.col_end()
        &&& outer.row_off <= self.row_off
        &&& self.row_end() <= outer.row_end()
    }

    /// The window grown to `extended_width` by `extended_height` about its
    /// centre. Both offsets move by half the gain in width.
    pub open spec fn spec_scaled(self, extended_width: int, extended_height: int) -> (int, int, int, int) {
        let shift = half_toward_zero(extended_width - self.width);
        (self.col_off - shift, self.row_off - shift, extended_width, extended_height)
    }

    /// Creates a window from the upper-left corner and the size.
    pub fn new(col_off: isize, row_off: isize, width: usize, height: usize) -> (w: Self)
        ensures
            w == (Window { col_off, row_off, width, height }),
    {
        Window { col_off, row_off, width, height }
    }

    /// Start and end indices, first of the rows, then of the columns.
    pub fn toranges(self) -> (r: ((isize, isize), (isize, isize)))
        requires
            self.row_end() <= isize::MAX,
            self.col_end() <= isize::MAX,
        ensures
            r.0.0 == self.row_off,
            r.0.1 == self.row_end(),
            r.1.0 == self.col_off,
            r.1.1 == self.col_end(),
    {
        let row_end: i128 = self.row_off as i128 + self.height as i128;
        let col_end: i128 = self.col_off as i128 + self.width as i128;
        ((self.row_off, row_end as isize), (self.col_off, col_end as isize))
    }

    /// Checks whether the window covers no pixel.
    pub fn is_zero(self) -> (b: bool)
        ensures
            b == self.spec_is_zero(),
    {
        self.height == 0 || self.width == 0
    }

    /// Checks whether the two windows share a pixel, by the rule of [`intersection`].
    pub fn intersects(&self, other: &Window) -> (b: bool)
        ensures
            b == spec_intersection(seq![*self, *other]).is_some(),
            (!self.spec_is_zero() && !other.spec_is_zero()) ==> (b <==> exists|c: int, r: int|
                self.covers(c, r) && other.covers(c, r)),
    {
        let both = intersection2(*self, *other);
        proof {
            assert(seq![*self, *other].drop_last() =~= seq![*self]);
            assert(seq![*self].drop_last() =~= Seq::<Window>::empty());
            reveal_with_fuel(fold_windows, 3);
            lemma_intersect2_pixels(*self, *other);
            if both != zero_window() {
                assert(both.covers(both.col_off as int, both.row_off as int));
            }
        }
        !is_zero_window(both)
    }

    /// Grows the window to `extended_width` by `extended_height` pixels about
    /// its centre. The row offset moves by half the gain in width, as the
    /// column offset does.
    pub fn scaled(self, extended_width: usize, extended_height: usize) -> (w: Window)
        requires
            isize::MIN <= self.spec_scaled(extended_width as int, extended_height as int).0 <= isize::MAX,
            isize::MIN <= self.spec_scaled(extended_width as int, extended_height as int).1 <= isize::MAX,
        ensures
            w.col_off == self.spec_scaled(extended_width as int, extended_height as int).0,
            w.row_off == self.spec_scaled(extended_width as int, extended_height as int).1,
            w.width == extended_width,
            w.height == extended_height,
    {
        let gain: i128 = extended_width as i128 - self.width as i128;
        let shift: i128 = gain / 2;
        let col_off: i128 = self.col_off as i128 - shift;
        let row_off: i128 = self.row_off as i128 - shift;
        Window {
            col_off: col_off as isize,
            row_off: row_off as isize,
            width: extended_width,
            height: extended_height,
        }
    }
}

impl Default for Window {
    fn default() -> (w: Self)
        ensures
            w == zero_window(),
    {
        Window { col_off: 0, row_off: 0, width: 0, height: 0 }
    }
}

fn is_zero_window(w: Window) -> (b: bool)
    ensures
        b == (w == zero_window()),
{
    w.col_off == 0 && w.row_off == 0 && w.width == 0 && w.height == 0
}

/// The pixels that two windows share, as a window; the zero window where
/// either covers nothing or they share none.
pub open spec fn intersect2(w0: Window, w1: Window) -> Window {
    let v0 = max_int(w0.col_off as int, w1.col_off as int);
    let v1 = min_int(w0.col_end(), w1.col_end());
    let h0 = max_int(w0.row_off as int, w1.row_off as int);
    let h1 = min_int(w0.row_end(), w1.row_end());
    if w0.spec_is_zero() || w1.spec_is_zero() || v0 >= v1 || h0 >= h1 {
        zero_window()
    } else {
        Window {
            col_off: v0 as isize,
            row_off: h0 as isize,
            width: (v1 - v0) as usize,
            height: (h1 - h0) as usize,
        }
    }
}

/// The windows folded from the left by [`intersect2`]; `None` for no window.
pub open spec fn fold_windows(ws: Seq<Window>) -> Option<Window>
    decreases ws.len(),
{
    if ws.len() == 0 {
        None
    } else {
        match fold_windows(ws.drop_last()) {
            None => Some(ws.last()),
            Some(acc) => Some(intersect2(acc, ws.last())),
        }
    }
}

/// What [`intersection`] returns: the fold of the windows, absent where there
/// is no window or the fold is the zero window.
pub open spec fn spec_intersection(ws: Seq<Window>) -> Option<Window> {
    match fold_windows(ws) {
        None => None,
        Some(w) => if w == zero_window() { None } else { Some(w) },
    }
}

/// Intersection of two windows. Empty or disjoint windows give the zero window.
pub fn intersection2(w0: Window, w1: Window) -> (w: Window)
    ensures
        w == intersect2(w0, w1),
{
    if w0.is_zero() || w1.is_zero() {
        return Window::default();
    }
    let v0: isize = if w0.col_off >= w1.col_off { w0.col_off } else { w1.col_off };
    let e0: i128 = w0.col_off as i128 + w0.width as i128;
    let e1: i128 = w1.col_off as i128 + w1.width as i128;
    let v1: i128 = if e0 <= e1 { e0 } else { e1 };
    if v0 as i128 >= v1 {
        return Window::default();
    }
    let h0: isize = if w0.row_off >= w1.row_off { w0.row_off } else { w1.row_off };
    let f0: i128 = w0.row_off as i128 + w0.height as i128;
    let f1: i128 = w1.row_off as i128 + w1.height as i128;
    let h1: i128 = if f0 <= f1 { f0 } else { f1 };
    if h0 as i128 >= h1 {
        return Window::default();
    }
    Window {
        col_off: v0,
        row_off: h0,
        width: (v1 - v0 as i128) as usize,
        height: (h1 - h0 as i128) as usize,
    }
}

/// Intersection of all the windows of a list: `None` for an empty list, and
/// where the fold is the zero window.
pub fn intersection(windows: &[Window]) -> (r: Option<Window>)
    ensures
        r == spec_intersection(windows@),
{
    let n: usize = windows.len();
    if n == 0 {
        return None;
    }
    let mut acc: Window = windows[0];
    let mut i: usize = 1;
    proof {
        assert(windows@.subrange(0, 1).drop_last() =~= Seq::<Window>::empty());
        reveal_with_fuel(fold_windows, 2);
    }
    while i < n
        invariant
            n == windows@.len(),
            1 <= i <= n,
            fold_windows(windows@.subrange(0, i as int)) == Some(acc),
        decreases n - i,
    {
        proof {
            assert(windows@.subrange(0, i + 1).drop_last() =~= windows@.subrange(0, i as int));
        }
        acc = intersection2(acc, windows[i]);
        i = i + 1;
    }
    proof {
        assert(windows@.subrange(0, n as int) =~= windows@);
    }
    if is_zero_window(acc) {
        None
    } else {
        Some(acc)
    }
}

/// A pixel lies in the intersection of two windows exactly when it lies in
/// both, and an intersection without pixels is the zero window.
pub proof fn lemma_intersect2_pixels(w0: Window, w1: Window)
    ensures
        forall|c: int, r: int| #[trigger]
            intersect2(w0, w1).covers(c, r) <==> w0.covers(c, r) && w1.covers(c, r),
        intersect2(w0, w1).spec_is_zero() ==> intersect2(w0, w1) == zero_window(),
        intersect2(w0, w1) != zero_window() ==> intersect2(w0, w1).inside(w0) && intersect2(
            w0,
            w1,
        ).inside(w1),
{
}

/// Intersecting two windows gives the same in either order.
pub proof fn lemma_intersection_symmetric(a: Window, b: Window)
    ensures
        intersect2(a, b) == intersect2(b, a),
        spec_intersection(seq![a, b]) == spec_intersection(seq![b, a]),
{
    assert(seq![a, b].drop_last() =~= seq![a]);
    assert(seq![b, a].drop_last() =~= seq![b]);
    assert(seq![a].drop_last() =~= Seq::<Window>::empty());
    assert(seq![b].drop_last() =~= Seq::<Window>::empty());
    reveal_with_fuel(fold_windows, 3);
}

/// A window that covers a pixel is its own intersection with itself.
pub proof fn lemma_intersection_idempotent(a: Window)
    requires
        !a.spec_is_zero(),
    ensures
        intersect2(a, a) == a,
        spec_intersection(seq![a, a]) == Some(a),
{
    assert(seq![a, a].drop_last() =~= seq![a]);
    assert(seq![a].drop_last() =~= Seq::<Window>::empty());
    reveal_with_fuel(fold_windows, 3);
}

/// A window that [`intersection`] returns covers a pixel and lies inside
/// every window of a list of two or more.
pub proof fn lemma_intersection_inside(ws: Seq<Window>, i: int)
    requires
        ws.len() >= 2,
        0 <= i < ws.len(),
        spec_intersection(ws).is_some(),
    ensures
        !spec_intersection(ws).unwrap().spec_is_zero(),
        spec_intersection(ws).unwrap().inside(ws[i]),
    decreases ws.len(),
{
    let rest = ws.drop_last();
    let acc = fold_windows(rest).unwrap();
    let w = intersect2(acc, ws.last());
    assert(fold_windows(ws) == Some(w));
    lemma_intersect2_pixels(acc, ws.last());
    if i < ws.len() - 1 {
        if rest.len() >= 2 {
            assert(acc != zero_window());
            lemma_intersection_inside(rest, i);
        } else {
            assert(rest.drop_last() =~= Seq::<Window>::empty());
            reveal_with_fuel(fold_windows, 2);
            assert(acc == ws[0]);
        }
    }
}

} // verus!
