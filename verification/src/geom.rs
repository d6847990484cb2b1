//! Scalars, points, spans and rectangles.

use vstd::prelude::*;

verus! {

/// A coordinate or a length on the half-unit grid: `halves` counts halves of
/// a unit, so `Scalar { halves: 5 }` stands for 2.5 units.
#[derive(Clone, Copy, Debug, PartialEq, Eq, Hash)]
pub struct Scalar {
    pub halves: i64,
}

impl View for Scalar {
    type V = int;

    /// The number of half units.
    open spec fn view(&self) -> int {
        self.halves as int
    }
}

/// The number of half units in `u` whole units.
pub open spec fn units(u: int) -> int {
    2 * u
}

impl Scalar {
    /// The scalar that stands for `u` whole units.
    pub fn from_units(u: i32) -> (s: Scalar)
        ensures
            s@ == units(u as int),
    {
        Scalar { halves: 2 * (u as i64) }
    }
}

/// A position in the plane.
#[derive(Clone, Copy, Debug, PartialEq, Eq, Hash)]
pub struct Point2D {
    pub x: Scalar,
    pub y: Scalar,
}

impl View for Point2D {
    type V = (int, int);

    /// The coordinates in half units, `x` first.
    open spec fn view(&self) -> (int, int) {
        (self.x@, self.y@)
    }
}

impl Point2D {
    /// The point at `x`, `y` whole units.
    pub fn from_units(x: i32, y: i32) -> (p: Point2D)
        ensures
            p@ == (units(x as int), units(y as int)),
    {
        Point2D { x: Scalar::from_units(x), y: Scalar::from_units(y) }
    }
}

/// A start and an end position along one axis, in whole units. The start may
/// lie above the end: such a span is directed downwards.
#[derive(Clone, Copy, Debug, PartialEq, Eq, Hash)]
pub struct Span {
    pub start: i32,
    pub end: i32,
}

/// The mathematical model of a [`Span`]: both ends are unbounded integers.
pub struct SpanView {
    pub start: int,
    pub end: int,
}

impl View for Span {
    type V = SpanView;

    open spec fn view(&self) -> SpanView {
        SpanView { start: self.start as int, end: self.end as int }
    }
}

impl SpanView {
    /// The smaller of the two ends.
    pub open spec fn lower(self) -> int {
        if self.start <= self.end {
            self.start
        } else {
            self.end
        }
    }

    /// The larger of the two ends.
    pub open spec fn upper(self) -> int {
        if self.start <= self.end {
            self.end
        } else {
            self.start
        }
    }

    /// The end minus the start; negative for a span directed downwards.
    pub open spec fn magnitude(self) -> int {
        self.end - self.start
    }

    /// The distance between the two ends.
    pub open spec fn len(self) -> int {
        if self.magnitude() < 0 {
            -self.magnitude()
        } else {
            self.magnitude()
        }
    }

    /// The position halfway between the two ends, in half units.
    pub open spec fn middle(self) -> int {
        self.start + self.end
    }

    /// The span with its start moved by `pad` towards its end.
    pub open spec fn pad_start(self, pad: int) -> SpanView {
        SpanView {
            start: self.start + if self.start <= self.end {
                pad
            } else {
                -pad
            },
            end: self.end,
        }
    }

    /// The span with its end moved by `pad` towards its start.
    pub open spec fn pad_end(self, pad: int) -> SpanView {
        SpanView {
            start: self.start,
            end: self.end + if self.start <= self.end {
                -pad
            } else {
                pad
            },
        }
    }

    /// The span padded at its start and then at its end. The second step sees
    /// the start that the first step has moved: where `pad` exceeds the
    /// length, the start has passed the end, and the end moves away from it.
    pub open spec fn pad(self, pad: int) -> SpanView {
        self.pad_start(pad).pad_end(pad)
    }

    /// Both ends can be held by a [`Span`].
    pub open spec fn fits(self) -> bool {
        &&& i32::MIN <= self.start <= i32::MAX
        &&& i32::MIN <= self.end <= i32::MAX
    }
}

impl Span {
    /// The smaller of the two ends.
    pub fn lower(&self) -> (r: i32)
        ensures
            r == self@.lower(),
    {
        if self.start <= self.end {
            self.start
        } else {
            self.end
        }
    }

    /// The larger of the two ends.
    pub fn upper(&self) -> (r: i32)
        ensures
            r == self@.upper(),
    {
        if self.start <= self.end {
            self.end
        } else {
            self.start
        }
    }

    /// The distance between the two ends.
    pub fn len(&self) -> (r: i64)
        ensures
            r == self@.len(),
    {
        let magnitude: i64 = self.end as i64 - self.start as i64;
        if magnitude < 0 {
            -magnitude
        } else {
            magnitude
        }
    }

    /// The position halfway between the two ends.
    pub fn middle(&self) -> (r: Scalar)
        ensures
            r@ == self@.middle(),
    {
        Scalar { halves: self.start as i64 + self.end as i64 }
    }

    /// The start and the end of the span padded at both ends by `pad`.
    fn padded_ends(&self, pad: i32) -> (ends: (i64, i64))
        ensures
            ends.0 == self@.pad(pad as int).start,
            ends.1 == self@.pad(pad as int).end,
    {
        let pad: i64 = pad as i64;
        let start: i64 = self.start as i64 + if self.start <= self.end {
            pad
        } else {
            -pad
        };
        let end: i64 = self.end as i64 + if start <= self.end as i64 {
            -pad
        } else {
            pad
        };
        (start, end)
    }

    /// The length of the span after padding both ends by `pad`.
    pub fn padded_len(&self, pad: i32) -> (r: i64)
        ensures
            r == self@.pad(pad as int).len(),
    {
        let (start, end) = self.padded_ends(pad);
        let magnitude: i64 = end - start;
        if magnitude < 0 {
            -magnitude
        } else {
            magnitude
        }
    }

    /// The span padded at both ends by `pad`, or `None` where an end of the
    /// padded span is no `i32`.
    pub fn pad(&self, pad: i32) -> (r: Option<Span>)
        ensures
            self@.pad(pad as int).fits() ==> r is Some && r->0@ == self@.pad(pad as int),
            !self@.pad(pad as int).fits() ==> r is None,
    {
        let (start, end) = self.padded_ends(pad);
        let least: i64 = i32::MIN as i64;
        let most: i64 = i32::MAX as i64;
        if least <= start && start <= most && least <= end && end <= most {
            Some(Span { start: start as i32, end: end as i32 })
        } else {
            None
        }
    }
}

/// An axis-aligned rectangle: a span along the x axis and one along the y
/// axis.
#[derive(Clone, Copy, Debug, PartialEq, Eq, Hash)]
pub struct Rect {
    pub x: Span,
    pub y: Span,
}

/// The mathematical model of a [`Rect`].
pub struct RectView {
    pub x: SpanView,
    pub y: SpanView,
}

impl View for Rect {
    type V = RectView;

    open spec fn view(&self) -> RectView {
        RectView { x: self.x@, y: self.y@ }
    }
}

impl RectView {
    /// The lowest x value.
    pub open spec fn left(self) -> int {
        self.x.lower()
    }

    /// The highest x value.
    pub open spec fn right(self) -> int {
        self.x.upper()
    }

    /// The lowest y value.
    pub open spec fn bottom(self) -> int {
        self.y.lower()
    }

    /// The highest y value.
    pub open spec fn top(self) -> int {
        self.y.upper()
    }

    /// The width.
    pub open spec fn w(self) -> int {
        self.x.len()
    }

    /// The height.
    pub open spec fn h(self) -> int {
        self.y.len()
    }

    /// The rectangle with each of its four edges moved inwards by `pad`.
    pub open spec fn pad(self, pad: int) -> RectView {
        RectView { x: self.x.pad(pad), y: self.y.pad(pad) }
    }

    /// Both spans can be held by a [`Rect`].
    pub open spec fn fits(self) -> bool {
        self.x.fits() && self.y.fits()
    }

    /// The centre, in half units.
    pub open spec fn center(self) -> (int, int) {
        (self.x.middle(), self.y.middle())
    }

    /// The middle of the top edge, in half units.
    pub open spec fn mid_top(self) -> (int, int) {
        (self.x.middle(), units(self.top()))
    }

    /// The middle of the right edge, in half units.
    pub open spec fn mid_right(self) -> (int, int) {
        (units(self.right()), self.y.middle())
    }

    /// The middle of the bottom edge, in half units.
    pub open spec fn mid_bottom(self) -> (int, int) {
        (self.x.middle(), units(self.bottom()))
    }

    /// The middle of the left edge, in half units.
    pub open spec fn mid_left(self) -> (int, int) {
        (units(self.left()), self.y.middle())
    }
}

impl Rect {
    /// The rectangle between the given edges.
    pub fn from_edges(left: i32, right: i32, bottom: i32, top: i32) -> (r: Rect)
        ensures
            r == (Rect { x: Span { start: left, end: right }, y: Span { start: bottom, end: top } }),
    {
        Rect { x: Span { start: left, end: right }, y: Span { start: bottom, end: top } }
    }

    /// The lowest x value.
    pub fn left(&self) -> (r: i32)
        ensures
            r == self@.left(),
    {
        self.x.lower()
    }

    /// The highest x value.
    pub fn right(&self) -> (r: i32)
        ensures
            r == self@.right(),
    {
        self.x.upper()
    }

    /// The lowest y value.
    pub fn bottom(&self) -> (r: i32)
        ensures
            r == self@.bottom(),
    {
        self.y.lower()
    }

    /// The highest y value.
    pub fn top(&self) -> (r: i32)
        ensures
            r == self@.top(),
    {
        self.y.upper()
    }

    /// The width.
    pub fn w(&self) -> (r: i64)
        ensures
            r == self@.w(),
    {
        self.x.len()
    }

    /// The height.
    pub fn h(&self) -> (r: i64)
        ensures
            r == self@.h(),
    {
        self.y.len()
    }

    /// The rectangle with each of its four edges moved inwards by `pad`, or
    /// `None` where an edge of the padded rectangle is no `i32`.
    pub fn pad(&self, pad: i32) -> (r: Option<Rect>)
        ensures
            self@.pad(pad as int).fits() ==> r is Some && r->0@ == self@.pad(pad as int),
            !self@.pad(pad as int).fits() ==> r is None,
    {
        match (self.x.pad(pad), self.y.pad(pad)) {
            (Some(x), Some(y)) => Some(Rect { x, y }),
            _ => None,
        }
    }

    /// The centre.
    pub fn center(&self) -> (p: Point2D)
        ensures
            p@ == self@.center(),
    {
        Point2D { x: self.x.middle(), y: self.y.middle() }
    }

    /// The middle of the top edge.
    pub fn mid_top(&self) -> (p: Point2D)
        ensures
            p@ == self@.mid_top(),
    {
        Point2D { x: self.x.middle(), y: Scalar::from_units(self.top()) }
    }

    /// The middle of the right edge.
    pub fn mid_right(&self) -> (p: Point2D)
        ensures
            p@ == self@.mid_right(),
    {
        Point2D { x: Scalar::from_units(self.right()), y: self.y.middle() }
    }

    /// The middle of the bottom edge.
    pub fn mid_bottom(&self) -> (p: Point2D)
        ensures
            p@ == self@.mid_bottom(),
    {
        Point2D { x: self.x.middle(), y: Scalar::from_units(self.bottom()) }
    }

    /// The middle of the left edge.
    pub fn mid_left(&self) -> (p: Point2D)
        ensures
            p@ == self@.mid_left(),
    {
        Point2D { x: Scalar::from_units(self.left()), y: self.y.middle() }
    }
}

} // verus!
