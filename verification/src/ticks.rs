//! Tick marks: short strokes across an axis at every multiple of an
//! increment, from zero outwards to both ends of the viewport.

use vstd::prelude::*;
use vstd::arithmetic::div_mod::{
    lemma_fundamental_div_mod, lemma_fundamental_div_mod_converse, lemma_mod_bound,
};
use vstd::arithmetic::mul::{
    lemma_mul_inequality, lemma_mul_nonnegative, lemma_mul_strict_inequality,
};
use crate::color::ColorRGB;
use crate::command::{views, Command, CommandView, Line, LineView};
use crate::geom::{units, Point2D, Rect, RectView, Scalar};

verus! {

/// The distance between two ticks: a whole number of units above zero.
#[derive(Clone, Copy, Debug, PartialEq, Eq, Hash)]
pub struct Increment {
    value: i32,
}

impl View for Increment {
    type V = int;

    /// The distance in whole units.
    closed spec fn view(&self) -> int {
        self.value as int
    }
}

impl Increment {
    #[verifier::type_invariant]
    spec fn positive(self) -> bool {
        self.value > 0
    }

    /// The increment of `value` units, where `value` is above zero.
    pub fn new(value: i32) -> (increment: Option<Increment>)
        ensures
            value > 0 ==> increment is Some && increment->0@ == value,
            value <= 0 ==> increment is None,
    {
        if value > 0 {
            Some(Increment { value })
        } else {
            None
        }
    }

    /// The distance in whole units.
    pub fn get(&self) -> (value: i32)
        ensures
            value == self@,
            value > 0,
    {
        proof {
            use_type_invariant(self);
        }
        self.value
    }
}

/// How many of the multiples `0`, `step`, `2 * step`, ... lie below `bound`.
pub open spec fn tick_count(step: int, bound: int) -> nat
    recommends
        step > 0,
{
    if bound <= 0 {
        0
    } else {
        ((bound - 1) / step + 1) as nat
    }
}

/// The positions of the ticks between `lo` and `hi`: first the multiples of
/// `step` from zero upwards that lie below `hi`, then the multiples from zero
/// downwards that lie above `lo`. Zero opens each of the two runs.
pub open spec fn tick_positions(step: int, lo: int, hi: int) -> Seq<int>
    recommends
        step > 0,
{
    Seq::new(tick_count(step, hi), |k: int| k * step) + Seq::new(
        tick_count(step, -lo),
        |k: int| -(k * step),
    )
}

/// The numbers that `s` holds, as unbounded integers.
pub open spec fn ints(s: Seq<i32>) -> Seq<int> {
    s.map_values(|p: i32| p as int)
}

/// `k` is the count of multiples below `bound` if the `k`-th multiple is the
/// first that is not below it.
proof fn lemma_count_is(step: int, bound: int, k: int)
    requires
        step > 0,
        k >= 0,
        k * step >= bound,
        k > 0 ==> (k - 1) * step < bound,
    ensures
        k == tick_count(step, bound),
{
    if bound <= 0 {
        if k > 0 {
            lemma_mul_nonnegative(k - 1, step);
        }
    } else {
        assert(k > 0) by {
            if k == 0 {
                assert(k * step == 0);
            }
        }
        assert(k * step == (k - 1) * step + step) by (nonlinear_arith);
        let r = bound - 1 - (k - 1) * step;
        lemma_fundamental_div_mod_converse(bound - 1, step, k - 1, r);
    }
}

/// The multiple at the count is the first that is not below `bound`.
proof fn lemma_count_stops(step: int, bound: int)
    requires
        step > 0,
    ensures
        tick_count(step, bound) * step >= bound,
        tick_count(step, bound) > 0 ==> (tick_count(step, bound) - 1) * step < bound,
        bound > 0 <==> tick_count(step, bound) > 0,
{
    if bound > 0 {
        let q = (bound - 1) / step;
        lemma_fundamental_div_mod(bound - 1, step);
        lemma_mod_bound(bound - 1, step);
        assert(q * step == step * q) by (nonlinear_arith);
        assert((q + 1) * step == q * step + step) by (nonlinear_arith);
        assert(q >= 0) by {
            if q < 0 {
                lemma_mul_strict_inequality(q, 0, step);
            }
        }
    } else {
        assert(0 * step == 0);
    }
}

/// Every multiple before the count lies below `bound`, and not below zero.
proof fn lemma_multiple_below(step: int, bound: int, k: int)
    requires
        step > 0,
        0 <= k < tick_count(step, bound),
    ensures
        0 <= k * step < bound,
{
    lemma_count_stops(step, bound);
    lemma_mul_nonnegative(k, step);
    lemma_mul_inequality(k, tick_count(step, bound) - 1, step);
}

/// The ticks of an axis stay inside the viewport and run outwards.
///
/// For an increment above zero the tick sequence is finite and has two
/// halves. Each tick of the first half lies at or above zero and strictly
/// below `hi`; each tick of the second half lies at or below zero and
/// strictly above `lo`. Within each half the magnitude never falls from one
/// tick to the next, and rises between any two different ticks. Each half
/// stops at the first multiple that has left the viewport.
pub proof fn lemma_ticks_bounded(step: int, lo: int, hi: int)
    requires
        step > 0,
    ensures
        ({
            let s = tick_positions(step, lo, hi);
            let n = tick_count(step, hi) as int;
            let m = tick_count(step, -lo) as int;
            &&& s.len() == n + m
            &&& forall|i: int| 0 <= i < n ==> 0 <= #[trigger] s[i] < hi
            &&& forall|i: int| n <= i < n + m ==> lo < #[trigger] s[i] <= 0
            &&& forall|i: int, j: int|
                0 <= i <= j < n ==> vstd::math::abs(#[trigger] s[i]) <= vstd::math::abs(
                    #[trigger] s[j],
                )
            &&& forall|i: int, j: int|
                n <= i <= j < n + m ==> vstd::math::abs(#[trigger] s[i]) <= vstd::math::abs(
                    #[trigger] s[j],
                )
            &&& forall|i: int, j: int|
                0 <= i < j < n || n <= i < j < n + m ==> vstd::math::abs(#[trigger] s[i])
                    < vstd::math::abs(#[trigger] s[j])
            &&& n * step >= hi
            &&& -(m * step) <= lo
        }),
{
    let s = tick_positions(step, lo, hi);
    let n = tick_count(step, hi) as int;
    let m = tick_count(step, -lo) as int;
    lemma_count_stops(step, hi);
    lemma_count_stops(step, -lo);
    assert forall|i: int| 0 <= i < n implies 0 <= #[trigger] s[i] < hi by {
        lemma_multiple_below(step, hi, i);
    }
    assert forall|i: int| n <= i < n + m implies lo < #[trigger] s[i] <= 0 by {
        lemma_multiple_below(step, -lo, i - n);
    }
    assert forall|i: int, j: int| 0 <= i <= j < n implies vstd::math::abs(#[trigger] s[i])
        <= vstd::math::abs(#[trigger] s[j]) by {
        lemma_multiple_below(step, hi, i);
        lemma_multiple_below(step, hi, j);
        lemma_mul_inequality(i, j, step);
    }
    assert forall|i: int, j: int| n <= i <= j < n + m implies vstd::math::abs(#[trigger] s[i])
        <= vstd::math::abs(#[trigger] s[j]) by {
        lemma_multiple_below(step, -lo, i - n);
        lemma_multiple_below(step, -lo, j - n);
        lemma_mul_inequality(i - n, j - n, step);
    }
    assert forall|i: int, j: int|
        0 <= i < j < n || n <= i < j < n + m implies vstd::math::abs(#[trigger] s[i])
        < vstd::math::abs(#[trigger] s[j]) by {
        if j < n {
            lemma_multiple_below(step, hi, i);
            lemma_multiple_below(step, hi, j);
            lemma_mul_strict_inequality(i, j, step);
        } else {
            lemma_multiple_below(step, -lo, i - n);
            lemma_multiple_below(step, -lo, j - n);
            lemma_mul_strict_inequality(i - n, j - n, step);
        }
    }
}

/// Zero is a tick once for each half of the axis that the viewport shows.
///
/// Where `hi` lies above zero the first half is not empty and opens with
/// zero; where `lo` lies below zero the second half is not empty and opens
/// with zero. So a viewport that holds the origin inside has the tick at zero
/// twice. A half that the viewport does not show is empty, and no other tick
/// lies at zero.
pub proof fn lemma_ticks_zero(step: int, lo: int, hi: int)
    requires
        step > 0,
    ensures
        ({
            let s = tick_positions(step, lo, hi);
            let n = tick_count(step, hi) as int;
            let m = tick_count(step, -lo) as int;
            &&& s.len() == n + m
            &&& hi > 0 <==> n > 0
            &&& lo < 0 <==> m > 0
            &&& n > 0 ==> s[0] == 0
            &&& m > 0 ==> s[n] == 0
            &&& hi > 0 || lo < 0 ==> s.contains(0)
            &&& forall|i: int| 0 <= i < n + m && #[trigger] s[i] == 0 ==> i == 0 || i == n
        }),
{
    let s = tick_positions(step, lo, hi);
    let n = tick_count(step, hi) as int;
    let m = tick_count(step, -lo) as int;
    lemma_count_stops(step, hi);
    lemma_count_stops(step, -lo);
    assert(0 * step == 0);
    if hi > 0 {
        assert(s[0] == 0);
    } else if lo < 0 {
        assert(s[n] == 0);
    }
    assert forall|i: int| 0 <= i < n + m && #[trigger] s[i] == 0 implies i == 0 || i == n by {
        if 0 < i < n {
            lemma_mul_strict_inequality(0, i, step);
        } else if i > n {
            lemma_mul_strict_inequality(0, i - n, step);
        }
    }
}

/// The positions of the ticks between `lo` and `hi`, `increment` apart.
pub fn ticks_between(increment: Increment, lo: i32, hi: i32) -> (positions: Vec<i32>)
    ensures
        ints(positions@) == tick_positions(increment@, lo as int, hi as int),
{
    let step: i64 = increment.get() as i64;
    let mut positions: Vec<i32> = Vec::new();
    let mut pos: i64 = 0;
    assert(positions@.len() * step == 0);
    while pos < hi as i64
        invariant
            step == increment@,
            0 < step <= i32::MAX,
            pos == positions@.len() * step,
            positions@.len() > 0 ==> (positions@.len() - 1) * step < hi,
            forall|j: int| 0 <= j < positions@.len() ==> positions@[j] as int == j * step,
        decreases hi + step - pos,
    {
        proof {
            lemma_mul_nonnegative(positions@.len() as int, step as int);
            assert((positions@.len() + 1) * step == positions@.len() * step + step)
                by (nonlinear_arith);
        }
        positions.push(pos as i32);
        pos = pos + step;
    }
    let ghost n = positions@.len() as int;
    proof {
        lemma_count_is(step as int, hi as int, n);
    }
    let bound: i64 = -(lo as i64);
    let mut pos: i64 = 0;
    while pos < bound
        invariant
            step == increment@,
            0 < step <= i32::MAX,
            bound == -lo,
            n == tick_count(step as int, hi as int),
            n <= positions@.len(),
            pos == (positions@.len() - n) * step,
            positions@.len() > n ==> (positions@.len() - n - 1) * step < bound,
            forall|j: int| 0 <= j < n ==> positions@[j] as int == j * step,
            forall|j: int| n <= j < positions@.len() ==> positions@[j] as int == -((j - n) * step),
        decreases bound + step - pos,
    {
        proof {
            lemma_mul_nonnegative(positions@.len() - n, step as int);
            assert((positions@.len() - n + 1) * step == (positions@.len() - n) * step + step)
                by (nonlinear_arith);
        }
        positions.push((-pos) as i32);
        pos = pos + step;
    }
    proof {
        lemma_count_is(step as int, bound as int, positions@.len() - n);
        assert(ints(positions@) =~= tick_positions(increment@, lo as int, hi as int));
    }
    positions
}

/// Drawable ticks along the x axis.
#[derive(Clone, Copy, Debug, PartialEq, Eq)]
pub struct Xticks {
    /// The distance between two ticks.
    pub increment: Increment,
    /// The y coordinate that the ticks are centred on, in whole units.
    pub y_pos: i32,
    /// The length of a tick, in whole units.
    pub ticksize: i32,
    /// The thickness of a tick, in whole units.
    pub tickwidth: i32,
    /// The colour of the ticks.
    pub color: ColorRGB,
}

impl Default for Xticks {
    fn default() -> (ticks: Xticks)
        ensures
            ticks.increment@ == 10,
            ticks.y_pos == 0,
            ticks.ticksize == 5,
            ticks.tickwidth == 1,
            ticks.color == ColorRGB::black(),
    {
        Xticks {
            increment: Increment { value: 10 },
            y_pos: 0,
            ticksize: 5,
            tickwidth: 1,
            color: ColorRGB::black(),
        }
    }
}

impl Xticks {
    /// The x coordinates of the ticks in `win`, in whole units.
    pub open spec fn spec_positions(&self, win: RectView) -> Seq<int> {
        tick_positions(self.increment@, win.left(), win.right())
    }

    /// The tick at `x`: an upright stroke from half of `ticksize` below
    /// `y_pos` to half of `ticksize` above it. In half units that is
    /// `ticksize` below and above twice `y_pos`.
    pub open spec fn spec_tick(&self, x: int) -> CommandView {
        CommandView::Line(
            LineView {
                start: (units(x), units(self.y_pos as int) - self.ticksize),
                end: (units(x), units(self.y_pos as int) + self.ticksize),
                weight: units(self.tickwidth as int),
                color: self.color,
            },
        )
    }

    /// What [`Xticks::draw`] returns for `win`: one tick for each position,
    /// in the order of the positions.
    pub open spec fn spec_draw(&self, win: RectView) -> Seq<CommandView> {
        self.spec_positions(win).map_values(|x: int| self.spec_tick(x))
    }

    /// The x coordinates of the ticks in `win`: from zero to the right edge,
    /// then from zero to the left edge.
    pub fn positions(&self, win: &Rect) -> (positions: Vec<i32>)
        ensures
            ints(positions@) == self.spec_positions(win@),
    {
        ticks_between(self.increment, win.left(), win.right())
    }

    /// Lays the ticks of the x axis out in `win`.
    pub fn draw(&self, win: &Rect) -> (commands: Vec<Command>)
        ensures
            views(commands@) == self.spec_draw(win@),
    {
        let positions = self.positions(win);
        let low = Scalar { halves: 2 * (self.y_pos as i64) - self.ticksize as i64 };
        let high = Scalar { halves: 2 * (self.y_pos as i64) + self.ticksize as i64 };
        let weight = Scalar::from_units(self.tickwidth);
        let mut commands: Vec<Command> = Vec::new();
        let mut i: usize = 0;
        while i < positions.len()
            invariant
                i <= positions.len(),
                commands@.len() == i,
                low@ == units(self.y_pos as int) - self.ticksize,
                high@ == units(self.y_pos as int) + self.ticksize,
                weight@ == units(self.tickwidth as int),
                forall|j: int| 0 <= j < i ==> commands@[j]@ == self.spec_tick(positions@[j] as int),
            decreases positions.len() - i,
        {
            let x = Scalar::from_units(positions[i]);
            commands.push(
                Command::Line(
                    Line {
                        start: Point2D { x, y: low },
                        end: Point2D { x, y: high },
                        weight,
                        color: self.color,
                    },
                ),
            );
            i += 1;
        }
        assert(views(commands@) =~= self.spec_draw(win@)) by {
            assert(ints(positions@).len() == positions@.len());
            assert forall|j: int| 0 <= j < positions@.len() implies ints(positions@)[j]
                == positions@[j] as int by {}
        }
        commands
    }
}

/// Drawable ticks along the y axis.
#[derive(Clone, Copy, Debug, PartialEq, Eq)]
pub struct Yticks {
    /// The distance between two ticks.
    pub increment: Increment,
    /// The x coordinate that the ticks are centred on, in whole units.
    pub x_pos: i32,
    /// The length of a tick, in whole units.
    pub ticksize: i32,
    /// The thickness of a tick, in whole units.
    pub tickwidth: i32,
    /// The colour of the ticks.
    pub color: ColorRGB,
}

impl Default for Yticks {
    fn default() -> (ticks: Yticks)
        ensures
            ticks.increment@ == 10,
            ticks.x_pos == 0,
            ticks.ticksize == 5,
            ticks.tickwidth == 1,
            ticks.color == ColorRGB::black(),
    {
        Yticks {
            increment: Increment { value: 10 },
            x_pos: 0,
            ticksize: 5,
            tickwidth: 1,
            color: ColorRGB::black(),
        }
    }
}

impl Yticks {
    /// The y coordinates of the ticks in `win`, in whole units.
    pub open spec fn spec_positions(&self, win: RectView) -> Seq<int> {
        tick_positions(self.increment@, win.bottom(), win.top())
    }

    /// The tick at `y`: a level stroke from half of `ticksize` left of
    /// `x_pos` to half of `ticksize` right of it. In half units that is
    /// `ticksize` left and right of twice `x_pos`.
    pub open spec fn spec_tick(&self, y: int) -> CommandView {
        CommandView::Line(
            LineView {
                start: (units(self.x_pos as int) - self.ticksize, units(y)),
                end: (units(self.x_pos as int) + self.ticksize, units(y)),
                weight: units(self.tickwidth as int),
                color: self.color,
            },
        )
    }

    /// What [`Yticks::draw`] returns for `win`: one tick for each position,
    /// in the order of the positions.
    pub open spec fn spec_draw(&self, win: RectView) -> Seq<CommandView> {
        self.spec_positions(win).map_values(|y: int| self.spec_tick(y))
    }

    /// The y coordinates of the ticks in `win`: from zero to the top edge,
    /// then from zero to the bottom edge.
    pub fn positions(&self, win: &Rect) -> (positions: Vec<i32>)
        ensures
            ints(positions@) == self.spec_positions(win@),
    {
        ticks_between(self.increment, win.bottom(), win.top())
    }

    /// Lays the ticks of the y axis out in `win`.
    pub fn draw(&self, win: &Rect) -> (commands: Vec<Command>)
        ensures
            views(commands@) == self.spec_draw(win@),
    {
        let positions = self.positions(win);
        let low = Scalar { halves: 2 * (self.x_pos as i64) - self.ticksize as i64 };
        let high = Scalar { halves: 2 * (self.x_pos as i64) + self.ticksize as i64 };
        let weight = Scalar::from_units(self.tickwidth);
        let mut commands: Vec<Command> = Vec::new();
        let mut i: usize = 0;
        while i < positions.len()
            invariant
                i <= positions.len(),
                commands@.len() == i,
                low@ == units(self.x_pos as int) - self.ticksize,
                high@ == units(self.x_pos as int) + self.ticksize,
                weight@ == units(self.tickwidth as int),
                forall|j: int| 0 <= j < i ==> commands@[j]@ == self.spec_tick(positions@[j] as int),
            decreases positions.len() - i,
        {
            let y = Scalar::from_units(positions[i]);
            commands.push(
                Command::Line(
                    Line {
                        start: Point2D { x: low, y },
                        end: Point2D { x: high, y },
                        weight,
                        color: self.color,
                    },
                ),
            );
            i += 1;
        }
        assert(views(commands@) =~= self.spec_draw(win@)) by {
            assert(ints(positions@).len() == positions@.len());
            assert forall|j: int| 0 <= j < positions@.len() implies ints(positions@)[j]
                == positions@[j] as int by {}
        }
        commands
    }
}

/// Drawing the ticks of the x axis again gives the same commands.
///
/// Two sequences of commands that [`Xticks::draw`] may return for one style
/// and one viewport are equally long and agree, command by command, in
/// every number and colour that a command holds.
pub proof fn lemma_xticks_redraw(
    ticks: Xticks,
    win: Rect,
    first: Seq<Command>,
    second: Seq<Command>,
)
    requires
        views(first) == ticks.spec_draw(win@),
        views(second) == ticks.spec_draw(win@),
    ensures
        first.len() == second.len(),
        forall|i: int| 0 <= i < first.len() ==> (#[trigger] first[i])@ == second[i]@,
{
    assert(views(first).len() == first.len());
    assert(views(second).len() == second.len());
    assert forall|i: int| 0 <= i < first.len() implies (#[trigger] first[i])@ == second[i]@ by {
        assert(views(first)[i] == first[i]@);
        assert(views(second)[i] == second[i]@);
    }
}

/// Drawing the ticks of the y axis again gives the same commands.
///
/// Two sequences of commands that [`Yticks::draw`] may return for one style
/// and one viewport are equally long and agree, command by command, in
/// every number and colour that a command holds.
pub proof fn lemma_yticks_redraw(
    ticks: Yticks,
    win: Rect,
    first: Seq<Command>,
    second: Seq<Command>,
)
    requires
        views(first) == ticks.spec_draw(win@),
        views(second) == ticks.spec_draw(win@),
    ensures
        first.len() == second.len(),
        forall|i: int| 0 <= i < first.len() ==> (#[trigger] first[i])@ == second[i]@,
{
    assert(views(first).len() == first.len());
    assert(views(second).len() == second.len());
    assert forall|i: int| 0 <= i < first.len() implies (#[trigger] first[i])@ == second[i]@ by {
        assert(views(first)[i] == first[i]@);
        assert(views(second)[i] == second[i]@);
    }
}

} // verus!
