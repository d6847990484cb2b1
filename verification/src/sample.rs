//! Sampling a function at whole positions along the x axis.

use vstd::prelude::*;

verus! {

/// The first position at which the curve is sampled.
pub const DOMAIN_START: i32 = -400;

/// The position at which the sampling stops; it is not sampled itself.
pub const DOMAIN_END: i32 = 400;

/// The thickness of the curve, in whole units.
pub const CURVE_WEIGHT: i32 = 2;

/// Evaluates `f` at every whole position from `start` up to, but not
/// including, `end`, in rising order, and pairs each position with its value.
pub fn sample_between<T, F: Fn(i32) -> T>(start: i32, end: i32, f: F) -> (points: Vec<(i32, T)>)
    requires
        forall|x: i32| start <= x < end ==> call_requires(f, (x,)),
    ensures
        points@.len() == if start <= end {
            end - start
        } else {
            0
        },
        forall|i: int| 0 <= i < points@.len() ==> (#[trigger] points@[i]).0 == start + i,
        forall|i: int|
            0 <= i < points@.len() ==> call_ensures(f, (points@[i].0,), (#[trigger] points@[i]).1),
{
    let mut points: Vec<(i32, T)> = Vec::new();
    let mut x: i32 = start;
    while x < end
        invariant
            forall|x: i32| start <= x < end ==> call_requires(f, (x,)),
            start <= x,
            x <= end || x == start,
            points@.len() == x - start,
            forall|i: int| 0 <= i < points@.len() ==> (#[trigger] points@[i]).0 == start + i,
            forall|i: int|
                0 <= i < points@.len() ==> call_ensures(
                    f,
                    (points@[i].0,),
                    (#[trigger] points@[i]).1,
                ),
        decreases end - x,
    {
        let y = f(x);
        points.push((x, y));
        x = x + 1;
    }
    points
}

/// Evaluates `f` at the 800 whole positions from [`DOMAIN_START`] up to, but
/// not including, [`DOMAIN_END`]: point `i` lies at `DOMAIN_START + i` and
/// holds what `f` gave there.
pub fn sample<T, F: Fn(i32) -> T>(f: F) -> (points: Vec<(i32, T)>)
    requires
        forall|x: i32| DOMAIN_START <= x < DOMAIN_END ==> call_requires(f, (x,)),
    ensures
        points@.len() == 800,
        forall|i: int| 0 <= i < 800 ==> (#[trigger] points@[i]).0 == -400 + i,
        forall|i: int|
            0 <= i < 800 ==> call_ensures(f, (points@[i].0,), (#[trigger] points@[i]).1),
{
    sample_between(DOMAIN_START, DOMAIN_END, f)
}

} // verus!
