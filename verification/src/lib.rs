//! Two small pure functions over `i32`: a sign-dependent combiner
//! (`calculate`) and a conditional accumulator (`func`).
//!
//! Both are total over the inputs on which the `i32` arithmetic cannot
//! overflow; the `requires` clauses state exactly those bounds, so the
//! verified functions never panic.

use vstd::prelude::*;

verus! {

/// The magnitude of `v`: `v` itself when non-negative, `-v` otherwise.
pub open spec fn abs_of(v: int) -> int {
    if v >= 0 {
        v
    } else {
        -v
    }
}

/// The working value after the first step of `func`: when `a < 9` and
/// `b == 5`, the value is reassigned to `x * a + b`; otherwise it stays `x`.
pub open spec fn step_one(a: int, b: int, x: int) -> int {
    if a < 9 && b == 5 {
        x * a + b
    } else {
        x
    }
}

/// The value `func` returns: the first step's result, incremented once
/// more when `a > 2` or that result exceeds `6`.
pub open spec fn accumulated(a: int, b: int, x: int) -> int {
    let stepped = step_one(a, b, x);
    if a > 2 || stepped > 6 {
        stepped + 1
    } else {
        stepped
    }
}

/// The magnitude of `v` as an `i32`.
fn magnitude(v: i32) -> (r: i32)
    requires
        abs_of(v as int) <= i32::MAX as int,
    ensures
        r == abs_of(v as int),
{
    if v >= 0 {
        v
    } else {
        -v
    }
}

/// Combines `x` and `y` by the sign of each: each strictly positive
/// argument is added as it is, each non-positive one is negated first,
/// so the result is always `|x| + |y|`.
pub fn calculate(x: i32, y: i32) -> (result: i32)
    requires
        abs_of(x as int) + abs_of(y as int) <= i32::MAX as int,
    ensures
        result == abs_of(x as int) + abs_of(y as int),
        x > 0 && y > 0 ==> result == x + y,
        x > 0 && y <= 0 ==> result == x - y,
        x <= 0 && y > 0 ==> result == -x + y,
        x <= 0 && y <= 0 ==> result == -x - y,
{
    magnitude(x) + magnitude(y)
}

/// Applies up to two conditional reassignments to the working value `x`:
/// first `x := x * a + b` when `a < 9` and `b == 5`, then `x := x + 1`
/// when `a > 2` or the (possibly updated) `x` exceeds `6`.
pub fn func(a: i32, b: i32, x: i32) -> (result: i32)
    requires
        a < 9 && b == 5 ==> i32::MIN <= x as int * a as int && x as int * a as int
            + b as int <= i32::MAX,
        accumulated(a as int, b as int, x as int) <= i32::MAX as int,
    ensures
        result == accumulated(a as int, b as int, x as int),
{
    let mut x: i32 = x;
    if a < 9 && b == 5 {
        x = x * a + b;
    }
    if a > 2 || x > 6 {
        x = x + 1;
    }
    x
}

} // verus!
