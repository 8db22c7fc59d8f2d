//! Mathematical model of the Tarai function, shared by all evaluators.
//!
//! The recursive definition is: if `x <= y` the value is `y`; otherwise the
//! value is obtained by recursing on three recursively computed sub-results.
//! That definition admits a closed form, which serves as the specification
//! here because it needs no termination argument of its own:
//! `y` when `x <= y`, otherwise `z` when `y <= z`, otherwise `x`.
//! `lemma_tarai_recursive_step` proves that the closed form satisfies the
//! recursive definition, and the termination measure below bounds the
//! recursion of every executable evaluator.

use vstd::prelude::*;

verus! {

/// The Tarai function, in closed form.
pub open spec fn tarai(x: int, y: int, z: int) -> int {
    if x <= y {
        y
    } else if y <= z {
        z
    } else {
        x
    }
}

/// Base case of the recursive definition: whenever `x <= y`, the value is `y`,
/// whatever `z` is.
pub proof fn lemma_tarai_base(x: int, y: int, z: int)
    requires
        x <= y,
    ensures
        tarai(x, y, z) == y,
{
}

/// Recursive step of the definition: whenever `x > y`, the value equals the
/// value of the function on the three recursively computed sub-results.
/// Together with `lemma_tarai_base` this shows that `tarai` is the function
/// the recursive definition describes.
pub proof fn lemma_tarai_recursive_step(x: int, y: int, z: int)
    requires
        x > y,
    ensures
        tarai(x, y, z) == tarai(tarai(x - 1, y, z), tarai(y - 1, z, x), tarai(z - 1, x, y)),
{
}

/// The recursive definition pins the function down completely: any function
/// that returns `y` at the base case and recurses on the three sub-results
/// otherwise agrees with `tarai` everywhere. Evaluators are free to choose
/// how much of the recursion tree they share or skip — whatever satisfies
/// the definition returns the same integers.
pub proof fn lemma_tarai_unique(g: spec_fn(int, int, int) -> int, x: int, y: int, z: int)
    requires
        forall|a: int, b: int, c: int| a <= b ==> #[trigger] g(a, b, c) == b,
        forall|a: int, b: int, c: int|
            a > b ==> #[trigger] g(a, b, c) == g(g(a - 1, b, c), g(b - 1, c, a), g(c - 1, a, b)),
    ensures
        g(x, y, z) == tarai(x, y, z),
    decreases rank_spread(x, y, z), rank_phase(x, y, z), rank_gap(x, y),
{
    if x > y {
        lemma_tarai_unique(g, x - 1, y, z);
        lemma_tarai_unique(g, y - 1, z, x);
        lemma_tarai_unique(g, z - 1, x, y);
        lemma_tarai_unique(g, tarai(x - 1, y, z), tarai(y - 1, z, x), tarai(z - 1, x, y));
    }
}

/// First component of the termination measure: the spread of the triple,
/// zero at the base case. Every recursive call keeps the minimum of the
/// triple fixed and never raises the maximum, so the spread never grows.
pub open spec fn rank_spread(x: int, y: int, z: int) -> int {
    if x <= y {
        0
    } else {
        let lo = if y <= z { y } else { z };
        let hi = if x >= z { x } else { z };
        hi - lo
    }
}

/// Second component of the termination measure: recursive calls that keep the
/// spread move from the phase where `y > z` to the phase where `y <= z`.
pub open spec fn rank_phase(x: int, y: int, z: int) -> int {
    if x <= y {
        0
    } else if y <= z {
        1
    } else {
        2
    }
}

/// Third component of the termination measure: within one phase at one
/// spread, the gap `x - y` shrinks by one at each recursive call.
pub open spec fn rank_gap(x: int, y: int) -> int {
    if x <= y {
        0
    } else {
        x - y
    }
}

} // verus!
