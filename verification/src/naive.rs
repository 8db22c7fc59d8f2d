//! Naive evaluator: the recursive definition written out directly, with
//! every sub-call evaluated eagerly whether or not its value is needed.

use vstd::prelude::*;
use crate::model::{tarai, rank_spread, rank_phase, rank_gap};

verus! {

/// Evaluates the Tarai function by naive eager recursion.
///
/// The bounds in `requires` only keep the internal subtractions of fixed-width
/// arithmetic from underflowing; the base case accepts every input.
pub fn tarai_naive(x: i32, y: i32, z: i32) -> (r: i32)
    requires
        x > y ==> y > i32::MIN && z > i32::MIN,
    ensures
        r == tarai(x as int, y as int, z as int),
    decreases
        rank_spread(x as int, y as int, z as int),
        rank_phase(x as int, y as int, z as int),
        rank_gap(x as int, y as int),
{
    if x <= y {
        y
    } else {
        let a = tarai_naive(x - 1, y, z);
        let b = tarai_naive(y - 1, z, x);
        let c = tarai_naive(z - 1, x, y);
        tarai_naive(a, b, c)
    }
}

} // verus!
