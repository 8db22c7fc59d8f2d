//! Call-by-need evaluator with an explicit two-state deferred value.
//!
//! The third argument of the recursion travels as a [`Deferred`]: a tagged
//! union that holds either the three raw arguments still to be evaluated or
//! an already-computed integer. The recursion forces it explicitly before
//! recursing; in the base case it is never forced, so the work it stands for
//! is skipped entirely. Unlike the caching thunk next door, a `Deferred` is
//! consumed by the force, so its resolution is not remembered anywhere.

use vstd::prelude::*;
use crate::model::{tarai, rank_spread, rank_phase, rank_gap};

verus! {

/// A deferred integer: either the three arguments the function still has to
/// be evaluated on, or an already-computed result.
pub enum Deferred {
    Pending { x: i32, y: i32, z: i32 },
    Resolved(i32),
}

impl Deferred {
    /// The integer this deferred value stands for.
    pub open spec fn val(self) -> int {
        match self {
            Deferred::Pending { x, y, z } => tarai(x as int, y as int, z as int),
            Deferred::Resolved(v) => v as int,
        }
    }

    /// A pending recipe qualifies for forcing only when its first argument
    /// does not exceed its second. The evaluator only ever defers such
    /// recipes, and forcing one is then a single base-case step.
    pub open spec fn forcible(self) -> bool {
        match self {
            Deferred::Pending { x, y, z } => x <= y,
            Deferred::Resolved(_) => true,
        }
    }

    /// Forces the deferred value, consuming it: a pending recipe is evaluated
    /// by the recursive helper, a resolved value yields its integer.
    pub fn eval(self) -> (r: i32)
        requires
            self.forcible(),
        ensures
            r as int == self.val(),
        decreases 0int, 0int, 0int, 1int,
    {
        match self {
            Deferred::Pending { x, y, z } => tarai_with_deferred(x, y, Deferred::Resolved(z)),
            Deferred::Resolved(v) => v,
        }
    }
}

/// Recursive helper: evaluates the Tarai function on `x`, `y` and the value
/// the deferred argument stands for. When `x <= y` it returns `y` at once and
/// the deferred value is dropped unforced — whatever evaluating it would have
/// cost, or done, is skipped. Otherwise the deferred value is forced exactly
/// once and the recursion defers its third sub-result as a fresh pending
/// value.
pub fn tarai_with_deferred(x: i32, y: i32, z: Deferred) -> (r: i32)
    requires
        x > y ==> y > i32::MIN && z.val() > i32::MIN && z.forcible(),
    ensures
        r == tarai(x as int, y as int, z.val()),
    decreases
        rank_spread(x as int, y as int, z.val()),
        rank_phase(x as int, y as int, z.val()),
        rank_gap(x as int, y as int),
        (if x <= y { 0int } else { 2int }),
{
    if x <= y {
        y
    } else {
        let zv = z.eval();
        let a = tarai_with_deferred(x - 1, y, Deferred::Resolved(zv));
        let b = tarai_with_deferred(y - 1, zv, Deferred::Resolved(x));
        let c = Deferred::Pending { x: zv - 1, y: x, z: y };
        tarai_with_deferred(a, b, c)
    }
}

/// Evaluates the Tarai function by call-by-need recursion over an explicit
/// two-state deferred value.
///
/// The bounds in `requires` only keep the internal subtractions of fixed-width
/// arithmetic from underflowing; the base case accepts every input.
pub fn tarai_lazy_enum(x: i32, y: i32, z: i32) -> (r: i32)
    requires
        x > y ==> y > i32::MIN && z > i32::MIN,
    ensures
        r == tarai(x as int, y as int, z as int),
{
    tarai_with_deferred(x, y, Deferred::Resolved(z))
}

} // verus!
