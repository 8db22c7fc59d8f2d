//! Call-by-need evaluator with a caching thunk.
//!
//! The third argument of the recursion travels as a [`Thunk`]: a deferred
//! integer that is forced only when a recursive step actually needs it, and
//! that caches its result the first time it is forced. In the base case the
//! thunk is never forced, so the work it stands for is skipped entirely.
//! A capturable zero-argument callable would serve the same contract; an
//! explicit pending/resolved cell is the verifiable idiom here.

use vstd::prelude::*;
use crate::model::{tarai, rank_spread, rank_phase, rank_gap};

verus! {

/// A deferred integer: either a pending recipe (the three arguments the
/// function still has to be evaluated on) or an already-resolved result.
/// An instance moves from `Pending` to `Resolved` at most once, the first
/// time it is forced, and never moves back.
pub enum Thunk {
    Pending { x: i32, y: i32, z: i32 },
    Resolved(i32),
}

impl Thunk {
    /// The integer this deferred value stands for.
    pub open spec fn val(self) -> int {
        match self {
            Thunk::Pending { x, y, z } => tarai(x as int, y as int, z as int),
            Thunk::Resolved(v) => v as int,
        }
    }

    /// A pending recipe qualifies for forcing only when its first argument
    /// does not exceed its second. The evaluator only ever defers such
    /// recipes, and forcing one is then a single base-case step.
    pub open spec fn forcible(self) -> bool {
        match self {
            Thunk::Pending { x, y, z } => x <= y,
            Thunk::Resolved(_) => true,
        }
    }

    /// Forces the thunk: resolves a pending recipe by evaluating the function
    /// on it, caches the result in place, and returns it. A thunk that is
    /// already resolved just hands its integer back.
    pub fn force(&mut self) -> (r: i32)
        requires
            old(self).forcible(),
        ensures
            r as int == old(self).val(),
            *final(self) == Thunk::Resolved(r),
        decreases 0int, 0int, 0int, 1int,
    {
        match *self {
            Thunk::Resolved(v) => v,
            Thunk::Pending { x, y, z } => {
                let v = tarai_with_thunk(x, y, Thunk::Resolved(z));
                *self = Thunk::Resolved(v);
                v
            },
        }
    }
}

/// Recursive helper: evaluates the Tarai function on `x`, `y` and the value
/// the thunk stands for. When `x <= y` it returns `y` at once and the thunk
/// is left untouched — whatever evaluating it would have cost, or done, is
/// skipped. Otherwise the thunk is forced exactly once and the recursion
/// defers its third sub-result as a fresh pending thunk.
pub fn tarai_with_thunk(x: i32, y: i32, th: Thunk) -> (r: i32)
    requires
        x > y ==> y > i32::MIN && th.val() > i32::MIN && th.forcible(),
    ensures
        r == tarai(x as int, y as int, th.val()),
    decreases
        rank_spread(x as int, y as int, th.val()),
        rank_phase(x as int, y as int, th.val()),
        rank_gap(x as int, y as int),
        (if x <= y { 0int } else { 2int }),
{
    if x <= y {
        y
    } else {
        let mut zt = th;
        let z = zt.force();
        let a = tarai_with_thunk(x - 1, y, Thunk::Resolved(z));
        let b = tarai_with_thunk(y - 1, z, Thunk::Resolved(x));
        let c = Thunk::Pending { x: z - 1, y: x, z: y };
        tarai_with_thunk(a, b, c)
    }
}

/// Evaluates the Tarai function by call-by-need recursion over a caching
/// thunk.
///
/// The bounds in `requires` only keep the internal subtractions of fixed-width
/// arithmetic from underflowing; the base case accepts every input.
pub fn tarai_lazy_closure(x: i32, y: i32, z: i32) -> (r: i32)
    requires
        x > y ==> y > i32::MIN && z > i32::MIN,
    ensures
        r == tarai(x as int, y as int, z as int),
{
    tarai_with_thunk(x, y, Thunk::Resolved(z))
}

} // verus!
