//! Memoized evaluator: the same recursion as the naive one, but every
//! recursive site first consults a cache keyed by the input triple, and every
//! freshly computed sub-result is inserted before it is reused. The cache is
//! created empty for each top-level call and discarded when it returns, so
//! calls share no state.
//!
//! The cache is a `HashMap` keyed by a single integer that packs the triple:
//! each component, shifted into `0 .. 2^32`, occupies its own 32-bit digit,
//! so the packing is injective. The cache's invariant is that every stored
//! value is the function's value on the triple its key packs.

use std::collections::HashMap;
use vstd::prelude::*;
use crate::model::{tarai, rank_spread, rank_phase, rank_gap};

verus! {

broadcast use vstd::std_specs::hash::group_hash_axioms;

/// Offset that shifts an `i32` into `0 .. 2^32`.
pub open spec fn digit_shift() -> int {
    0x8000_0000
}

/// One packed key per input triple: three base-2^32 digits.
pub open spec fn key_of(x: int, y: int, z: int) -> int {
    (x + digit_shift()) * 0x1_0000_0000_0000_0000 + (y + digit_shift()) * 0x1_0000_0000 + (z
        + digit_shift())
}

/// First component packed into a key.
pub open spec fn key_x(k: int) -> int {
    k / 0x1_0000_0000_0000_0000 - digit_shift()
}

/// Second component packed into a key.
pub open spec fn key_y(k: int) -> int {
    (k / 0x1_0000_0000) % 0x1_0000_0000 - digit_shift()
}

/// Third component packed into a key.
pub open spec fn key_z(k: int) -> int {
    k % 0x1_0000_0000 - digit_shift()
}

/// Packing a triple of `i32` values and unpacking it again is the identity.
proof fn lemma_key_roundtrip(x: int, y: int, z: int)
    requires
        i32::MIN <= x <= i32::MAX,
        i32::MIN <= y <= i32::MAX,
        i32::MIN <= z <= i32::MAX,
    ensures
        key_x(key_of(x, y, z)) == x,
        key_y(key_of(x, y, z)) == y,
        key_z(key_of(x, y, z)) == z,
{
    let a = x + digit_shift();
    let b = y + digit_shift();
    let c = z + digit_shift();
    let k = key_of(x, y, z);
    assert(k == (a * 0x1_0000_0000 + b) * 0x1_0000_0000 + c) by (nonlinear_arith)
        requires
            k == a * 0x1_0000_0000_0000_0000 + b * 0x1_0000_0000 + c,
    ;
    vstd::arithmetic::div_mod::lemma_fundamental_div_mod_converse(
        k,
        0x1_0000_0000,
        a * 0x1_0000_0000 + b,
        c,
    );
    vstd::arithmetic::div_mod::lemma_fundamental_div_mod_converse(
        a * 0x1_0000_0000 + b,
        0x1_0000_0000,
        a,
        b,
    );
    assert(b * 0x1_0000_0000 + c < 0x1_0000_0000_0000_0000) by (nonlinear_arith)
        requires
            0 <= b < 0x1_0000_0000 && 0 <= c < 0x1_0000_0000,
    ;
    vstd::arithmetic::div_mod::lemma_fundamental_div_mod_converse(
        k,
        0x1_0000_0000_0000_0000,
        a,
        b * 0x1_0000_0000 + c,
    );
}

/// The cache's invariant: every stored value is the function's value on the
/// triple its key packs.
pub open spec fn memo_wf(m: Map<u128, i32>) -> bool {
    forall|k: u128| #[trigger]
        m.contains_key(k) ==> m[k] as int == tarai(key_x(k as int), key_y(k as int), key_z(k as int))
}

/// Packs a triple into its cache key.
fn compute_key(x: i32, y: i32, z: i32) -> (k: u128)
    ensures
        k as int == key_of(x as int, y as int, z as int),
{
    let a: u128 = (x as i64 + 0x8000_0000) as u128;
    let b: u128 = (y as i64 + 0x8000_0000) as u128;
    let c: u128 = (z as i64 + 0x8000_0000) as u128;
    a * 0x1_0000_0000_0000_0000 + b * 0x1_0000_0000 + c
}

/// Looks the triple up in the cache and returns the stored value, or
/// computes it recursively and stores it before returning. Applied uniformly
/// at every recursive site, so a triple that recurs anywhere in the recursion
/// tree is computed at most once per top-level call.
fn lookup_or_compute(x: i32, y: i32, z: i32, memo: &mut HashMap<u128, i32>) -> (r: i32)
    requires
        x > y ==> y > i32::MIN && z > i32::MIN,
        memo_wf(old(memo)@),
    ensures
        memo_wf(final(memo)@),
        r == tarai(x as int, y as int, z as int),
    decreases
        rank_spread(x as int, y as int, z as int),
        rank_phase(x as int, y as int, z as int),
        rank_gap(x as int, y as int),
        1int,
{
    let key = compute_key(x, y, z);
    proof {
        lemma_key_roundtrip(x as int, y as int, z as int);
    }
    if let Some(v) = memo.get(&key) {
        *v
    } else {
        let v = tarai_memo_rec(x, y, z, memo);
        memo.insert(key, v);
        v
    }
}

/// Recursive helper: the naive recursion with the cache consulted before and
/// filled after every recursive sub-call, the final combining call included.
fn tarai_memo_rec(x: i32, y: i32, z: i32, memo: &mut HashMap<u128, i32>) -> (r: i32)
    requires
        x > y ==> y > i32::MIN && z > i32::MIN,
        memo_wf(old(memo)@),
    ensures
        memo_wf(final(memo)@),
        r == tarai(x as int, y as int, z as int),
    decreases
        rank_spread(x as int, y as int, z as int),
        rank_phase(x as int, y as int, z as int),
        rank_gap(x as int, y as int),
        0int,
{
    let key = compute_key(x, y, z);
    proof {
        lemma_key_roundtrip(x as int, y as int, z as int);
    }
    if let Some(v) = memo.get(&key) {
        return *v;
    }
    if x <= y {
        y
    } else {
        let a = lookup_or_compute(x - 1, y, z, memo);
        let b = lookup_or_compute(y - 1, z, x, memo);
        let c = lookup_or_compute(z - 1, x, y, memo);
        lookup_or_compute(a, b, c, memo)
    }
}

/// Evaluates the Tarai function by memoized recursion. A fresh, empty cache
/// is created for this call alone and dropped when it returns, so repeated
/// calls are independent.
///
/// The bounds in `requires` only keep the internal subtractions of fixed-width
/// arithmetic from underflowing; the base case accepts every input.
pub fn tarai_memo(x: i32, y: i32, z: i32) -> (r: i32)
    requires
        x > y ==> y > i32::MIN && z > i32::MIN,
    ensures
        r == tarai(x as int, y as int, z as int),
{
    let mut memo: HashMap<u128, i32> = HashMap::new();
    tarai_memo_rec(x, y, z, &mut memo)
}

} // verus!
