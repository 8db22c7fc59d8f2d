//! The fixed scenarios of the four evaluators, their agreement over a sweep
//! of inputs, their independence across repeated calls, and the laziness of
//! the two call-by-need variants.

use tarai::lazy_closure::Thunk;
use tarai::lazy_closure::tarai_with_thunk;
use tarai::lazy_enum::Deferred;
use tarai::lazy_enum::tarai_with_deferred;
use tarai::{tarai_lazy_closure, tarai_lazy_enum, tarai_memo, tarai_naive};

#[test]
fn naive_scenarios() {
    assert_eq!(tarai_naive(10, 5, 0), 10);
    assert_eq!(tarai_naive(12, 6, 0), 12);
    assert_eq!(tarai_naive(5, 5, 5), 5);
    assert_eq!(tarai_naive(1, 2, 3), 2);
}

#[test]
fn memo_scenarios() {
    assert_eq!(tarai_memo(10, 5, 0), 10);
    assert_eq!(tarai_memo(12, 6, 0), 12);
    assert_eq!(tarai_memo(5, 5, 5), 5);
    assert_eq!(tarai_memo(1, 2, 3), 2);
}

#[test]
fn lazy_closure_scenarios() {
    assert_eq!(tarai_lazy_closure(10, 5, 0), 10);
    assert_eq!(tarai_lazy_closure(12, 6, 0), 12);
    assert_eq!(tarai_lazy_closure(5, 5, 5), 5);
    assert_eq!(tarai_lazy_closure(1, 2, 3), 2);
}

#[test]
fn lazy_enum_scenarios() {
    assert_eq!(tarai_lazy_enum(10, 5, 0), 10);
    assert_eq!(tarai_lazy_enum(12, 6, 0), 12);
    assert_eq!(tarai_lazy_enum(5, 5, 5), 5);
    assert_eq!(tarai_lazy_enum(1, 2, 3), 2);
}

/// The closed form the contracts are stated against.
fn closed_form(x: i32, y: i32, z: i32) -> i32 {
    if x <= y {
        y
    } else if y <= z {
        z
    } else {
        x
    }
}

#[test]
fn all_variants_agree_on_a_sweep() {
    for x in -3..=6 {
        for y in -3..=6 {
            for z in -3..=6 {
                let expected = closed_form(x, y, z);
                assert_eq!(tarai_naive(x, y, z), expected);
                assert_eq!(tarai_memo(x, y, z), expected);
                assert_eq!(tarai_lazy_closure(x, y, z), expected);
                assert_eq!(tarai_lazy_enum(x, y, z), expected);
            }
        }
    }
}

#[test]
fn all_variants_agree_on_the_benchmark_inputs() {
    for &(x, y, z) in &[(10, 5, 0), (12, 6, 0), (9, 3, -4), (-1, -5, -9)] {
        let n = tarai_naive(x, y, z);
        assert_eq!(tarai_memo(x, y, z), n);
        assert_eq!(tarai_lazy_closure(x, y, z), n);
        assert_eq!(tarai_lazy_enum(x, y, z), n);
    }
}

#[test]
fn base_case_ignores_z() {
    for z in [-1000, -1, 0, 7, i32::MIN, i32::MAX] {
        assert_eq!(tarai_naive(3, 3, z), 3);
        assert_eq!(tarai_memo(-4, 10, z), 10);
        assert_eq!(tarai_lazy_closure(0, 0, z), 0);
        assert_eq!(tarai_lazy_enum(i32::MIN, i32::MIN, z), i32::MIN);
    }
}

#[test]
fn extreme_inputs() {
    assert_eq!(tarai_naive(i32::MAX, i32::MAX, i32::MIN), i32::MAX);
    assert_eq!(tarai_memo(i32::MIN, i32::MIN, i32::MIN), i32::MIN);
    assert_eq!(tarai_memo(i32::MIN + 2, i32::MIN + 1, i32::MIN + 1), i32::MIN + 1);
    assert_eq!(tarai_lazy_enum(i32::MIN + 2, i32::MIN + 1, i32::MIN + 1), i32::MIN + 1);
    // A huge third argument names a mountain of eager work; the call-by-need
    // variants never force it on these inputs and answer at once.
    assert_eq!(tarai_lazy_enum(3, 2, i32::MAX), i32::MAX);
    assert_eq!(tarai_lazy_closure(4, 2, i32::MAX - 1), i32::MAX - 1);
}

#[test]
fn repeated_calls_yield_the_same_result() {
    let first = (
        tarai_naive(12, 6, 0),
        tarai_memo(12, 6, 0),
        tarai_lazy_closure(12, 6, 0),
        tarai_lazy_enum(12, 6, 0),
    );
    // Unrelated calls in between must not disturb anything: each evaluator
    // owns whatever auxiliary state it allocates.
    tarai_memo(9, 3, -4);
    tarai_lazy_closure(9, 3, -4);
    tarai_lazy_enum(9, 3, -4);
    let second = (
        tarai_naive(12, 6, 0),
        tarai_memo(12, 6, 0),
        tarai_lazy_closure(12, 6, 0),
        tarai_lazy_enum(12, 6, 0),
    );
    assert_eq!(first, second);
    assert_eq!(first.0, 12);
}

// A pending recipe on these arguments is a fault sentinel: evaluating it
// would underflow `i32` (a panic in a build with overflow checks). The base
// case must return without ever forcing it.
const FAULT_X: i32 = 0;
const FAULT_Y: i32 = i32::MIN;
const FAULT_Z: i32 = 0;

#[test]
fn thunk_is_not_forced_in_the_base_case() {
    let sentinel = Thunk::Pending { x: FAULT_X, y: FAULT_Y, z: FAULT_Z };
    assert_eq!(tarai_with_thunk(1, 2, sentinel), 2);
    let sentinel = Thunk::Pending { x: FAULT_X, y: FAULT_Y, z: FAULT_Z };
    assert_eq!(tarai_with_thunk(-5, -5, sentinel), -5);
}

#[test]
fn deferred_is_not_forced_in_the_base_case() {
    let sentinel = Deferred::Pending { x: FAULT_X, y: FAULT_Y, z: FAULT_Z };
    assert_eq!(tarai_with_deferred(1, 2, sentinel), 2);
    let sentinel = Deferred::Pending { x: FAULT_X, y: FAULT_Y, z: FAULT_Z };
    assert_eq!(tarai_with_deferred(-5, -5, sentinel), -5);
}

#[test]
fn forcing_a_thunk_resolves_it_once() {
    let mut th = Thunk::Pending { x: 1, y: 2, z: 3 };
    assert_eq!(th.force(), 2);
    // Resolved is terminal: forcing again yields the cached integer.
    assert!(matches!(th, Thunk::Resolved(2)));
    assert_eq!(th.force(), 2);

    let mut resolved = Thunk::Resolved(7);
    assert_eq!(resolved.force(), 7);
    assert!(matches!(resolved, Thunk::Resolved(7)));
}

#[test]
fn forcing_a_deferred_value() {
    let pending = Deferred::Pending { x: 1, y: 2, z: 3 };
    assert_eq!(pending.eval(), 2);
    let resolved = Deferred::Resolved(7);
    assert_eq!(resolved.eval(), 7);
}

#[test]
fn helpers_match_the_entry_points() {
    assert_eq!(tarai_with_thunk(10, 5, Thunk::Resolved(0)), 10);
    assert_eq!(tarai_with_deferred(10, 5, Deferred::Resolved(0)), 10);
}
