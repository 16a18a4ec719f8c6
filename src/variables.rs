//! Bindings: mutability, shadowing and destructuring.
use vstd::prelude::*;

verus! {

/// Declares a mutable binding, then assigns to it in place.
/// Returns the value seen before the assignment and the value seen after it.
pub fn variable_attribute() -> (r: (i32, i32))
    ensures
        r == (5i32, 6i32),
{
    let mut x: i32 = 5;
    let before = x;
    x = 6;
    (before, x)
}

/// Binds `x`, shadows it with `x + 1` in the function's scope, and shadows
/// that again with twice its value in an inner block.
/// Returns the value seen inside the block and the value seen after it.
pub fn variable_shadowing() -> (r: (i32, i32))
    ensures
        r.0 == 2 * r.1,
        r.1 == 5 + 1,
        r == (12i32, 6i32),
{
    let x: i32 = 5;
    let x = x + 1;
    let inner = {
        let x = x * 2;
        x
    };
    (inner, x)
}

/// A record with one field, taken apart by a struct pattern.
#[derive(Clone, Copy, Debug, PartialEq, Eq, Structural)]
pub struct Record {
    pub e: i32,
}

/// Binds values by taking composite values apart: a tuple pattern; from the
/// array `[1, 2, 3, 4, 5]` its first element and its second-to-last, skipping
/// the middle and ignoring the last; and a struct pattern that keeps one field.
/// Returns the five bindings in order.
pub fn deconstruction_assignment() -> (r: [i32; 5])
    ensures
        r@ == seq![1i32, 2, 1, 4, 5],
{
    let (a, b): (i32, i32) = (1, 2);
    // the pattern `[c, .., d, _]`: the first element and the second-to-last
    let arr: [i32; 5] = [1, 2, 3, 4, 5];
    let c = arr[0];
    let d = arr[arr.len() - 2];
    let Record { e, .. } = Record { e: 5 };
    let r = [a, b, c, d, e];
    assert(r@ =~= seq![1i32, 2, 1, 4, 5]);
    r
}

/// Destructures a tuple into an immutable and a mutable binding, then assigns
/// to the mutable one so that both hold `true`.
pub fn variable_deconstruction() -> (r: (bool, bool))
    ensures
        r.0 == r.1,
        r == (true, true),
{
    let (a, mut b): (bool, bool) = (true, false);
    b = true;
    assert(a == b);
    (a, b)
}

/// Binds two values that are never read; the leading underscore marks them
/// as deliberately unused.
pub fn variable_not_used() {
    let _x: i32 = 5;
    let _y: i32 = 6;
}

} // verus!
