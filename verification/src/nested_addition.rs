use vstd::prelude::*;

verus! {

/// The addition rule: applied to two operands it yields their sum.
pub open spec fn add_rule(a: int, b: int) -> int {
    a + b
}

/// Nested application of the addition rule to a base operand: the inner
/// application doubles the operand, the outer application adds one.
pub open spec fn nested_add_value(x: int) -> int {
    add_rule(add_rule(x, x), 1)
}

/// Evaluation is deterministic: any two results that equal the nested
/// addition for the same base operand are equal to each other, so repeated
/// runs of the computation cannot disagree.
pub proof fn lemma_nested_add_deterministic(x: int, r1: int, r2: int)
    requires
        r1 == nested_add_value(x),
        r2 == nested_add_value(x),
    ensures
        r1 == r2,
{
}

/// Applies the addition rule in nested form to the base operand: first to the
/// operand and itself, then to that result and one.
pub fn nested_add(x: i32) -> (r: i32)
    requires
        i32::MIN <= x as int + x as int,
        x as int + x as int + 1 <= i32::MAX,
    ensures
        r as int == nested_add_value(x as int),
{
    let doubled: i32 = x + x;
    doubled + 1
}

/// Applies the addition rule in nested form to the fixed base operand 4 and
/// discards the computed value, which is 9.
pub fn recursive_expand() {
    let x: i32 = 4;
    let _unused: i32 = nested_add(x);
}

} // verus!
