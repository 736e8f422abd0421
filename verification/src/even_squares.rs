use vstd::prelude::*;

verus! {

/// The square of an integer.
pub open spec fn square(n: int) -> int {
    n * n
}

/// Whether an integer is divisible by two with zero remainder.
pub open spec fn is_even(n: int) -> bool {
    n % 2 == 0
}

/// Sum of the squares of the even integers in the half-open range [0, n).
pub open spec fn even_square_sum(n: int) -> int
    decreases n,
{
    if n <= 0 {
        0
    } else {
        even_square_sum(n - 1) + (if is_even(n - 1) { square(n - 1) } else { 0 })
    }
}

/// The members of the half-open range [0, bound) retained by the evenness
/// filter.
pub open spec fn filtered_evens(bound: int) -> Set<int> {
    Set::new(|n: int| 0 <= n < bound && is_even(n))
}

/// An integer of the fixed range [0, 10) belongs to the filtered set exactly
/// when it is divisible by two with zero remainder.
pub proof fn lemma_filtered_evens_membership(n: int)
    requires
        0 <= n < 10,
    ensures
        filtered_evens(10).contains(n) <==> n % 2 == 0,
{
}

/// Each step of the sum adds a square or nothing, and a square is never
/// negative, so widening the range never decreases the sum.
pub proof fn lemma_even_square_sum_monotonic(a: int, b: int)
    requires
        a <= b,
    ensures
        even_square_sum(a) <= even_square_sum(b),
    decreases b - a,
{
    if a < b {
        lemma_even_square_sum_monotonic(a, b - 1);
        assert((b - 1) * (b - 1) >= 0) by (nonlinear_arith);
    }
}

/// The fixed range [0, 10) has the even members 0, 2, 4, 6 and 8; the sum of
/// their squares is 120.
pub proof fn lemma_even_square_sum_ten()
    ensures
        even_square_sum(10) == 120,
{
    reveal_with_fuel(even_square_sum, 11);
}

/// Within the fixed range the partial sums stay between 0 and 120.
proof fn lemma_even_square_sum_bounded(n: int)
    requires
        0 <= n <= 10,
    ensures
        0 <= even_square_sum(n) <= 120,
{
    lemma_even_square_sum_monotonic(0, n);
    lemma_even_square_sum_monotonic(n, 10);
    lemma_even_square_sum_ten();
}

/// Cross-check against a closed form: three times the sum of the squares of
/// the even integers below 2*m equals 2*(m-1)*m*(2*m-1), the familiar
/// sum-of-squares formula scaled by four for the even members.
pub proof fn lemma_even_square_sum_closed_form(m: nat)
    ensures
        3 * even_square_sum(2 * (m as int)) == 2 * (m - 1) * m * (2 * m - 1),
    decreases m,
{
    if m > 0 {
        lemma_even_square_sum_closed_form((m - 1) as nat);
        assert(even_square_sum(2 * (m as int)) == even_square_sum(2 * m - 1));
        assert(even_square_sum(2 * m - 1) == even_square_sum(2 * m - 2) + square(2 * m - 2));
        assert(2 * (m - 2) * (m - 1) * (2 * m - 3) + 3 * ((2 * m - 2) * (2 * m - 2)) == 2 * (m
            - 1) * m * (2 * m - 1)) by (nonlinear_arith);
    } else {
        assert(2 * (m - 1) * m * (2 * m - 1) == 0) by (nonlinear_arith)
            requires
                m == 0,
        ;
    }
}

/// Evaluation is deterministic: any two results that equal the sum for the
/// same bound are equal to each other, so repeated runs of the computation
/// cannot disagree.
pub proof fn lemma_even_square_sum_deterministic(n: int, r1: int, r2: int)
    requires
        r1 == even_square_sum(n),
        r2 == even_square_sum(n),
    ensures
        r1 == r2,
{
}

/// Walks the range [0, n), retains the even members, squares each and
/// accumulates the squares. The bound stays within the fixed range [0, 10)
/// that the computation is defined over.
pub fn even_square_sum_upto(n: u32) -> (r: i32)
    requires
        n <= 10,
    ensures
        r as int == even_square_sum(n as int),
{
    let mut sum: i32 = 0;
    let mut i: u32 = 0;
    while i < n
        invariant
            i <= n,
            n <= 10,
            sum as int == even_square_sum(i as int),
        decreases n - i,
    {
        if i % 2 == 0 {
            let v: i32 = i as i32;
            proof {
                lemma_even_square_sum_bounded(i as int + 1);
                assert(0 <= v * v && v * v <= 81) by (nonlinear_arith)
                    requires
                        0 <= v <= 9,
                ;
            }
            sum = sum + v * v;
        }
        i = i + 1;
    }
    sum
}

/// Sum of the squares of the even integers in the fixed range [0, 10): the
/// even members are 0, 2, 4, 6 and 8, and their squares add up to 120.
pub fn hover() -> (r: i32)
    ensures
        r as int == even_square_sum(10),
        r == 120,
{
    proof {
        lemma_even_square_sum_ten();
    }
    even_square_sum_upto(10)
}

} // verus!
