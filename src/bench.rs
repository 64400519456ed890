use vstd::prelude::*;

verus! {

/// Adds and takes away the square of each of `0 .. n` twice over; the
/// running total comes back to zero after every step.
fn square_churn(n: i64) -> (r: i64)
    requires
        0 <= n <= 200000000,
    ensures
        r == 0,
{
    let mut v: i64 = 0;
    let mut x: i64 = 0;
    while x < n
        invariant
            0 <= x <= n,
            n <= 200000000,
            v == 0,
        decreases n - x,
    {
        assert(x * x <= 200000000 * 200000000) by (nonlinear_arith)
            requires
                0 <= x <= 200000000,
        ;
        v += x * x;
        v -= x * x;
        v += x * x;
        v -= x * x;
        x += 1;
    }
    v
}

/// The longer of the two workloads of the profiling benchmark: two hundred
/// million rounds of square churn. Always zero.
pub fn a_first_fn() -> (r: i64)
    ensures
        r == 0,
{
    square_churn(200000000)
}

/// The shorter workload: half as many rounds. Always zero.
pub fn b_second_fn() -> (r: i64)
    ensures
        r == 0,
{
    square_churn(100000000)
}

} // verus!
