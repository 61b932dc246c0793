//! The relations in which the results of trades stand to what was asked for.

use vstd::prelude::*;

verus! {

/// Whether `m` is the smaller of two numbers.
pub open spec fn smaller_of(m: int, x: int, y: int) -> bool {
    &&& m <= x
    &&& m <= y
    &&& m == x || m == y
}

/// Whether `fee` is the share of `sol` that `bps` basis points make, rounded down.
pub open spec fn share_of(fee: int, sol: int, bps: int) -> bool {
    fee * 10_000 <= sol * bps < (fee + 1) * 10_000
}

/// Whether `t` is the least number that, multiplied by `n`, exceeds `k`.
pub open spec fn least_above(t: int, n: int, k: int) -> bool {
    n * (t - 1) <= k < n * t
}

/// Whether `s` is the greatest number that, multiplied by `n`, stays within `k`.
pub open spec fn greatest_within(s: int, n: int, k: int) -> bool {
    s * n <= k < (s + 1) * n
}

/// Whether `total` is `sum`, cut off at the greatest 64-bit number.
pub open spec fn cut_off(total: int, sum: int) -> bool {
    smaller_of(total, sum, 0xffff_ffff_ffff_ffff)
}

/// A number has at most one share at a given rate.
pub proof fn share_is_unique(f: int, g: int, sol: int, bps: int)
    requires
        share_of(f, sol, bps),
        share_of(g, sol, bps),
    ensures
        f == g,
{
}

/// At most one number is the least above, and at most one the greatest within.
pub proof fn reserve_is_unique(x: int, y: int, n: int, k: int)
    requires
        n > 0,
    ensures
        least_above(x, n, k) && least_above(y, n, k) ==> x == y,
        greatest_within(x, n, k) && greatest_within(y, n, k) ==> x == y,
{
    if least_above(x, n, k) && least_above(y, n, k) {
        assert(x == y) by (nonlinear_arith)
            requires
                n > 0,
                n * (x - 1) <= k,
                k < n * x,
                n * (y - 1) <= k,
                k < n * y,
        ;
    }
    if greatest_within(x, n, k) && greatest_within(y, n, k) {
        assert(x == y) by (nonlinear_arith)
            requires
                n > 0,
                x * n <= k,
                k < (x + 1) * n,
                y * n <= k,
                k < (y + 1) * n,
        ;
    }
}

} // verus!
