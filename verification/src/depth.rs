//! The iteration cutoff and the two keys that change it.

use vstd::arithmetic::power2::{
    lemma2_to64, lemma_pow2_pos, lemma_pow2_strictly_increases, lemma_pow2_unfold, pow2,
};
use vstd::prelude::*;

verus! {

/// The cutoff a fresh fractal starts with.
pub const INITIAL_ITERATIONS: usize = 50;

/// Half of `n`, rounded up.
pub open spec fn spec_halved(n: nat) -> nat {
    (n + 1) / 2
}

/// Twice `n`, held at the largest `usize` where the double does not fit.
pub open spec fn spec_doubled(n: nat) -> nat {
    if 2 * n <= usize::MAX {
        2 * n
    } else {
        usize::MAX as nat
    }
}

/// Halves a cutoff, rounding up, so that a cutoff of one stays at one.
pub fn halved(n: usize) -> (half: usize)
    ensures
        half == spec_halved(n as nat),
        n >= 1 ==> half >= 1,
        half <= n,
{
    n / 2 + n % 2
}

/// Doubles a cutoff; a cutoff whose double exceeds `usize::MAX` becomes
/// `usize::MAX`.
pub fn doubled(n: usize) -> (twice: usize)
    ensures
        twice == spec_doubled(n as nat),
        twice >= n,
{
    if n <= usize::MAX / 2 {
        2 * n
    } else {
        usize::MAX
    }
}

/// A cutoff halved `times` times over.
pub open spec fn halved_times(n: nat, times: nat) -> nat
    decreases times,
{
    if times == 0 {
        n
    } else {
        spec_halved(halved_times(n, (times - 1) as nat))
    }
}

/// Halving `times` times over divides by the power of two and rounds up:
/// the result is the least number whose multiple by `pow2(times)` reaches
/// `n`.
pub proof fn halved_times_rounds_up(n: nat, times: nat)
    ensures
        (halved_times(n, times) - 1) * pow2(times) < n <= halved_times(n, times) * pow2(times),
    decreases times,
{
    if times == 0 {
        lemma2_to64();
    } else {
        let before: nat = halved_times(n, (times - 1) as nat);
        let after: nat = halved_times(n, times);
        let unit: nat = pow2((times - 1) as nat);
        halved_times_rounds_up(n, (times - 1) as nat);
        lemma_pow2_unfold(times);
        lemma_pow2_pos((times - 1) as nat);
        assert(before * unit <= after * (2 * unit)) by (nonlinear_arith)
            requires
                before <= 2 * after,
                unit > 0,
        ;
        assert((after - 1) * (2 * unit) <= (before - 1) * unit) by (nonlinear_arith)
            requires
                2 * after - 1 <= before,
                unit > 0,
        ;
    }
}

/// Halving over and over from a cutoff of at least one never reaches zero.
pub proof fn halving_never_reaches_zero(n: nat, times: nat)
    requires
        n >= 1,
    ensures
        halved_times(n, times) >= 1,
{
    let left: nat = halved_times(n, times);
    let unit: nat = pow2(times);
    halved_times_rounds_up(n, times);
    assert(left >= 1) by (nonlinear_arith)
        requires
            1 <= n <= left * unit,
    ;
}

/// Once the halvings make up the cutoff, it has arrived at one, and it stays
/// at one however often it is halved after that.
pub proof fn halving_settles_at_one(n: nat, times: nat, later: nat)
    requires
        1 <= n <= pow2(times),
        times <= later,
    ensures
        halved_times(n, later) == 1,
{
    let left: nat = halved_times(n, later);
    let unit: nat = pow2(later);
    halving_never_reaches_zero(n, later);
    halved_times_rounds_up(n, later);
    if times < later {
        lemma_pow2_strictly_increases(times, later);
    }
    assert(left <= 1) by (nonlinear_arith)
        requires
            (left - 1) * unit < n <= unit,
    ;
}

} // verus!
