//! Sum of the integers from 1 to `n`, computed by three interchangeable
//! strategies (iterative, recursive, closed-form) behind one contract.
//!
//! All strategies return the same value wherever they succeed. They differ in
//! complexity and in when they decline: the iterative and closed-form
//! strategies report an overflow once the exact sum no longer fits in an
//! `i32`, and the recursive strategy additionally refuses inputs above a
//! stack-depth ceiling rather than risk exhausting the call stack.

use vstd::prelude::*;

verus! {

/// Selects one of the three interchangeable summation algorithms.
#[derive(Clone, Copy, Debug, PartialEq, Eq, Structural)]
pub enum Strategy {
    /// Linear scan with a running total: O(n) time, O(1) space.
    Iterative,
    /// One call per unit of input: O(n) time, O(n) stack space.
    Recursive,
    /// Direct arithmetic formula: O(1) time, O(1) space.
    ClosedForm,
}

/// Why a strategy declined to produce a sum.
#[derive(Clone, Copy, Debug, PartialEq, Eq, Structural)]
pub enum SumError {
    /// The exact sum does not fit in an `i32`.
    Overflow,
    /// The input exceeds the recursive strategy's stack-depth ceiling.
    DepthLimit,
}

/// Largest `n` the recursive strategy accepts: one stack frame per unit of
/// input is safe well past this ceiling on common stacks, but not unboundedly.
pub const RECURSION_LIMIT: i32 = 10000;

/// Largest `n` whose sum still fits in an `i32`
/// (see [`lemma_sum_fits_iff`]).
pub const MAX_EXACT_N: i32 = 65535;

/// The sum 1 + 2 + ... + n, and 0 when `n <= 0` (the sum of an empty range).
pub open spec fn sum_up_to(n: int) -> int
    decreases n,
{
    if n <= 0 {
        0
    } else {
        n + sum_up_to(n - 1)
    }
}

/// What the iterative strategy returns: the exact sum, or an overflow report
/// when it does not fit in an `i32`.
pub open spec fn iterative_result(n: int) -> Result<i32, SumError> {
    if sum_up_to(n) <= i32::MAX {
        Ok(sum_up_to(n) as i32)
    } else {
        Err(SumError::Overflow)
    }
}

/// What the recursive strategy returns: the exact sum below the stack-depth
/// ceiling, and a refusal above it.
pub open spec fn recursive_result(n: int) -> Result<i32, SumError> {
    if n > RECURSION_LIMIT as int {
        Err(SumError::DepthLimit)
    } else {
        Ok(sum_up_to(n) as i32)
    }
}

/// Gauss's formula n * (n + 1) / 2, and 0 when `n <= 0`.
pub open spec fn closed_sum(n: int) -> int {
    if n <= 0 {
        0
    } else {
        n * (n + 1) / 2
    }
}

/// What the closed-form strategy returns: the formula's value, or an overflow
/// report when it does not fit in an `i32`.
pub open spec fn closed_form_result(n: int) -> Result<i32, SumError> {
    if closed_sum(n) <= i32::MAX {
        Ok(closed_sum(n) as i32)
    } else {
        Err(SumError::Overflow)
    }
}

/// What `sum_to_n` returns for each choice of strategy.
pub open spec fn strategy_result(strategy: Strategy, n: int) -> Result<i32, SumError> {
    match strategy {
        Strategy::Iterative => iterative_result(n),
        Strategy::Recursive => recursive_result(n),
        Strategy::ClosedForm => closed_form_result(n),
    }
}

/// The sum is never negative.
pub proof fn lemma_sum_nonneg(n: int)
    ensures
        sum_up_to(n) >= 0,
    decreases n,
{
    if n > 0 {
        lemma_sum_nonneg(n - 1);
    }
}

/// The sum grows with its bound.
pub proof fn lemma_sum_monotone(m: int, n: int)
    requires
        m <= n,
    ensures
        sum_up_to(m) <= sum_up_to(n),
    decreases n,
{
    if m < n && n > 0 {
        lemma_sum_monotone(m, n - 1);
    }
}

/// Gauss's identity: twice the sum of 1 through n is n * (n + 1).
pub proof fn lemma_sum_gauss(n: int)
    requires
        n >= 0,
    ensures
        2 * sum_up_to(n) == n * (n + 1),
    decreases n,
{
    if n > 0 {
        lemma_sum_gauss(n - 1);
        let s: int = sum_up_to(n - 1);
        assert(sum_up_to(n) == n + s);
        assert(2 * (n + s) == n * (n + 1)) by (nonlinear_arith)
            requires
                2 * s == (n - 1) * ((n - 1) + 1),
        ;
    } else {
        assert(n * (n + 1) == 0) by (nonlinear_arith)
            requires
                n == 0,
        ;
    }
}

/// The sum fits in an `i32` exactly for `n` up to [`MAX_EXACT_N`].
pub proof fn lemma_sum_fits_iff(n: int)
    ensures
        sum_up_to(n) <= i32::MAX <==> n <= MAX_EXACT_N as int,
{
    if n <= MAX_EXACT_N as int {
        lemma_sum_monotone(n, MAX_EXACT_N as int);
        lemma_sum_gauss(MAX_EXACT_N as int);
    } else {
        lemma_sum_monotone(MAX_EXACT_N as int + 1, n);
        lemma_sum_gauss(MAX_EXACT_N as int + 1);
    }
}

/// Iterative strategy: accumulate 1 + 2 + ... + n in a linear scan.
/// O(n) time, O(1) space.
pub fn sum_to_n_a(n: i32) -> (r: Result<i32, SumError>)
    ensures
        r == iterative_result(n as int),
{
    if n <= 0 {
        return Ok(0);
    }
    if n > MAX_EXACT_N {
        proof {
            lemma_sum_fits_iff(n as int);
        }
        return Err(SumError::Overflow);
    }
    proof {
        lemma_sum_fits_iff(n as int);
    }
    let mut sum: i32 = 0;
    let mut i: i32 = 0;
    while i < n
        invariant
            0 <= i <= n,
            n <= MAX_EXACT_N,
            sum as int == sum_up_to(i as int),
            sum_up_to(n as int) <= i32::MAX,
        decreases n - i,
    {
        i = i + 1;
        proof {
            lemma_sum_nonneg(i as int - 1);
            lemma_sum_monotone(i as int, n as int);
        }
        sum = sum + i;
    }
    Ok(sum)
}

/// Recursive strategy: 1 + 2 + ... + n as `n + sum_to_n_b(n - 1)`, with a
/// base case at `n <= 0`. O(n) time, O(n) stack space, so inputs above
/// [`RECURSION_LIMIT`] are refused rather than risk exhausting the stack.
pub fn sum_to_n_b(n: i32) -> (r: Result<i32, SumError>)
    ensures
        r == recursive_result(n as int),
    decreases n,
{
    if n <= 0 {
        return Ok(0);
    }
    if n > RECURSION_LIMIT {
        return Err(SumError::DepthLimit);
    }
    match sum_to_n_b(n - 1) {
        Ok(rest) => {
            proof {
                lemma_sum_nonneg(n as int - 1);
                lemma_sum_monotone(n as int, RECURSION_LIMIT as int);
                lemma_sum_gauss(RECURSION_LIMIT as int);
            }
            Ok(n + rest)
        },
        Err(e) => Err(e),
    }
}

/// Closed-form strategy: Gauss's formula n * (n + 1) / 2, evaluated in a
/// wider integer so the product cannot wrap. O(1) time, O(1) space.
pub fn sum_to_n_c(n: i32) -> (r: Result<i32, SumError>)
    ensures
        r == closed_form_result(n as int),
{
    if n <= 0 {
        return Ok(0);
    }
    let wide: u64 = n as u64;
    proof {
        assert((n as int) * (n as int + 1) <= 2147483647 * 2147483648) by (nonlinear_arith)
            requires
                1 <= n as int <= 2147483647,
        ;
    }
    let product: u64 = wide * (wide + 1);
    let half: u64 = product / 2;
    if half > i32::MAX as u64 {
        Err(SumError::Overflow)
    } else {
        Ok(half as i32)
    }
}

/// Computes 1 + 2 + ... + n (0 when `n <= 0`) by the chosen strategy.
pub fn sum_to_n(n: i32, strategy: Strategy) -> (r: Result<i32, SumError>)
    ensures
        r == strategy_result(strategy, n as int),
{
    match strategy {
        Strategy::Iterative => sum_to_n_a(n),
        Strategy::Recursive => sum_to_n_b(n),
        Strategy::ClosedForm => sum_to_n_c(n),
    }
}

/// The closed-form strategy agrees with the iterative strategy on every
/// input: same sums, and an overflow report on exactly the same inputs.
pub proof fn lemma_closed_form_matches_iterative(n: int)
    ensures
        closed_form_result(n) == iterative_result(n),
{
    if n > 0 {
        lemma_sum_gauss(n);
        lemma_sum_nonneg(n);
    }
}

/// Up to the recursive strategy's stack-depth ceiling, the three strategies
/// return identical results.
pub proof fn lemma_strategies_agree(n: int)
    requires
        n <= RECURSION_LIMIT as int,
    ensures
        recursive_result(n) == iterative_result(n),
        closed_form_result(n) == iterative_result(n),
{
    lemma_closed_form_matches_iterative(n);
    lemma_sum_monotone(n, RECURSION_LIMIT as int);
    lemma_sum_gauss(RECURSION_LIMIT as int);
}

} // verus!
