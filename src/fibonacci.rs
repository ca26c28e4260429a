//! The Fibonacci sequence: seeds 0 and 1, each later term the sum of the two
//! before it.

use vstd::prelude::*;

verus! {

/// The `n`th term of the sequence, over unbounded integers.
pub open spec fn fib(n: nat) -> nat
    decreases n,
{
    if n == 0 {
        0
    } else if n == 1 {
        1
    } else {
        fib((n - 1) as nat) + fib((n - 2) as nat)
    }
}

/// Why a term could not be produced.
#[derive(Debug, Clone, Copy, PartialEq, Eq, Structural)]
pub enum FibError {
    /// The term does not fit in a `u64`.
    Overflow,
}

/// What `compute(n)` returns: the term when it fits in a `u64`, `Overflow` otherwise.
pub open spec fn compute_result(n: u64) -> Result<u64, FibError> {
    if fib(n as nat) <= u64::MAX {
        Ok(fib(n as nat) as u64)
    } else {
        Err(FibError::Overflow)
    }
}

/// Each term is at least the one before it.
pub proof fn lemma_fib_step(n: nat)
    requires
        n >= 1,
    ensures
        fib(n) >= fib((n - 1) as nat),
{
    if n >= 2 {
        assert(fib(n) == fib((n - 1) as nat) + fib((n - 2) as nat));
    }
}

/// The sequence never decreases: `i <= j` gives `fib(i) <= fib(j)`.
pub proof fn lemma_fib_monotone(i: nat, j: nat)
    requires
        i <= j,
    ensures
        fib(i) <= fib(j),
    decreases j - i,
{
    if i < j {
        lemma_fib_monotone(i, (j - 1) as nat);
        lemma_fib_step(j);
    }
}

/// The `n`th term, or `Overflow` when it does not fit in a `u64`.
///
/// The loop keeps two consecutive terms and stops as soon as the next one
/// would overflow; since the sequence never decreases, the requested term
/// would overflow too.
pub fn compute(n: u64) -> (r: Result<u64, FibError>)
    ensures
        r == compute_result(n),
{
    if n == 0 {
        return Ok(0);
    }
    let mut previous: u64 = 0;
    let mut current: u64 = 1;
    let mut i: u64 = 1;
    while i < n
        invariant
            1 <= i <= n,
            previous == fib((i - 1) as nat),
            current == fib(i as nat),
        decreases n - i,
    {
        match previous.checked_add(current) {
            Some(next) => {
                previous = current;
                current = next;
                i = i + 1;
            },
            None => {
                proof {
                    assert(fib((i + 1) as nat) == fib(i as nat) + fib((i - 1) as nat));
                    lemma_fib_monotone((i + 1) as nat, n as nat);
                }
                return Err(FibError::Overflow);
            },
        }
    }
    Ok(current)
}

/// Recurrence: whenever `compute(n)` succeeds for `n >= 2`, so do the two
/// calls before it, and the term is their sum.
pub proof fn lemma_compute_recurrence(n: u64)
    requires
        n >= 2,
    ensures
        compute_result(n) is Ok ==> compute_result((n - 1) as u64) is Ok && compute_result(
            (n - 2) as u64,
        ) is Ok && compute_result(n)->Ok_0 == compute_result((n - 1) as u64)->Ok_0
            + compute_result((n - 2) as u64)->Ok_0,
{
    assert(fib(n as nat) == fib((n - 1) as nat) + fib((n - 2) as nat));
}

/// Monotonicity: whenever `compute(n)` succeeds for `n >= 1`, so does
/// `compute(n - 1)`, with a result no larger.
pub proof fn lemma_compute_monotone(n: u64)
    requires
        n >= 1,
    ensures
        compute_result(n) is Ok ==> compute_result((n - 1) as u64) is Ok && compute_result(n)->Ok_0
            >= compute_result((n - 1) as u64)->Ok_0,
{
    lemma_fib_step(n as nat);
}

/// Purity: two calls of `compute` with the same index give the same result.
pub proof fn lemma_compute_repeatable(
    n: u64,
    first: Result<u64, FibError>,
    second: Result<u64, FibError>,
)
    requires
        first == compute_result(n),
        second == compute_result(n),
    ensures
        first == second,
{
}

} // verus!
