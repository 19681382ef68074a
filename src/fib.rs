//! The Fibonacci load generator: a deliberately exponential computation
//! whose input is clamped so that one request stays bounded.
use vstd::arithmetic::power2::{lemma2_to64, lemma2_to64_rest, pow2};
use crate::decimal::{parse_unsigned, unsigned_value};
use vstd::prelude::*;

verus! {

/// Input used when a request names none.
pub const DEFAULT_FIB_N: u64 = 10;

/// Largest input a request may ask for; larger ones are lowered to it.
pub const MAX_FIB_N: u64 = 45;

/// The Fibonacci sequence 0, 1, 1, 2, 3, 5, ...
pub open spec fn fib_spec(n: nat) -> nat
    decreases n,
{
    if n <= 1 {
        n
    } else {
        fib_spec((n - 1) as nat) + fib_spec((n - 2) as nat)
    }
}

/// The input a request is computed for: the requested one, or the default
/// when absent, lowered to the cap.
pub open spec fn clamped_fib_n(requested: Option<u64>) -> u64 {
    let n = match requested {
        Some(v) => v,
        None => DEFAULT_FIB_N,
    };
    if n > MAX_FIB_N {
        MAX_FIB_N
    } else {
        n
    }
}

/// Each term is at least the one before it.
pub proof fn lemma_fib_step(n: nat)
    ensures
        fib_spec(n) <= fib_spec(n + 1),
{
    if n >= 1 {
        assert(fib_spec(n + 1) == fib_spec(n) + fib_spec((n - 1) as nat));
    }
}

/// The sequence never decreases.
pub proof fn lemma_fib_monotonic(n: nat, m: nat)
    requires
        n <= m,
    ensures
        fib_spec(n) <= fib_spec(m),
    decreases m - n,
{
    if n < m {
        lemma_fib_step(n);
        lemma_fib_monotonic(n + 1, m);
    }
}

/// Every term is below the matching power of two.
pub proof fn lemma_fib_below_pow2(n: nat)
    ensures
        fib_spec(n) < pow2(n),
    decreases n,
{
    lemma2_to64();
    if n >= 2 {
        lemma_fib_below_pow2((n - 1) as nat);
        lemma_fib_below_pow2((n - 2) as nat);
        vstd::arithmetic::power2::lemma_pow2_unfold(n);
        vstd::arithmetic::power2::lemma_pow2_unfold((n - 1) as nat);
    }
}

/// Every term up to the cap fits in a `u64`.
pub proof fn lemma_capped_fib_fits(n: nat)
    requires
        n <= MAX_FIB_N,
    ensures
        fib_spec(n) <= fib_spec(MAX_FIB_N as nat) < 0x2000_0000_0000,
{
    lemma_fib_monotonic(n, MAX_FIB_N as nat);
    lemma_fib_below_pow2(MAX_FIB_N as nat);
    lemma2_to64_rest();
}

/// Computes the `n`-th Fibonacci number by naive double recursion, on
/// purpose: its cost grows exponentially with `n`.
pub fn fib(n: u64) -> (r: u64)
    requires
        fib_spec(n as nat) <= u64::MAX,
    ensures
        r == fib_spec(n as nat),
    decreases n,
{
    if n <= 1 {
        return n;
    }
    fib(n - 1) + fib(n - 2)
}

/// The input a request is computed for (see [`clamped_fib_n`]).
pub fn fib_input(requested: Option<u64>) -> (r: u64)
    ensures
        r == clamped_fib_n(requested),
        r <= MAX_FIB_N,
{
    let n = match requested {
        Some(v) => v,
        None => DEFAULT_FIB_N,
    };
    if n > MAX_FIB_N {
        MAX_FIB_N
    } else {
        n
    }
}

/// What the load-generation endpoint answers, but for its timing.
#[derive(Clone, Copy, Debug, PartialEq, Eq, Structural)]
pub struct FibOutcome {
    /// The input actually used, after clamping.
    pub n: u64,
    /// The Fibonacci number of `n`.
    pub result: u64,
}

/// Serves a load-generation request: clamps the requested input and computes
/// its Fibonacci number.
pub fn fib_request(requested: Option<u64>) -> (r: FibOutcome)
    ensures
        r.n == clamped_fib_n(requested),
        r.n <= MAX_FIB_N,
        r.result == fib_spec(r.n as nat),
{
    let n = fib_input(requested);
    proof {
        lemma_capped_fib_fits(n as nat);
    }
    FibOutcome { n, result: fib(n) }
}

/// The input a query parameter asks for: the number it writes, or none when
/// it is absent or is no unsigned 64-bit number.
pub open spec fn requested_fib_n(param: Option<Seq<char>>) -> Option<u64> {
    match param {
        Some(s) => unsigned_value(s, u64::MAX),
        None => None,
    }
}

/// Serves a load-generation request from its raw `n` parameter: a missing
/// or malformed one means the default input, and any input is clamped.
pub fn fib_query(param: Option<&str>) -> (r: FibOutcome)
    ensures
        r.n == clamped_fib_n(
            requested_fib_n(
                match param {
                    Some(s) => Some(s@),
                    None => None,
                },
            ),
        ),
        r.result == fib_spec(r.n as nat),
{
    let requested = match param {
        Some(s) => parse_unsigned(s, u64::MAX),
        None => None,
    };
    fib_request(requested)
}

} // verus!
