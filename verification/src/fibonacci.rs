//! The Fibonacci sequence, counted from `F(1) = F(2) = 1`.

use vstd::prelude::*;

verus! {

/// The `n`-th Fibonacci number, with `F(0) = 0` and `F(1) = 1`.
pub open spec fn fib_spec(n: nat) -> nat
    decreases n,
{
    if n == 0 {
        0
    } else if n == 1 {
        1
    } else {
        fib_spec((n - 2) as nat) + fib_spec((n - 1) as nat)
    }
}

/// The largest index whose Fibonacci number fits in a `u64`.
pub const MAX_FIB_INDEX: u64 = 93;

/// The sequence never decreases.
pub proof fn lemma_fib_monotonic(i: nat, j: nat)
    requires
        i <= j,
    ensures
        fib_spec(i) <= fib_spec(j),
    decreases j - i,
{
    if i < j {
        if j >= 2 {
            lemma_fib_monotonic(i, (j - 1) as nat);
        }
    }
}

/// The addition law: `F(m + n) = F(m) F(n + 1) + F(m - 1) F(n)`.
pub proof fn lemma_fib_addition(m: nat, n: nat)
    requires
        m >= 1,
    ensures
        fib_spec(m + n) == fib_spec(m) * fib_spec(n + 1) + fib_spec((m - 1) as nat) * fib_spec(n),
    decreases n,
{
    let a = fib_spec(m) as int;
    let b = fib_spec((m - 1) as nat) as int;
    if n == 0 {
        assert(a * 1 + b * 0 == a) by (nonlinear_arith);
    } else if n == 1 {
        assert(fib_spec(2) == 1) by {
            reveal_with_fuel(fib_spec, 2);
        }
        assert(a * 1 + b * 1 == a + b) by (nonlinear_arith);
    } else {
        let x = fib_spec(n) as int;
        let y = fib_spec((n - 1) as nat) as int;
        let z = fib_spec((n - 2) as nat) as int;
        lemma_fib_addition(m, (n - 1) as nat);
        lemma_fib_addition(m, (n - 2) as nat);
        assert((a * x + b * y) + (a * y + b * z) == a * (x + y) + b * (y + z))
            by (nonlinear_arith);
    }
}

/// `F(93)` is the last Fibonacci number below `2^64`.
pub proof fn lemma_fib_fits_u64(n: nat)
    ensures
        n <= MAX_FIB_INDEX <==> fib_spec(n) <= u64::MAX,
{
    assert(fib_spec(4) == 3 && fib_spec(5) == 5) by {
        reveal_with_fuel(fib_spec, 4);
    }
    assert(fib_spec(6) == 8);
    // Doubling the index by the addition law, from 5 up to 93.
    lemma_fib_addition(6, 5);
    lemma_fib_addition(6, 6);
    assert(fib_spec(10) == 55 && fib_spec(11) == 89 && fib_spec(12) == 144);
    lemma_fib_addition(12, 11);
    lemma_fib_addition(12, 12);
    assert(fib_spec(22) == 17711 && fib_spec(23) == 28657 && fib_spec(24) == 46368);
    lemma_fib_addition(24, 23);
    lemma_fib_addition(24, 24);
    assert(fib_spec(46) == 1836311903 && fib_spec(47) == 2971215073 && fib_spec(48) == 4807526976);
    lemma_fib_addition(47, 46);
    lemma_fib_addition(47, 47);
    assert(fib_spec(93) == 12200160415121876738 && fib_spec(94) == 19740274219868223167);
    if n <= 93 {
        lemma_fib_monotonic(n, 93);
    } else {
        lemma_fib_monotonic(94, n);
    }
}

/// Returns the `n`-th Fibonacci number.
pub fn fib(n: u64) -> (r: u64)
    requires
        0 < n <= MAX_FIB_INDEX,
    ensures
        r == fib_spec(n as nat),
{
    let mut a: u64 = 0;
    let mut b: u64 = 1;
    let mut i: u64 = 1;
    while i < n
        invariant
            1 <= i <= n <= MAX_FIB_INDEX,
            a == fib_spec((i - 1) as nat),
            b == fib_spec(i as nat),
        decreases n - i,
    {
        proof {
            lemma_fib_monotonic((i + 1) as nat, MAX_FIB_INDEX as nat);
            lemma_fib_fits_u64(MAX_FIB_INDEX as nat);
        }
        let next: u64 = a + b;
        a = b;
        b = next;
        i = i + 1;
    }
    b
}

} // verus!
