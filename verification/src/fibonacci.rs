//! Sums over the Fibonacci numbers.

use vstd::prelude::*;

verus! {

/// The Fibonacci numbers 0, 1, 1, 2, 3, 5, ...
pub open spec fn fib(n: nat) -> nat
    decreases n,
{
    if n == 0 {
        0
    } else if n == 1 {
        1
    } else {
        fib((n - 1) as nat) + fib((n - 2) as nat)
    }
}

/// What the `n`-th Fibonacci number adds to the sum: itself when it is odd
/// and below `threshold`, nothing otherwise.
pub open spec fn odd_term(threshold: nat, n: nat) -> nat {
    if fib(n) % 2 == 1 && fib(n) < threshold {
        fib(n)
    } else {
        0
    }
}

/// The sum of those among the first `n` Fibonacci numbers, from `fib(1)`
/// on, that are odd and below `threshold`.
pub open spec fn odd_fib_sum(threshold: nat, n: nat) -> nat
    decreases n,
{
    if n == 0 {
        0
    } else {
        odd_fib_sum(threshold, (n - 1) as nat) + odd_term(threshold, n)
    }
}

/// The largest threshold for which every sum stays within 32 bits: the
/// 47th Fibonacci number.
pub const MAX_THRESHOLD: u32 = 2971215073;

/// The Fibonacci numbers do not fall.
pub proof fn lemma_fib_monotonic(i: nat, j: nat)
    requires
        i <= j,
    ensures
        fib(i) <= fib(j),
    decreases j,
{
    if i < j {
        lemma_fib_monotonic(i, (j - 1) as nat);
    }
}

/// Fibonacci numbers that are not below the threshold add nothing.
pub proof fn lemma_sum_stops(threshold: nat, k: nat, n: nat)
    requires
        k <= n,
        fib(k + 1) >= threshold,
    ensures
        odd_fib_sum(threshold, n) == odd_fib_sum(threshold, k),
    decreases n,
{
    if k < n {
        lemma_fib_monotonic(k + 1, n);
        lemma_sum_stops(threshold, k, (n - 1) as nat);
    }
}

/// A sum of the first `k` terms is below twice the next Fibonacci number.
pub proof fn lemma_sum_bound(threshold: nat, k: nat)
    ensures
        odd_fib_sum(threshold, k) <= fib(k + 2),
    decreases k,
{
    if k > 0 {
        lemma_sum_bound(threshold, (k - 1) as nat);
    }
}

/// The 47th Fibonacci number.
pub proof fn lemma_fib_47()
    ensures
        fib(45) == 1134903170,
        fib(46) == 1836311903,
        fib(47) == 2971215073,
{
    assert(fib(0) == 0);
    assert(fib(1) == 1);
    assert(fib(2) == 1);
    assert(fib(3) == 2);
    assert(fib(4) == 3);
    assert(fib(5) == 5);
    assert(fib(6) == 8);
    assert(fib(7) == 13);
    assert(fib(8) == 21);
    assert(fib(9) == 34);
    assert(fib(10) == 55);
    assert(fib(11) == 89);
    assert(fib(12) == 144);
    assert(fib(13) == 233);
    assert(fib(14) == 377);
    assert(fib(15) == 610);
    assert(fib(16) == 987);
    assert(fib(17) == 1597);
    assert(fib(18) == 2584);
    assert(fib(19) == 4181);
    assert(fib(20) == 6765);
    assert(fib(21) == 10946);
    assert(fib(22) == 17711);
    assert(fib(23) == 28657);
    assert(fib(24) == 46368);
    assert(fib(25) == 75025);
    assert(fib(26) == 121393);
    assert(fib(27) == 196418);
    assert(fib(28) == 317811);
    assert(fib(29) == 514229);
    assert(fib(30) == 832040);
    assert(fib(31) == 1346269);
    assert(fib(32) == 2178309);
    assert(fib(33) == 3524578);
    assert(fib(34) == 5702887);
    assert(fib(35) == 9227465);
    assert(fib(36) == 14930352);
    assert(fib(37) == 24157817);
    assert(fib(38) == 39088169);
    assert(fib(39) == 63245986);
    assert(fib(40) == 102334155);
    assert(fib(41) == 165580141);
    assert(fib(42) == 267914296);
    assert(fib(43) == 433494437);
    assert(fib(44) == 701408733);
    assert(fib(45) == 1134903170);
    assert(fib(46) == 1836311903);
}

/// The sum of the odd Fibonacci numbers below `threshold`, where 1 counts
/// twice, as it occurs twice among them.
///
/// From the 48th on the Fibonacci numbers exceed every threshold, so the
/// first 47 are all that can count. The threshold may not exceed the 47th:
/// beyond it the sum does not fit in 32 bits.
pub fn odd_fibnacci_sum(threshold: u32) -> (sum: u32)
    requires
        threshold <= MAX_THRESHOLD,
    ensures
        sum == odd_fib_sum(threshold as nat, 47),
        threshold <= 1 ==> sum == 0,
{
    proof {
        lemma_fib_47();
        assert(fib(0) == 0);
        assert(fib(1) == 1);
        assert(fib(2) == 1);
        assert(odd_fib_sum(threshold as nat, 0) == 0);
    }
    if threshold <= 1 {
        proof {
            lemma_sum_stops(threshold as nat, 0, 47);
        }
        return 0;
    }
    let mut a: u32 = 1;
    let mut b: u32 = 1;
    let mut sum: u32 = a;
    let ghost mut k: nat = 1;
    while b < threshold
        invariant
            1 <= k <= 47,
            a == fib(k),
            b == fib(k + 1),
            a < threshold,
            threshold <= MAX_THRESHOLD,
            fib(45) == 1134903170,
            fib(46) == 1836311903,
            fib(47) == 2971215073,
            sum == odd_fib_sum(threshold as nat, k),
        decreases 47 - k,
    {
        proof {
            if k >= 46 {
                lemma_fib_monotonic(47, k + 1);
            }
            lemma_fib_monotonic(k + 2, 47);
            if k <= 44 {
                lemma_sum_bound(threshold as nat, k);
                lemma_fib_monotonic(k + 3, 47);
            } else {
                lemma_sum_bound(threshold as nat, 44);
            }
        }
        if b % 2 != 0 {
            sum = sum + b;
        }
        let next: u32 = a + b;
        a = b;
        b = next;
        proof {
            k = k + 1;
        }
    }
    proof {
        lemma_sum_stops(threshold as nat, k, 47);
    }
    sum
}

} // verus!
