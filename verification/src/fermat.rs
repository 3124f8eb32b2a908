//! Fermat's little theorem, by way of the binomial theorem.

use vstd::arithmetic::div_mod::*;
use vstd::arithmetic::mul::*;
use vstd::arithmetic::power::*;
use vstd::prelude::*;

use crate::number_theory::{divides, lemma_prime_divides_product, prime};

verus! {

/// The binomial coefficient: the number of ways to choose `k` of `n` things.
pub open spec fn binom(n: nat, k: nat) -> nat
    decreases n, k,
{
    if k == 0 {
        1
    } else if n == 0 {
        0
    } else {
        binom((n - 1) as nat, (k - 1) as nat) + binom((n - 1) as nat, k)
    }
}

/// The sum of `binom(n, j) * a^j` for `j` from 0 to `k`.
pub open spec fn binomial_sum(a: nat, n: nat, k: nat) -> int
    decreases k,
{
    if k == 0 {
        1
    } else {
        binomial_sum(a, n, (k - 1) as nat) + binom(n, k) * vstd::arithmetic::power::pow(
            a as int,
            k,
        )
    }
}

/// More things cannot be chosen than there are.
pub proof fn lemma_binom_beyond(n: nat, k: nat)
    requires
        k > n,
    ensures
        binom(n, k) == 0,
    decreases n,
{
    if n > 0 {
        lemma_binom_beyond((n - 1) as nat, (k - 1) as nat);
        lemma_binom_beyond((n - 1) as nat, k);
    }
}

/// There is one way to choose everything.
pub proof fn lemma_binom_all(n: nat)
    ensures
        binom(n, n) == 1,
    decreases n,
{
    if n > 0 {
        lemma_binom_all((n - 1) as nat);
        lemma_binom_beyond((n - 1) as nat, n);
    }
}

/// The absorption identity: `(k + 1) * binom(n + 1, k + 1) == (n + 1) * binom(n, k)`.
pub proof fn lemma_binom_absorption(n: nat, k: nat)
    ensures
        (k + 1) * binom(n + 1, k + 1) == (n + 1) * binom(n, k),
    decreases n,
{
    if n == 0 {
        if k > 0 {
            assert(binom(0, k) == 0);
            assert(binom(0, k + 1) == 0);
            assert(binom(1, k + 1) == 0);
            assert((k + 1) * binom(1, k + 1) == 0);
            assert((0 + 1) * binom(0, k) == 0);
        } else {
            assert(binom(0, 1) == 0);
            assert(binom(0, 0) == 1);
            assert(binom(1, 1) == 1);
        }
    } else {
        let m = (n - 1) as nat;
        // binom(n + 1, k + 1) == binom(n, k) + binom(n, k + 1)
        lemma_binom_absorption(m, k);
        // (k + 1) * binom(n, k + 1) == n * binom(m, k)
        if k == 0 {
            assert(binom(n, 0) == 1);
            assert(binom(m, 0) == 1);
            assert(binom(n + 1, 1) == binom(n, 0) + binom(n, 1));
            assert(binom(n, 1) == n) by (nonlinear_arith)
                requires
                    (0 + 1) * binom(n, 1) == (m + 1) * binom(m, 0),
                    binom(m, 0) == 1,
                    m + 1 == n,
            ;
            assert((0 + 1) * binom(n + 1, 1) == (n + 1) * binom(n, 0)) by (nonlinear_arith)
                requires
                    binom(n + 1, 1) == 1 + binom(n, 1),
                    binom(n, 1) == n,
                    binom(n, 0) == 1,
            ;
        } else {
            let j = (k - 1) as nat;
            lemma_binom_absorption(m, j);
            // (j + 1) * binom(n, k) == n * binom(m, j)
            let x = binom(n, k);
            let y = binom(n, k + 1);
            let u = binom(m, j);
            let v = binom(m, k);
            assert(binom(n, k) == binom(m, j) + binom(m, k));
            assert(binom(n + 1, k + 1) == x + y);
            assert((k + 1) * (x + y) == (n + 1) * x) by (nonlinear_arith)
                requires
                    k * x == n * u,
                    (k + 1) * y == n * v,
                    x == u + v,
            ;
        }
    }
}

/// Pascal's rule, summed: the sum for `n + 1` up to `k + 1` is the sum for
/// `n` up to `k + 1` and `a` times the sum for `n` up to `k`.
pub proof fn lemma_binomial_sum_step(a: nat, n: nat, k: nat)
    ensures
        binomial_sum(a, n + 1, k + 1) == binomial_sum(a, n, k + 1) + a * binomial_sum(a, n, k),
    decreases k,
{
    let p = vstd::arithmetic::power::pow(a as int, k + 1);
    assert(binom(n + 1, k + 1) == binom(n, k) + binom(n, k + 1));
    if k == 0 {
        lemma_pow1(a as int);
        assert(binomial_sum(a, n + 1, 0) == 1);
        assert(binomial_sum(a, n, 0) == 1);
        assert(binomial_sum(a, n + 1, 1) == 1 + binom(n + 1, 1) * p);
        assert(binomial_sum(a, n, 1) == 1 + binom(n, 1) * p);
        assert(binom(n, 0) == 1);
        assert(1 + (1 + binom(n, 1)) * p == (1 + binom(n, 1) * p) + a * 1) by (nonlinear_arith)
            requires
                p == a,
        ;
    } else {
        let j = (k - 1) as nat;
        lemma_binomial_sum_step(a, n, j);
        let q = vstd::arithmetic::power::pow(a as int, k);
        assert(p == a * q) by {
            lemma_pow_adds(a as int, 1, k);
            lemma_pow1(a as int);
        }
        let s_n_k1 = binomial_sum(a, n, k + 1);
        let s_n_k = binomial_sum(a, n, k);
        let s_n_j = binomial_sum(a, n, j);
        let s_m_k1 = binomial_sum(a, n + 1, k + 1);
        let s_m_k = binomial_sum(a, n + 1, k);
        let b0 = binom(n, k) as int;
        let b1 = binom(n, k + 1) as int;
        assert(s_m_k1 == s_m_k + (b0 + b1) * p);
        assert(s_m_k == s_n_k + a * s_n_j);
        assert(s_n_k1 == s_n_k + b1 * p);
        assert(s_n_k == s_n_j + b0 * q);
        assert(s_m_k1 == s_n_k1 + a * s_n_k) by (nonlinear_arith)
            requires
                s_m_k1 == s_m_k + (b0 + b1) * p,
                s_m_k == s_n_k + a * s_n_j,
                s_n_k1 == s_n_k + b1 * p,
                s_n_k == s_n_j + b0 * q,
                p == a * q,
        ;
    }
}

/// Terms beyond the `n`-th add nothing to the sum.
pub proof fn lemma_binomial_sum_full(a: nat, n: nat)
    ensures
        binomial_sum(a, n, n + 1) == binomial_sum(a, n, n),
{
    lemma_binom_beyond(n, n + 1);
    assert(binom(n, n + 1) * vstd::arithmetic::power::pow(a as int, n + 1) == 0) by (nonlinear_arith)
        requires
            binom(n, n + 1) == 0,
    ;
}

/// The binomial theorem for `(a + 1)^n`.
pub proof fn lemma_binomial_theorem(a: nat, n: nat)
    ensures
        vstd::arithmetic::power::pow((a + 1) as int, n) == binomial_sum(a, n, n),
    decreases n,
{
    if n == 0 {
        lemma_pow0((a + 1) as int);
    } else {
        let m = (n - 1) as nat;
        lemma_binomial_theorem(a, m);
        lemma_binomial_sum_full(a, m);
        lemma_binomial_sum_step(a, m, m);
        let s = binomial_sum(a, m, m);
        assert(vstd::arithmetic::power::pow((a + 1) as int, n) == (a + 1) * s) by {
            lemma_pow_adds((a + 1) as int, 1, m);
            lemma_pow1((a + 1) as int);
        }
        assert((a + 1) * s == s + a * s) by (nonlinear_arith);
    }
}

/// A prime divides the binomial coefficients with it on top, the first
/// and the last apart.
pub proof fn lemma_prime_divides_binom(p: nat, k: nat)
    requires
        prime(p),
        0 < k < p,
    ensures
        binom(p, k) % p == 0,
{
    let n = (p - 1) as nat;
    let j = (k - 1) as nat;
    lemma_binom_absorption(n, j);
    let b = binom(p, k);
    let c = binom(n, j);
    assert(k * b == c * p) by (nonlinear_arith)
        requires
            (j + 1) * b == (n + 1) * c,
            j + 1 == k,
            n + 1 == p,
    ;
    lemma_mod_multiples_basic(c as int, p as int);
    assert(divides(p, k * b));
    lemma_prime_divides_product(p, k, b);
    lemma_small_mod(k, p);
}

/// Modulo a prime `p`, the binomial sum for `p` is 1 as long as it stops
/// before the last term.
pub proof fn lemma_binomial_sum_mod_prime(a: nat, p: nat, k: nat)
    requires
        prime(p),
        k < p,
    ensures
        binomial_sum(a, p, k) % (p as int) == 1,
    decreases k,
{
    if k == 0 {
        lemma_small_mod(1, p);
    } else {
        lemma_binomial_sum_mod_prime(a, p, (k - 1) as nat);
        lemma_prime_divides_binom(p, k);
        let b = binom(p, k);
        let c = b / p;
        lemma_fundamental_div_mod(b as int, p as int);
        let q = vstd::arithmetic::power::pow(a as int, k);
        assert(b * q == (c * q) * p) by (nonlinear_arith)
            requires
                b == p * c,
        ;
        lemma_mod_multiples_vanish(c * q, binomial_sum(a, p, (k - 1) as nat), p as int);
    }
}

/// Modulo a prime `p`, raising to the power `p` goes through sums with 1.
pub proof fn lemma_freshman(a: nat, p: nat)
    requires
        prime(p),
    ensures
        vstd::arithmetic::power::pow((a + 1) as int, p) % (p as int) == (vstd::arithmetic::power::pow(
            a as int,
            p,
        ) + 1) % (p as int),
{
    lemma_binomial_theorem(a, p);
    lemma_binom_all(p);
    let front = binomial_sum(a, p, (p - 1) as nat);
    let last = vstd::arithmetic::power::pow(a as int, p);
    lemma_binomial_sum_mod_prime(a, p, (p - 1) as nat);
    assert(binomial_sum(a, p, p) == front + binom(p, p) * last);
    assert(binom(p, p) * last == last) by (nonlinear_arith)
        requires
            binom(p, p) == 1,
    ;
    lemma_add_mod_noop(front, last, p as int);
    lemma_add_mod_noop(1, last, p as int);
    lemma_small_mod(1, p);
}

/// Modulo a prime `p`, every number is its own `p`-th power.
pub proof fn lemma_power_of_prime(a: nat, p: nat)
    requires
        prime(p),
    ensures
        vstd::arithmetic::power::pow(a as int, p) % (p as int) == a % p,
    decreases a,
{
    if a == 0 {
        lemma0_pow(p);
        lemma_small_mod(0, p);
    } else {
        let b = (a - 1) as nat;
        lemma_power_of_prime(b, p);
        lemma_freshman(b, p);
        let q = vstd::arithmetic::power::pow(b as int, p);
        lemma_add_mod_noop(q, 1, p as int);
        lemma_add_mod_noop(b as int, 1, p as int);
    }
}

/// Fermat's little theorem: modulo a prime `p`, the power `p - 1` of a
/// number that `p` does not divide is 1.
pub proof fn lemma_fermat_little(a: nat, p: nat)
    requires
        prime(p),
        a % p != 0,
    ensures
        vstd::arithmetic::power::pow(a as int, (p - 1) as nat) % (p as int) == 1,
{
    let e = (p - 1) as nat;
    let q = vstd::arithmetic::power::pow(a as int, e);
    let full = vstd::arithmetic::power::pow(a as int, p);
    lemma_power_of_prime(a, p);
    assert(full == a * q) by {
        lemma_pow_adds(a as int, 1, e);
        lemma_pow1(a as int);
    }
    assert(a > 0) by {
        lemma_small_mod(0, p);
    }
    lemma_pow_positive(a as int, e);
    // p divides a * q - a == a * (q - 1)
    let r = (q - 1) as nat;
    assert(a * r == full - a) by (nonlinear_arith)
        requires
            full == a * q,
            r == q - 1,
    ;
    lemma_mod_equivalence(full, a as int, p as int);
    assert(divides(p, a * r));
    lemma_prime_divides_product(p, a, r);
    assert(divides(p, r));
    // q == r + 1 and p divides r
    lemma_fundamental_div_mod(r as int, p as int);
    lemma_mod_multiples_vanish((r / p) as int, 1, p as int);
    lemma_small_mod(1, p);
    assert(q == p * (r / p) + 1);
}

/// Modulo a prime, only 1 and -1 are square roots of 1.
pub proof fn lemma_square_root_of_one(x: nat, p: nat)
    requires
        prime(p),
        x < p,
        (x * x) % p == 1,
    ensures
        x == 1 || x == p - 1,
{
    // p divides x * x - 1 == (x - 1) * (x + 1)
    assert(x >= 1) by {
        if x == 0 {
            assert(x * x == 0) by (nonlinear_arith)
                requires
                    x == 0,
            ;
            lemma_small_mod(0, p);
        }
    }
    let lo = (x - 1) as nat;
    let hi = x + 1;
    assert(lo * hi == x * x - 1) by (nonlinear_arith)
        requires
            lo == x - 1,
            hi == x + 1,
    ;
    lemma_small_mod(1, p);
    lemma_mod_equivalence((x * x) as int, 1, p as int);
    assert(divides(p, lo * hi));
    lemma_prime_divides_product(p, lo, hi);
    if divides(p, lo) {
        if lo != 0 {
            lemma_small_mod(lo, p);
        }
    } else {
        if hi != p {
            lemma_small_mod(hi, p);
        }
    }
}

} // verus!
