//! What the answers of the primality oracle are worth: it accepts every
//! prime, and up to 10000 it accepts nothing else.

use vstd::arithmetic::div_mod::*;
use vstd::arithmetic::mul::*;
use vstd::arithmetic::power::*;
use vstd::arithmetic::power2::*;
use vstd::prelude::*;

use crate::certificates::lemma_composite_is_refuted;
use crate::fermat::{lemma_fermat_little, lemma_square_root_of_one};
use crate::modular::pow_mod;
use crate::number_theory::{
    divides, lemma_divides_quotient, lemma_divides_transitive, lemma_divisor_le,
    lemma_multiple_divides, prime,
};
use crate::primality::{
    has_small_factor, is_witness, odd_factor, probable_prime, strong_probable_prime, two_adicity,
    witness,
};

verus! {

/// A number at least 2 is prime if no number from 2 up to its square root
/// divides it.
pub proof fn lemma_prime_by_trial_division(n: nat)
    requires
        n >= 2,
        forall|d: nat| 2 <= d && d * d <= n ==> !#[trigger] divides(d, n),
    ensures
        prime(n),
{
    assert forall|d: nat| 1 < d < n implies !#[trigger] divides(d, n) by {
        if divides(d, n) {
            lemma_divides_quotient(d, n);
            let q = n / d;
            lemma_multiple_divides(q, d);
            assert(n == q * d) by (nonlinear_arith)
                requires
                    n == d * q,
            ;
            assert(q >= 2 && (d * d <= n || q * q <= n)) by (nonlinear_arith)
                requires
                    n == d * q,
                    1 < d < n,
            ;
            assert(divides(q, n));
        }
    }
}

/// Every number of the witness set is prime.
pub proof fn lemma_witnesses_are_prime(i: int)
    requires
        0 <= i < 11,
    ensures
        prime(witness(i)),
{
    let p = witness(i);
    assert forall|d: nat| 2 <= d && d * d <= p implies !#[trigger] divides(d, p) by {
        assert(d <= 5) by (nonlinear_arith)
            requires
                d * d <= p,
                p <= 31,
        ;
        assert(d == 2 || d == 3 || d == 4 || d == 5);
    }
    lemma_prime_by_trial_division(p);
}

/// The oracle accepts every prime of the witness set.
pub proof fn lemma_witnesses_accepted(i: int)
    requires
        0 <= i < 11,
    ensures
        probable_prime(witness(i)),
{
    let p = witness(i);
    lemma_mod_self_0(p as int);
    assert(p % witness(i) == 0);
    assert(has_small_factor(p));
    assert(is_witness(p));
}

/// The oracle rejects every product of two primes of the witness set.
pub proof fn lemma_witness_products_rejected(i: int, j: int)
    requires
        0 <= i < 11,
        0 <= j < 11,
    ensures
        !probable_prime(witness(i) * witness(j)),
{
    let p = witness(i);
    let q = witness(j);
    let n = p * q;
    lemma_multiple_divides(p, q);
    assert(n % witness(i) == 0);
    assert(has_small_factor(n));
    assert(1 < p < n) by (nonlinear_arith)
        requires
            n == p * q,
            p >= 2,
            q >= 2,
    ;
    if is_witness(n) {
        let k = choose|k: int| 0 <= k < 11 && n == #[trigger] witness(k);
        lemma_witnesses_are_prime(k);
        assert(divides(p, n));
    }
}

/// Every number from 2 to 36 has a divisor in the witness set.
pub proof fn lemma_small_numbers_have_small_factors(e: nat)
    requires
        2 <= e <= 36,
    ensures
        exists|i: int| 0 <= i < 11 && divides(#[trigger] witness(i), e),
{
    if e % 2 == 0 {
        assert(divides(witness(0), e));
    } else if e % 3 == 0 {
        assert(divides(witness(1), e));
    } else if e % 5 == 0 {
        assert(divides(witness(2), e));
    } else if e == 7 {
        assert(divides(witness(3), e));
    } else if e == 11 {
        assert(divides(witness(4), e));
    } else if e == 13 {
        assert(divides(witness(5), e));
    } else if e == 17 {
        assert(divides(witness(6), e));
    } else if e == 19 {
        assert(divides(witness(7), e));
    } else if e == 23 {
        assert(divides(witness(8), e));
    } else if e == 29 {
        assert(divides(witness(9), e));
    } else {
        assert(e == 31);
        assert(divides(witness(10), e));
    }
}

/// Below 37 * 37 the oracle is exact: what it accepts is prime.
pub proof fn lemma_accepted_below_1369_is_prime(n: nat)
    requires
        n < 1369,
        probable_prime(n),
    ensures
        prime(n),
{
    if has_small_factor(n) {
        let k = choose|k: int| 0 <= k < 11 && n == #[trigger] witness(k);
        lemma_witnesses_are_prime(k);
    } else {
        assert forall|d: nat| 2 <= d && d * d <= n implies !#[trigger] divides(d, n) by {
            if divides(d, n) {
                assert(d <= 36) by (nonlinear_arith)
                    requires
                        d * d <= n,
                        n < 1369,
                ;
                lemma_small_numbers_have_small_factors(d);
                let i = choose|i: int| 0 <= i < 11 && divides(#[trigger] witness(i), d);
                lemma_divides_transitive(witness(i), d, n);
                assert(n % witness(i) == 0);
            }
        }
        lemma_prime_by_trial_division(n);
    }
}

/// Every positive number is a power of two times an odd number.
pub proof fn lemma_two_adic_parts(m: nat)
    requires
        m > 0,
    ensures
        m == pow2(two_adicity(m)) * odd_factor(m),
        odd_factor(m) % 2 == 1,
    decreases m,
{
    if m % 2 == 1 {
        lemma2_to64();
        assert(odd_factor(m) == m / 1);
        assert(pow2(0) * m == m) by (nonlinear_arith)
            requires
                pow2(0) == 1,
        ;
    } else {
        let h = m / 2;
        lemma_two_adic_parts(h);
        let s = two_adicity(h);
        lemma_pow2_unfold(s + 1);
        lemma_pow2_pos(s);
        assert(m == pow2(s + 1) * odd_factor(h)) by (nonlinear_arith)
            requires
                m == 2 * h,
                h == pow2(s) * odd_factor(h),
                pow2(s + 1) == 2 * pow2(s),
        ;
        lemma_div_by_multiple(odd_factor(h) as int, pow2(s + 1) as int);
        lemma_mul_is_commutative(odd_factor(h) as int, pow2(s + 1) as int);
    }
}

/// Doubling the exponent squares the residue.
proof fn lemma_pow_mod_double(a: nat, e: nat, n: nat)
    requires
        n > 0,
    ensures
        pow_mod(a, 2 * e, n) == (pow_mod(a, e, n) * pow_mod(a, e, n)) % n,
{
    let p = vstd::arithmetic::power::pow(a as int, e);
    lemma_pow_multiplies(a as int, e, 2);
    lemma_mul_is_commutative(e as int, 2);
    lemma_square_is_pow2(p);
    lemma_mul_mod_noop(p, p, n as int);
    lemma_mod_bound(p, n as int);
}

/// Modulo a prime `n`, if the power `d * 2^r` of `a` is 1, then either the
/// power `d` is 1 already, or one of the powers `d * 2^q` with `q < r` is -1.
proof fn lemma_descend(a: nat, d: nat, r: nat, n: nat)
    requires
        prime(n),
        pow_mod(a, d * pow2(r), n) == 1,
    ensures
        pow_mod(a, d, n) == 1 || exists|q: nat|
            q < r && #[trigger] pow_mod(a, d * pow2(q), n) == n - 1,
    decreases r,
{
    if r == 0 {
        lemma2_to64();
        assert(d * pow2(0) == d) by (nonlinear_arith)
            requires
                pow2(0) == 1,
        ;
    } else {
        let q = (r - 1) as nat;
        let e = d * pow2(q);
        let x = pow_mod(a, e, n);
        lemma_pow2_unfold(r);
        assert(2 * e == d * pow2(r)) by (nonlinear_arith)
            requires
                e == d * pow2(q),
                pow2(r) == 2 * pow2(q),
        ;
        lemma_pow_mod_double(a, e, n);
        lemma_mod_bound(vstd::arithmetic::power::pow(a as int, e), n as int);
        lemma_square_root_of_one(x, n);
        if x == 1 {
            lemma_descend(a, d, q, n);
            if pow_mod(a, d, n) != 1 {
                let w = choose|w: nat| w < q && #[trigger] pow_mod(a, d * pow2(w), n) == n - 1;
                assert(w < r && pow_mod(a, d * pow2(w), n) == n - 1);
            }
        } else {
            assert(q < r && pow_mod(a, d * pow2(q), n) == n - 1);
        }
    }
}

/// A prime is a strong probable prime to every base that it does not divide.
pub proof fn lemma_prime_passes(n: nat, a: nat)
    requires
        prime(n),
        n % 2 == 1,
        a % n != 0,
    ensures
        strong_probable_prime(n, a),
{
    let m = (n - 1) as nat;
    let s = two_adicity(m);
    let d = odd_factor(m);
    lemma_two_adic_parts(m);
    lemma_fermat_little(a, n);
    lemma_mul_is_commutative(pow2(s) as int, d as int);
    assert(pow_mod(a, d * pow2(s), n) == 1);
    lemma_descend(a, d, s, n);
}

/// The oracle accepts every prime: a number that it rejects is composite,
/// or below 2.
pub proof fn lemma_primes_accepted(n: nat)
    requires
        prime(n),
    ensures
        probable_prime(n),
{
    if has_small_factor(n) {
        let i = choose|i: int| 0 <= i < 11 && n % #[trigger] witness(i) == 0;
        assert(divides(witness(i), n));
        lemma_divisor_le(witness(i), n);
        assert(n == witness(i));
    } else {
        assert(n % witness(0) != 0);
        assert forall|i: int| 0 <= i < 11 && witness(i) < n implies strong_probable_prime(
            n,
            #[trigger] witness(i),
        ) by {
            lemma_small_mod(witness(i), n);
            lemma_prime_passes(n, witness(i));
        }
    }
}

/// Up to 10000 the oracle is exact: it accepts the primes and nothing else.
pub proof fn lemma_exact_up_to_10000(n: nat)
    requires
        n <= 10000,
    ensures
        probable_prime(n) <==> prime(n),
{
    if prime(n) {
        lemma_primes_accepted(n);
    }
    if probable_prime(n) && !prime(n) {
        if has_small_factor(n) {
            let k = choose|k: int| 0 <= k < 11 && n == #[trigger] witness(k);
            lemma_witnesses_are_prime(k);
        } else {
            lemma_composite_is_refuted(n);
            assert(witness(0) == 2 && witness(1) == 3);
            if n <= 3 {
                lemma_accepted_below_1369_is_prime(n);
            }
        }
    }
}

/// `p` is the largest prime factor of `n`.
pub open spec fn is_largest_prime_factor(p: nat, n: nat) -> bool {
    &&& prime(p)
    &&& divides(p, n)
    &&& forall|q: nat| prime(q) && #[trigger] divides(q, n) ==> q <= p
}

/// A number has at most one largest prime factor.
pub proof fn lemma_largest_prime_factor_unique(p: nat, q: nat, n: nat)
    requires
        is_largest_prime_factor(p, n),
        is_largest_prime_factor(q, n),
    ensures
        p == q,
{
}

/// A factor of `n` that the oracle accepts and that no prime factor of `n`
/// exceeds is the largest prime factor of `n`, provided that it is prime;
/// up to 10000 it always is.
pub proof fn lemma_accepted_factor_is_largest(p: nat, n: nat)
    requires
        divides(p, n),
        probable_prime(p),
        forall|q: nat| prime(q) && #[trigger] divides(q, n) ==> q <= p,
        prime(p) || p <= 10000,
    ensures
        is_largest_prime_factor(p, n),
{
    if p <= 10000 {
        lemma_exact_up_to_10000(p);
    }
}

/// The largest prime factor of a prime is the prime itself.
pub proof fn lemma_prime_is_its_largest_factor(n: nat)
    requires
        prime(n),
    ensures
        is_largest_prime_factor(n, n),
{
    lemma_mod_self_0(n as int);
    assert forall|q: nat| prime(q) && #[trigger] divides(q, n) implies q <= n by {
        lemma_divisor_le(q, n);
    }
}

} // verus!
