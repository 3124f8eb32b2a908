//! Certificates of compositeness: for every product of two primes from 37
//! on that is at most 10000, a base to which it is no strong probable prime.

pub mod from_37;
pub mod from_41;
pub mod from_43;
pub mod from_47;
pub mod from_53;
pub mod from_59;
pub mod from_61;
pub mod from_67;
pub mod from_71;
pub mod from_73;
pub mod from_79;
pub mod from_83;
pub mod from_89;
pub mod from_97;

use vstd::arithmetic::div_mod::*;
use vstd::arithmetic::mul::*;
use vstd::arithmetic::power::*;
use vstd::arithmetic::power2::*;
use vstd::prelude::*;

use crate::modular::pow_mod;
use crate::number_theory::{
    divides, lemma_divides_quotient, lemma_divides_transitive, lemma_multiple_divides, prime,
};
use crate::primality::{
    has_small_factor, lemma_two_adic_decomposition, strong_probable_prime, witness,
};
use crate::soundness::lemma_small_numbers_have_small_factors;

verus! {

/// `a^e mod n` by repeated squaring: the power for half the exponent is
/// squared, and multiplied by `a` where the exponent is odd.
pub open spec fn pow_mod_by_squaring(a: nat, e: nat, n: nat) -> nat
    decreases e,
{
    if e == 0 {
        1nat % n
    } else {
        let half = pow_mod_by_squaring(a, e / 2, n);
        let square = (half * half) % n;
        if e % 2 == 1 {
            (square * a) % n
        } else {
            square
        }
    }
}

/// Whether none of `x`, `x^2`, `x^4`, ..., the first `count` of them, is
/// `n - 1` modulo `n`.
pub open spec fn squares_avoid_minus_one(x: nat, n: nat, count: nat) -> bool
    decreases count,
{
    if count == 0 {
        true
    } else {
        x != n - 1 && squares_avoid_minus_one((x * x) % n, n, (count - 1) as nat)
    }
}

/// Repeated squaring computes the power.
pub proof fn lemma_pow_mod_by_squaring(a: nat, e: nat, n: nat)
    requires
        n > 0,
    ensures
        pow_mod_by_squaring(a, e, n) == pow_mod(a, e, n),
    decreases e,
{
    if e == 0 {
        lemma_pow0(a as int);
    } else {
        let h: nat = e / 2;
        lemma_pow_mod_by_squaring(a, h, n);
        let p = vstd::arithmetic::power::pow(a as int, h);
        let full = vstd::arithmetic::power::pow(a as int, 2 * h);
        assert(full == p * p) by {
            lemma_pow_adds(a as int, h, h);
        }
        lemma_mod_bound(p, n as int);
        lemma_mul_mod_noop(p, p, n as int);
        if e % 2 == 1 {
            assert(vstd::arithmetic::power::pow(a as int, e) == full * a) by {
                lemma_pow_adds(a as int, 2 * h, 1);
                lemma_pow1(a as int);
            }
            lemma_mul_mod_noop_left(full, a as int, n as int);
            lemma_mod_bound(full, n as int);
        }
    }
}

/// Where the squares of a power avoid `n - 1`, so do the powers with the
/// doubled exponents.
proof fn lemma_squares_are_powers(a: nat, d: nat, n: nat, from: nat, count: nat)
    requires
        n > 0,
        squares_avoid_minus_one(pow_mod(a, d * pow2(from), n), n, count),
    ensures
        forall|r: nat| from <= r < from + count ==> #[trigger] pow_mod(a, d * pow2(r), n) != n - 1,
    decreases count,
{
    if count > 0 {
        let e = d * pow2(from);
        let x = pow_mod(a, e, n);
        lemma_pow2_unfold(from + 1);
        assert(2 * e == d * pow2(from + 1)) by (nonlinear_arith)
            requires
                e == d * pow2(from),
                pow2(from + 1) == 2 * pow2(from),
        ;
        let p = vstd::arithmetic::power::pow(a as int, e);
        assert(pow_mod(a, 2 * e, n) == (x * x) % n) by {
            lemma_pow_adds(a as int, e, e);
            lemma_mod_bound(p, n as int);
            lemma_mul_mod_noop(p, p, n as int);
        }
        lemma_squares_are_powers(a, d, n, from + 1, (count - 1) as nat);
        assert forall|r: nat| from <= r < from + count implies #[trigger] pow_mod(
            a,
            d * pow2(r),
            n,
        ) != n - 1 by {
            if r > from {
                assert(from + 1 <= r < from + 1 + (count - 1));
            }
        }
    }
}

/// A number `n` with `n - 1 = d * 2^s` and `d` odd is no strong probable
/// prime to the base `a` if `a^d` is not 1 and none of the first `s` of
/// `a^d`, `a^(2d)`, `a^(4d)`, ... is `n - 1` modulo `n`.
pub proof fn lemma_refuted(n: nat, a: nat, d: nat, s: nat)
    requires
        n > 1,
        n - 1 == pow2(s) * d,
        d % 2 == 1,
        pow_mod_by_squaring(a, d, n) != 1,
        squares_avoid_minus_one(pow_mod_by_squaring(a, d, n), n, s),
    ensures
        !strong_probable_prime(n, a),
{
    lemma_two_adic_decomposition((n - 1) as nat, s, d);
    lemma_pow_mod_by_squaring(a, d, n);
    lemma2_to64();
    assert(d * pow2(0) == d) by (nonlinear_arith)
        requires
            pow2(0) == 1,
    ;
    lemma_squares_are_powers(a, d, n, 0, s);
}

/// One round of repeated squaring.
pub proof fn lemma_squaring_step(a: nat, e: nat, n: nat, half: nat)
    requires
        n > 0,
        e > 0,
        pow_mod_by_squaring(a, e / 2, n) == half,
    ensures
        pow_mod_by_squaring(a, e, n) == (if e % 2 == 1 {
            (((half * half) % n) * a) % n
        } else {
            (half * half) % n
        }),
{
}

/// A number other than `n - 1` avoids it.
pub proof fn lemma_avoiding_first(x: nat, n: nat)
    requires
        n > 0,
        x != n - 1,
    ensures
        squares_avoid_minus_one(x, n, 1),
{
    assert(squares_avoid_minus_one((x * x) % n, n, 0));
}

/// A number `n` with `n - 1 = d * 2^s` and `d` odd is no strong probable
/// prime to the base `a` if `a^d` is `x` modulo `n`, `x` is not 1, and none
/// of the first `s` of `x`, `x^2`, `x^4`, ... is `n - 1` modulo `n`.
pub proof fn lemma_refuted_from(n: nat, a: nat, d: nat, s: nat, x: nat)
    requires
        n > 1,
        n - 1 == pow2(s) * d,
        d % 2 == 1,
        pow_mod_by_squaring(a, d, n) == x,
        x != 1,
        squares_avoid_minus_one(x, n, s),
    ensures
        !strong_probable_prime(n, a),
{
    lemma_refuted(n, a, d, s);
}

/// One more square that avoids `n - 1`.
pub proof fn lemma_avoiding_step(x: nat, n: nat, count: nat)
    requires
        n > 0,
        count > 0,
        x != n - 1,
        squares_avoid_minus_one((x * x) % n, n, (count - 1) as nat),
    ensures
        squares_avoid_minus_one(x, n, count),
{
}

/// Whether `q` is one of the primes from 37 to 270.
pub open spec fn prime_from_37_to_270(q: nat) -> bool {
    ||| q == 37
    ||| q == 41
    ||| q == 43
    ||| q == 47
    ||| q == 53
    ||| q == 59
    ||| q == 61
    ||| q == 67
    ||| q == 71
    ||| q == 73
    ||| q == 79
    ||| q == 83
    ||| q == 89
    ||| q == 97
    ||| q == 101
    ||| q == 103
    ||| q == 107
    ||| q == 109
    ||| q == 113
    ||| q == 127
    ||| q == 131
    ||| q == 137
    ||| q == 139
    ||| q == 149
    ||| q == 151
    ||| q == 157
    ||| q == 163
    ||| q == 167
    ||| q == 173
    ||| q == 179
    ||| q == 181
    ||| q == 191
    ||| q == 193
    ||| q == 197
    ||| q == 199
    ||| q == 211
    ||| q == 223
    ||| q == 227
    ||| q == 229
    ||| q == 233
    ||| q == 239
    ||| q == 241
    ||| q == 251
    ||| q == 257
    ||| q == 263
    ||| q == 269
}

/// A number from 37 to 270 that no prime of the witness set divides is
/// prime: every composite number up to 270 has a prime factor up to 13.
pub proof fn lemma_cofactors(q: nat)
    requires
        37 <= q <= 270,
        !has_small_factor(q),
    ensures
        prime_from_37_to_270(q),
{
    assert(q % witness(0) != 0);
    assert(q % witness(1) != 0);
    assert(q % witness(2) != 0);
    assert(q % witness(3) != 0);
    assert(q % witness(4) != 0);
    assert(q % witness(5) != 0);
    let turn = q / 30;
    let spoke = q % 30;
    assert(1 <= turn <= 9);
    assert(spoke == 1 || spoke == 7 || spoke == 11 || spoke == 13 || spoke == 17 || spoke == 19
        || spoke == 23 || spoke == 29);
    assert(q != 49);
    assert(q != 77);
    assert(q != 91);
    assert(q != 119);
    assert(q != 121);
    assert(q != 133);
    assert(q != 143);
    assert(q != 161);
    assert(q != 169);
    assert(q != 187);
    assert(q != 203);
    assert(q != 209);
    assert(q != 217);
    assert(q != 221);
    assert(q != 247);
    assert(q != 253);
    assert(q != 259);
}

/// A composite number up to 10000 that no prime of the witness set divides
/// is no strong probable prime to both of the bases 2 and 3.
pub proof fn lemma_composite_is_refuted(n: nat)
    requires
        2 <= n <= 10000,
        !prime(n),
        !has_small_factor(n),
    ensures
        !strong_probable_prime(n, 2) || !strong_probable_prime(n, 3),
{
    let e = choose|e: nat| 1 < e < n && #[trigger] divides(e, n);
    lemma_divides_quotient(e, n);
    let f = n / e;
    assert(f >= 2 && (e * e <= n || f * f <= n)) by (nonlinear_arith)
        requires
            n == e * f,
            1 < e < n,
    ;
    lemma_multiple_divides(f, e);
    assert(n == f * e) by (nonlinear_arith)
        requires
            n == e * f,
    ;
    let d = if e * e <= n {
        e
    } else {
        f
    };
    let q = n / d;
    lemma_divides_quotient(d, n);
    lemma_multiple_divides(q, d);
    assert(n == q * d) by (nonlinear_arith)
        requires
            n == d * q,
    ;
    assert(d <= 100 && q <= 5000 && q >= d) by (nonlinear_arith)
        requires
            d * d <= n,
            n == d * q,
            n <= 10000,
            d >= 2,
    ;
    lemma_no_small_factor_of_divisor(d, n);
    lemma_no_small_factor_of_divisor(q, n);
    if d <= 36 {
        lemma_small_numbers_have_small_factors(d);
    }
    assert(q <= 270) by (nonlinear_arith)
        requires
            n == d * q,
            n <= 10000,
            d >= 37,
    ;
    lemma_cofactors(d);
    lemma_cofactors(q);
    if d == 37 {
        from_37::lemma_products_of_37(q);
    } else if d == 41 {
        from_41::lemma_products_of_41(q);
    } else if d == 43 {
        from_43::lemma_products_of_43(q);
    } else if d == 47 {
        from_47::lemma_products_of_47(q);
    } else if d == 53 {
        from_53::lemma_products_of_53(q);
    } else if d == 59 {
        from_59::lemma_products_of_59(q);
    } else if d == 61 {
        from_61::lemma_products_of_61(q);
    } else if d == 67 {
        from_67::lemma_products_of_67(q);
    } else if d == 71 {
        from_71::lemma_products_of_71(q);
    } else if d == 73 {
        from_73::lemma_products_of_73(q);
    } else if d == 79 {
        from_79::lemma_products_of_79(q);
    } else if d == 83 {
        from_83::lemma_products_of_83(q);
    } else if d == 89 {
        from_89::lemma_products_of_89(q);
    } else if d == 97 {
        from_97::lemma_products_of_97(q);
    }
}

/// A divisor of a number that no prime of the witness set divides has no
/// divisor in the witness set either.
proof fn lemma_no_small_factor_of_divisor(d: nat, n: nat)
    requires
        divides(d, n),
        !has_small_factor(n),
    ensures
        !has_small_factor(d),
{
    if has_small_factor(d) {
        let i = choose|i: int| 0 <= i < 11 && d % #[trigger] witness(i) == 0;
        lemma_divides_transitive(witness(i), d, n);
        assert(n % witness(i) == 0);
    }
}

} // verus!
