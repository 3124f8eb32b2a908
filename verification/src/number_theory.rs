//! Divisibility, greatest common divisors and primes over the natural
//! numbers: the vocabulary in which the arithmetic functions are specified.

use vstd::arithmetic::div_mod::*;
use vstd::arithmetic::mul::*;
use vstd::arithmetic::power2::*;
use vstd::prelude::*;

verus! {

/// `d` divides `n`: `d` is positive and `n` is a multiple of it.
pub open spec fn divides(d: nat, n: nat) -> bool {
    d > 0 && n % d == 0
}

/// `d` divides both `a` and `b`.
pub open spec fn common_divisor(d: nat, a: nat, b: nat) -> bool {
    divides(d, a) && divides(d, b)
}

/// `g` is the greatest common divisor of `a` and `b`: the largest number
/// that divides both, and 0 when both are 0.
pub open spec fn is_gcd(g: nat, a: nat, b: nat) -> bool {
    if a == 0 && b == 0 {
        g == 0
    } else {
        &&& common_divisor(g, a, b)
        &&& forall|d: nat| #[trigger] common_divisor(d, a, b) ==> d <= g
    }
}

/// `n` is prime: at least 2, with no divisor strictly between 1 and itself.
pub open spec fn prime(n: nat) -> bool {
    n >= 2 && forall|d: nat| 1 < d < n ==> !#[trigger] divides(d, n)
}

/// A multiple of `d` is divisible by `d`.
pub proof fn lemma_multiple_divides(d: nat, k: nat)
    requires
        d > 0,
    ensures
        divides(d, d * k),
        divides(d, k * d),
{
    lemma_mod_multiples_basic(k as int, d as int);
    lemma_mul_is_commutative(d as int, k as int);
}

/// A number divisible by `d` is `d` times its quotient by `d`.
pub proof fn lemma_divides_quotient(d: nat, n: nat)
    requires
        divides(d, n),
    ensures
        n == d * (n / d),
{
    lemma_fundamental_div_mod(n as int, d as int);
}

/// A divisor of a positive number is not larger than it.
pub proof fn lemma_divisor_le(d: nat, n: nat)
    requires
        divides(d, n),
        n > 0,
    ensures
        d <= n,
{
    if d > n {
        lemma_small_mod(n, d);
    }
}

/// Divisibility is transitive.
pub proof fn lemma_divides_transitive(a: nat, b: nat, c: nat)
    requires
        divides(a, b),
        divides(b, c),
    ensures
        divides(a, c),
{
    lemma_divides_quotient(a, b);
    lemma_divides_quotient(b, c);
    let p = b / a;
    let q = c / b;
    assert(c == a * (p * q)) by (nonlinear_arith)
        requires
            b == a * p,
            c == b * q,
    ;
    lemma_multiple_divides(a, p * q);
}

/// A common divisor of two numbers divides their sum.
pub proof fn lemma_divides_sum(d: nat, a: nat, b: nat)
    requires
        divides(d, a),
        divides(d, b),
    ensures
        divides(d, a + b),
{
    lemma_divides_quotient(d, a);
    lemma_divides_quotient(d, b);
    let p = a / d;
    let q = b / d;
    assert(a + b == d * (p + q)) by (nonlinear_arith)
        requires
            a == d * p,
            b == d * q,
    ;
    lemma_multiple_divides(d, p + q);
}

/// A common divisor of two numbers divides their difference.
pub proof fn lemma_divides_difference(d: nat, a: nat, b: nat)
    requires
        divides(d, a),
        divides(d, b),
        a >= b,
    ensures
        divides(d, (a - b) as nat),
{
    lemma_divides_quotient(d, a);
    lemma_divides_quotient(d, b);
    let p = a / d;
    let q = b / d;
    assert(p >= q && a - b == d * (p - q)) by (nonlinear_arith)
        requires
            a == d * p,
            b == d * q,
            a >= b,
            d > 0,
    ;
    lemma_multiple_divides(d, (p - q) as nat);
}

/// An odd divisor of `2 * a` divides `a`.
pub proof fn lemma_odd_divisor_of_double(d: nat, a: nat)
    requires
        d % 2 == 1,
        divides(d, 2 * a),
    ensures
        divides(d, a),
{
    lemma_divides_quotient(d, 2 * a);
    let q = (2 * a) / d;
    let dh = d / 2;
    let qh = q / 2;
    let r = q % 2;
    assert(d * q == 2 * (2 * dh * qh + dh * r + qh) + r) by (nonlinear_arith)
        requires
            d == 2 * dh + 1,
            q == 2 * qh + r,
    ;
    let h = q / 2;
    assert(a == d * h) by (nonlinear_arith)
        requires
            2 * a == d * q,
            q == 2 * h,
    ;
    lemma_multiple_divides(d, h);
}

/// Halving a common even factor: if `2 * e` divides `2 * a` then `e` divides `a`.
pub proof fn lemma_halve_divisor(e: nat, a: nat)
    requires
        divides(2 * e, 2 * a),
    ensures
        divides(e, a),
{
    lemma_divides_quotient(2 * e, 2 * a);
    let q = (2 * a) / (2 * e);
    assert(a == e * q) by (nonlinear_arith)
        requires
            2 * a == (2 * e) * q,
    ;
    lemma_multiple_divides(e, q);
}

/// Every divisor of an odd number is odd.
pub proof fn lemma_divisor_of_odd(d: nat, b: nat)
    requires
        b % 2 == 1,
        divides(d, b),
    ensures
        d % 2 == 1,
{
    lemma_divides_quotient(d, b);
    let q = b / d;
    let dh = d / 2;
    if d % 2 == 0 {
        assert(d * q == 2 * (dh * q)) by (nonlinear_arith)
            requires
                d == 2 * dh,
        ;
    }
}

/// Two numbers have at most one greatest common divisor.
pub proof fn lemma_gcd_unique(g: nat, h: nat, a: nat, b: nat)
    requires
        is_gcd(g, a, b),
        is_gcd(h, a, b),
    ensures
        g == h,
{
    if !(a == 0 && b == 0) {
        assert(common_divisor(g, a, b));
        assert(common_divisor(h, a, b));
    }
}

/// The greatest common divisor does not depend on the order of its arguments.
pub proof fn lemma_gcd_symmetric(g: nat, a: nat, b: nat)
    requires
        is_gcd(g, a, b),
    ensures
        is_gcd(g, b, a),
{
    if !(a == 0 && b == 0) {
        assert forall|d: nat| #[trigger] common_divisor(d, b, a) implies d <= g by {
            assert(common_divisor(d, a, b));
        }
    }
}

/// The greatest common divisor of a positive number and 0 is that number,
/// and so is the one of the number and itself.
pub proof fn lemma_gcd_base(a: nat)
    ensures
        is_gcd(a, a, 0),
        is_gcd(a, 0, a),
        is_gcd(a, a, a),
{
    if a > 0 {
        lemma_mod_self_0(a as int);
        assert forall|d: nat| #[trigger] common_divisor(d, a, 0) implies d <= a by {
            lemma_divisor_le(d, a);
        }
        assert forall|d: nat| #[trigger] common_divisor(d, 0, a) implies d <= a by {
            lemma_divisor_le(d, a);
        }
        assert forall|d: nat| #[trigger] common_divisor(d, a, a) implies d <= a by {
            lemma_divisor_le(d, a);
        }
    }
}

/// Subtracting one argument from the other keeps the greatest common divisor.
pub proof fn lemma_gcd_subtract(g: nat, a: nat, b: nat)
    requires
        a >= b,
        is_gcd(g, (a - b) as nat, b),
    ensures
        is_gcd(g, a, b),
{
    let c = (a - b) as nat;
    if c == 0 && b == 0 {
    } else {
        lemma_divides_sum(g, c, b);
        assert forall|d: nat| #[trigger] common_divisor(d, a, b) implies d <= g by {
            lemma_divides_difference(d, a, b);
            assert(common_divisor(d, c, b));
        }
    }
}

/// Doubling one argument keeps the greatest common divisor when the other is odd.
pub proof fn lemma_gcd_double_left(g: nat, a: nat, b: nat)
    requires
        b % 2 == 1,
        is_gcd(g, a, b),
    ensures
        is_gcd(g, 2 * a, b),
{
    lemma_divides_quotient(g, a);
    assert(2 * a == g * (2 * (a / g))) by (nonlinear_arith)
        requires
            a == g * (a / g),
    ;
    lemma_multiple_divides(g, 2 * (a / g));
    assert forall|d: nat| #[trigger] common_divisor(d, 2 * a, b) implies d <= g by {
        lemma_divisor_of_odd(d, b);
        lemma_odd_divisor_of_double(d, a);
        assert(common_divisor(d, a, b));
    }
}

/// Doubling both arguments doubles the greatest common divisor.
pub proof fn lemma_gcd_double_both(g: nat, a: nat, b: nat)
    requires
        is_gcd(g, a, b),
    ensures
        is_gcd(2 * g, 2 * a, 2 * b),
{
    if a == 0 && b == 0 {
    } else {
        lemma_divides_quotient(g, a);
        lemma_divides_quotient(g, b);
        assert(2 * a == (2 * g) * (a / g)) by (nonlinear_arith)
            requires
                a == g * (a / g),
        ;
        assert(2 * b == (2 * g) * (b / g)) by (nonlinear_arith)
            requires
                b == g * (b / g),
        ;
        lemma_multiple_divides(2 * g, a / g);
        lemma_multiple_divides(2 * g, b / g);
        assert forall|d: nat| #[trigger] common_divisor(d, 2 * a, 2 * b) implies d <= 2 * g by {
            if d % 2 == 1 {
                lemma_odd_divisor_of_double(d, a);
                lemma_odd_divisor_of_double(d, b);
                assert(common_divisor(d, a, b));
            } else {
                let e = d / 2;
                assert(d == 2 * e);
                lemma_halve_divisor(e, a);
                lemma_halve_divisor(e, b);
                assert(common_divisor(e, a, b));
            }
        }
    }
}

/// Multiplying one argument by a power of two keeps the greatest common
/// divisor when the other is odd.
pub proof fn lemma_gcd_pow2_left(g: nat, a: nat, b: nat, t: nat)
    requires
        b % 2 == 1,
        is_gcd(g, a, b),
    ensures
        is_gcd(g, pow2(t) * a, b),
    decreases t,
{
    if t == 0 {
        lemma2_to64();
        assert(pow2(0) * a == a);
    } else {
        lemma_gcd_pow2_left(g, a, b, (t - 1) as nat);
        lemma_gcd_double_left(g, pow2((t - 1) as nat) * a, b);
        lemma_pow2_unfold(t);
        assert(2 * (pow2((t - 1) as nat) * a) == pow2(t) * a) by (nonlinear_arith)
            requires
                pow2(t) == 2 * pow2((t - 1) as nat),
        ;
    }
}

/// Multiplying both arguments by a power of two multiplies the greatest
/// common divisor by it.
pub proof fn lemma_gcd_pow2_both(g: nat, a: nat, b: nat, k: nat)
    requires
        is_gcd(g, a, b),
    ensures
        is_gcd(pow2(k) * g, pow2(k) * a, pow2(k) * b),
    decreases k,
{
    if k == 0 {
        lemma2_to64();
        assert(pow2(0) * a == a);
        assert(pow2(0) * b == b);
        assert(pow2(0) * g == g);
    } else {
        let h = pow2((k - 1) as nat);
        lemma_gcd_pow2_both(g, a, b, (k - 1) as nat);
        lemma_gcd_double_both(h * g, h * a, h * b);
        lemma_pow2_unfold(k);
        assert(2 * (h * a) == pow2(k) * a && 2 * (h * b) == pow2(k) * b && 2 * (h * g) == pow2(k)
            * g) by (nonlinear_arith)
            requires
                pow2(k) == 2 * h,
        ;
    }
}

/// The greatest common divisor as Euclid computes it.
pub open spec fn gcd_nat(a: nat, b: nat) -> nat
    decreases b,
{
    if b == 0 {
        a
    } else {
        gcd_nat(b, a % b)
    }
}

/// Bezout's identity: the greatest common divisor of `a` and `b` is an
/// integer combination of them. The coefficients are returned.
pub proof fn lemma_bezout(a: nat, b: nat) -> (c: (int, int))
    ensures
        a * c.0 + b * c.1 == gcd_nat(a, b),
    decreases b,
{
    if b == 0 {
        (1, 0)
    } else {
        let (x, y) = lemma_bezout(b, a % b);
        let q = (a / b) as int;
        let r = (a % b) as int;
        lemma_fundamental_div_mod(a as int, b as int);
        assert(a * y + b * (x - q * y) == b * x + r * y) by (nonlinear_arith)
            requires
                a == b * q + r,
        ;
        (y, x - q * y)
    }
}

/// Euclid's value divides both arguments.
pub proof fn lemma_gcd_nat_divides(a: nat, b: nat)
    requires
        a > 0 || b > 0,
    ensures
        common_divisor(gcd_nat(a, b), a, b),
    decreases b,
{
    if b == 0 {
        lemma_mod_self_0(a as int);
    } else {
        let g = gcd_nat(b, a % b);
        lemma_gcd_nat_divides(b, a % b);
        lemma_fundamental_div_mod(a as int, b as int);
        lemma_divides_quotient(g, b);
        lemma_multiple_divides(g, (b / g) * (a / b));
        assert(b * (a / b) == g * ((b / g) * (a / b))) by (nonlinear_arith)
            requires
                b == g * (b / g),
        ;
        lemma_divides_sum(g, b * (a / b), a % b);
    }
}

/// A common divisor of two numbers divides every integer combination of
/// them that is not negative.
pub proof fn lemma_divides_combination(d: nat, a: nat, b: nat, x: int, y: int)
    requires
        common_divisor(d, a, b),
        a * x + b * y >= 0,
    ensures
        (a * x + b * y) % (d as int) == 0,
{
    lemma_divides_quotient(d, a);
    lemma_divides_quotient(d, b);
    let p = (a / d) as int;
    let q = (b / d) as int;
    assert(a * x + b * y == (p * x + q * y) * d) by (nonlinear_arith)
        requires
            a == d * p,
            b == d * q,
    ;
    lemma_mod_multiples_basic(p * x + q * y, d as int);
}

/// Euclid's value is the greatest common divisor, and every common divisor
/// divides it.
pub proof fn lemma_gcd_nat_is_gcd(a: nat, b: nat)
    ensures
        is_gcd(gcd_nat(a, b), a, b),
        forall|d: nat| #[trigger] common_divisor(d, a, b) ==> divides(d, gcd_nat(a, b)),
    decreases b,
{
    let g = gcd_nat(a, b);
    if a == 0 && b == 0 {
    } else {
        lemma_gcd_nat_divides(a, b);
        let (x, y) = lemma_bezout(a, b);
        assert forall|d: nat| #[trigger] common_divisor(d, a, b) implies divides(d, g) && d
            <= g by {
            lemma_divides_combination(d, a, b, x, y);
            lemma_divisor_le(d, g);
        }
    }
}

/// Euclid's lemma: a prime that divides a product divides one of its factors.
pub proof fn lemma_prime_divides_product(p: nat, a: nat, b: nat)
    requires
        prime(p),
        divides(p, a * b),
    ensures
        divides(p, a) || divides(p, b),
{
    if !divides(p, a) {
        let g = gcd_nat(a, p);
        lemma_gcd_nat_divides(a, p);
        lemma_divisor_le(g, p);
        if g == p {
            assert(divides(p, a));
        }
        assert(g == 1) by {
            if g != 1 {
                assert(divides(g, p));
            }
        }
        let (x, y) = lemma_bezout(a, p);
        lemma_divides_quotient(p, a * b);
        let k = ((a * b) / p) as int;
        assert(b == (k * x + b * y) * p) by (nonlinear_arith)
            requires
                a * x + p * y == 1,
                a * b == p * k,
        ;
        lemma_mod_multiples_basic(k * x + b * y, p as int);
    }
}

} // verus!
