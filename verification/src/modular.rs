//! Overflow-safe modular arithmetic on 128-bit magnitudes.

use vstd::arithmetic::div_mod::*;
use vstd::arithmetic::mul::*;
use vstd::arithmetic::power::*;
use vstd::arithmetic::power2::*;
use vstd::bits::*;
use vstd::prelude::*;

use crate::number_theory::{
    gcd_nat, is_gcd, lemma_divisor_le, lemma_gcd_base, lemma_gcd_nat_is_gcd, lemma_gcd_pow2_both,
    lemma_gcd_pow2_left, lemma_gcd_subtract, lemma_gcd_symmetric, lemma_gcd_unique,
};

verus! {

/// The distance between `x` and `y`.
pub open spec fn abs_diff(x: int, y: int) -> int {
    if x < y {
        y - x
    } else {
        x - y
    }
}

/// `base` raised to `exponent`, reduced modulo `modulus`.
pub open spec fn pow_mod(base: nat, exponent: nat, modulus: nat) -> nat {
    (vstd::arithmetic::power::pow(base as int, exponent) % (modulus as int)) as nat
}

/// Absolute difference of two magnitudes: the larger minus the smaller.
pub fn abs(x: u128, y: u128) -> (r: u128)
    ensures
        r == abs_diff(x as int, y as int),
{
    if x < y {
        y - x
    } else {
        x - y
    }
}

/// Sum of two residues modulo `m`, computed without leaving 128 bits.
pub fn add_mod(a: u128, b: u128, m: u128) -> (r: u128)
    requires
        a < m,
        b < m,
    ensures
        r == (a + b) % (m as int),
{
    if a >= m - b {
        let r: u128 = a - (m - b);
        assert(r == (a + b) % (m as int)) by {
            lemma_fundamental_div_mod_converse(a + b, m as int, 1, r as int);
        }
        r
    } else {
        let r: u128 = a + b;
        assert(r == (a + b) % (m as int)) by {
            lemma_small_mod((a + b) as nat, m as nat);
        }
        r
    }
}

/// One round of double-and-add keeps `acc + x * y` in its residue class.
proof fn lemma_double_and_add_step(acc: int, x: int, y: int, m: int)
    requires
        m > 0,
        y > 0,
    ensures
        ((acc + (y % 2) * x) % m + ((x + x) % m) * (y / 2)) % m == (acc + x * y) % m,
{
    let bit = y % 2;
    let half = y / 2;
    let head = acc + bit * x;
    let tail = (x + x) * half;
    let tail_reduced = ((x + x) % m) * half;
    assert(x * y == bit * x + tail) by (nonlinear_arith)
        requires
            y == 2 * half + bit,
            tail == (x + x) * half,
    ;
    lemma_mul_mod_noop_left(x + x, half, m);
    lemma_add_mod_noop_right(tail_reduced, head, m);
    lemma_add_mod_noop_right(head, tail_reduced, m);
    lemma_add_mod_noop_right(head, tail, m);
}

/// `(a * b) mod m`, exact even where `a * b` does not fit in 128 bits.
///
/// The product is taken directly when it fits. Otherwise `b` is halved step
/// by step while `a mod m` is doubled, and the doubled value is added to the
/// result for every set bit of `b`, each sum reduced modulo `m`.
pub fn mul_mod(a: u128, b: u128, m: u128) -> (r: u128)
    requires
        m > 0,
    ensures
        r == (a as int * b as int) % (m as int),
{
    match a.checked_mul(b) {
        Some(val) => val % m,
        None => {
            let mut result: u128 = 0;
            let mut x: u128 = a % m;
            let mut y: u128 = b % m;
            proof {
                lemma_mul_mod_noop(a as int, b as int, m as int);
            }
            while y > 0
                invariant
                    m > 0,
                    x < m,
                    result < m,
                    (result + x * y) % (m as int) == (a as int * b as int) % (m as int),
                decreases y,
            {
                proof {
                    lemma_double_and_add_step(result as int, x as int, y as int, m as int);
                    if y % 2 == 1 {
                        assert((y % 2) * x == x) by (nonlinear_arith)
                            requires
                                y % 2 == 1,
                        ;
                    } else {
                        assert((y % 2) * x == 0) by (nonlinear_arith)
                            requires
                                y % 2 == 0,
                        ;
                        lemma_small_mod(result as nat, m as nat);
                    }
                }
                if y % 2 == 1 {
                    result = add_mod(result, x, m);
                }
                x = add_mod(x, x, m);
                y = y / 2;
            }
            proof {
                lemma_small_mod(result as nat, m as nat);
            }
            result
        },
    }
}

/// Halving the exponent while squaring the base keeps `acc * base^exponent`
/// in its residue class.
proof fn lemma_square_and_multiply_step(acc: int, b: int, e: nat, m: int)
    requires
        m > 0,
        e > 0,
    ensures
        ((if e % 2 == 1 {
            (acc * b) % m
        } else {
            acc
        }) * vstd::arithmetic::power::pow((b * b) % m, e / 2)) % m == (acc
            * vstd::arithmetic::power::pow(b, e)) % m,
{
    let half: nat = e / 2;
    let squares = vstd::arithmetic::power::pow(b * b, half);
    let squares_reduced = vstd::arithmetic::power::pow((b * b) % m, half);
    let head = if e % 2 == 1 {
        acc * b
    } else {
        acc
    };
    assert(vstd::arithmetic::power::pow(b, 2 * half) == squares) by {
        lemma_square_is_pow2(b);
        lemma_pow_multiplies(b, 2, half);
    }
    assert(acc * vstd::arithmetic::power::pow(b, e) == head * squares) by {
        if e % 2 == 1 {
            lemma_pow_adds(b, 2 * half, 1);
            lemma_pow1(b);
            lemma_mul_is_associative(acc, b, squares);
            lemma_mul_is_commutative(b, squares);
        }
    }
    lemma_pow_mod_noop(b * b, half, m);
    lemma_mul_mod_noop_right(head, squares_reduced, m);
    lemma_mul_mod_noop_right(head, squares, m);
    if e % 2 == 1 {
        lemma_mul_mod_noop_left(head, squares_reduced, m);
    }
}

/// Modular exponentiation by square-and-multiply: `base^exponent mod modulus`.
///
/// The base is reduced modulo `modulus` first. With `modulus == 1` the
/// result is 0, whatever the base and the exponent.
pub fn pow(base: u128, exponent: u128, modulus: u128) -> (r: u128)
    requires
        modulus > 0,
    ensures
        r == pow_mod(base as nat, exponent as nat, modulus as nat),
        modulus == 1 ==> r == 0,
{
    if modulus == 1 {
        return 0;
    }
    let mut result: u128 = 1;
    let mut b: u128 = base % modulus;
    let mut e: u128 = exponent;
    proof {
        lemma_pow_mod_noop(base as int, exponent as nat, modulus as int);
        lemma_mul_basics(vstd::arithmetic::power::pow(b as int, e as nat));
    }
    while e > 0
        invariant
            modulus > 1,
            result < modulus,
            b < modulus,
            (result * vstd::arithmetic::power::pow(b as int, e as nat)) % (modulus as int)
                == vstd::arithmetic::power::pow(base as int, exponent as nat) % (modulus as int),
        decreases e,
    {
        proof {
            lemma_square_and_multiply_step(result as int, b as int, e as nat, modulus as int);
            assert(e >> 1 == e / 2) by (bit_vector);
        }
        if e % 2 == 1 {
            result = mul_mod(result, b, modulus);
        }
        b = mul_mod(b, b, modulus);
        e = e >> 1;
    }
    proof {
        lemma_pow0(b as int);
        lemma_small_mod(result as nat, modulus as nat);
    }
    result
}

/// `u128::trailing_zeros` counts the zero bits below the lowest set bit:
/// for a nonzero `x` it is the exponent of the largest power of two that
/// divides `x`, so the quotient by that power is odd; for 0 it is 128.
pub assume_specification[ u128::trailing_zeros ](x: u128) -> (r: u32)
    ensures
        x == 0 ==> r == 128,
        x != 0 ==> r < 128 && (x as nat) % pow2(r as nat) == 0 && ((x as nat) / pow2(r as nat)) % 2
            == 1,
;

/// Removes every factor of two from a nonzero magnitude.
pub fn odd_part(x: u128) -> (r: (u128, u32))
    requires
        x != 0,
    ensures
        r.1 < 128,
        r.0 % 2 == 1,
        x == pow2(r.1 as nat) * r.0,
{
    let t: u32 = x.trailing_zeros();
    let shift: u128 = t as u128;
    proof {
        lemma_u128_shr_is_div(x, shift);
        lemma_pow2_pos(t as nat);
        lemma_fundamental_div_mod(x as int, pow2(t as nat) as int);
    }
    (x >> shift, t)
}

/// Shifting left by `shift` bits multiplies by `2^shift` while the product
/// fits in 128 bits.
proof fn lemma_shl_is_mul(x: u128, shift: u128)
    requires
        shift < 128,
        x * pow2(shift as nat) <= u128::MAX,
    ensures
        x << shift == x * pow2(shift as nat),
    decreases shift,
{
    if shift == 0 {
        lemma2_to64();
        assert(x << 0 == x) by (bit_vector);
    } else {
        let prev: u128 = (shift - 1) as u128;
        lemma_pow2_unfold(shift as nat);
        assert(x * pow2(shift as nat) == 2 * (x * pow2(prev as nat))) by (nonlinear_arith)
            requires
                pow2(shift as nat) == 2 * pow2(prev as nat),
        ;
        lemma_shl_is_mul(x, prev);
        assert((x << prev) * 2 <= u128::MAX ==> x << shift == (x << prev) * 2) by (bit_vector)
            requires
                prev + 1 == shift,
                shift < 128,
        ;
    }
}

/// Greatest common divisor by the binary method.
///
/// The factors of two are stripped from both arguments with trailing-zero
/// shifts; the smaller odd value is then subtracted from the larger, which
/// is stripped again, until both are equal, and the factors of two that the
/// arguments shared are put back.
pub fn gcd(a: u128, b: u128) -> (r: u128)
    ensures
        is_gcd(r as nat, a as nat, b as nat),
        r == gcd_nat(a as nat, b as nat),
        a == 0 ==> r == b,
        b == 0 ==> r == a,
        a == b ==> r == a,
{
    proof {
        lemma_gcd_base(a as nat);
        lemma_gcd_base(b as nat);
        lemma_gcd_nat_is_gcd(a as nat, b as nat);
        if a == 0 {
            lemma_gcd_unique(b as nat, gcd_nat(a as nat, b as nat), a as nat, b as nat);
        }
        if b == 0 {
            lemma_gcd_unique(a as nat, gcd_nat(a as nat, b as nat), a as nat, b as nat);
        }
    }
    if a == 0 {
        return b;
    }
    if b == 0 {
        return a;
    }
    let (x0, i) = odd_part(a);
    let (y0, j) = odd_part(b);
    let shift: u32 = if i < j {
        i
    } else {
        j
    };
    let mut x: u128 = x0;
    let mut y: u128 = y0;
    while x != y
        invariant
            x % 2 == 1,
            y % 2 == 1,
            forall|g: nat| is_gcd(g, x as nat, y as nat) ==> is_gcd(g, x0 as nat, y0 as nat),
        decreases x + y,
    {
        let ghost px = x;
        let ghost py = y;
        if x > y {
            let (stripped, t) = odd_part(x - y);
            x = stripped;
            proof {
                lemma_pow2_pos(t as nat);
                assert(x <= px - py) by (nonlinear_arith)
                    requires
                        px - py == pow2(t as nat) * x,
                        pow2(t as nat) > 0,
                ;
                assert forall|g: nat| is_gcd(g, x as nat, y as nat) implies is_gcd(
                    g,
                    x0 as nat,
                    y0 as nat,
                ) by {
                    lemma_gcd_pow2_left(g, x as nat, y as nat, t as nat);
                    lemma_gcd_subtract(g, px as nat, py as nat);
                }
            }
        } else {
            let (stripped, t) = odd_part(y - x);
            y = stripped;
            proof {
                lemma_pow2_pos(t as nat);
                assert(y <= py - px) by (nonlinear_arith)
                    requires
                        py - px == pow2(t as nat) * y,
                        pow2(t as nat) > 0,
                ;
                assert forall|g: nat| is_gcd(g, x as nat, y as nat) implies is_gcd(
                    g,
                    x0 as nat,
                    y0 as nat,
                ) by {
                    lemma_gcd_symmetric(g, x as nat, y as nat);
                    lemma_gcd_pow2_left(g, y as nat, x as nat, t as nat);
                    lemma_gcd_subtract(g, py as nat, px as nat);
                    lemma_gcd_symmetric(g, py as nat, px as nat);
                }
            }
        }
    }
    proof {
        let g = x as nat;
        let k = shift as nat;
        lemma_gcd_base(g);
        assert(is_gcd(g, x0 as nat, y0 as nat));
        if i <= j {
            let rest = (j - i) as nat;
            lemma_gcd_symmetric(g, x0 as nat, y0 as nat);
            lemma_gcd_pow2_left(g, y0 as nat, x0 as nat, rest);
            lemma_gcd_symmetric(g, pow2(rest) * (y0 as nat), x0 as nat);
            lemma_gcd_pow2_both(g, x0 as nat, pow2(rest) * (y0 as nat), k);
            lemma_pow2_adds(k, rest);
            lemma_mul_is_associative(pow2(k) as int, pow2(rest) as int, y0 as int);
        } else {
            let rest = (i - j) as nat;
            lemma_gcd_pow2_left(g, x0 as nat, y0 as nat, rest);
            lemma_gcd_pow2_both(g, pow2(rest) * (x0 as nat), y0 as nat, k);
            lemma_pow2_adds(k, rest);
            lemma_mul_is_associative(pow2(k) as int, pow2(rest) as int, x0 as int);
        }
        assert(is_gcd(pow2(k) * g, a as nat, b as nat));
        lemma_divisor_le(pow2(k) * g, a as nat);
        lemma_mul_is_commutative(pow2(k) as int, g as int);
        lemma_shl_is_mul(x, shift as u128);
        if a == b {
            lemma_gcd_unique(pow2(k) * g, a as nat, a as nat, a as nat);
        }
        lemma_gcd_unique(pow2(k) * g, gcd_nat(a as nat, b as nat), a as nat, b as nat);
    }
    x << (shift as u128)
}

} // verus!
