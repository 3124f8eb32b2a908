//! The primality oracle: trial division by a fixed set of small primes,
//! then the Miller-Rabin test to each of them as a base.

use vstd::arithmetic::div_mod::*;
use vstd::arithmetic::mul::*;
use vstd::arithmetic::power::*;
use vstd::arithmetic::power2::*;
use vstd::prelude::*;

use crate::modular::{odd_part, pow, pow_mod};

verus! {

/// The witness set: the first eleven primes, in ascending order.
pub const TIP_PRIMES: [u128; 11] = [2, 3, 5, 7, 11, 13, 17, 19, 23, 29, 31];

/// The `i`-th prime of the witness set.
pub open spec fn witness(i: int) -> nat {
    if i == 0 {
        2
    } else if i == 1 {
        3
    } else if i == 2 {
        5
    } else if i == 3 {
        7
    } else if i == 4 {
        11
    } else if i == 5 {
        13
    } else if i == 6 {
        17
    } else if i == 7 {
        19
    } else if i == 8 {
        23
    } else if i == 9 {
        29
    } else {
        31
    }
}

/// How many times 2 divides `m` (0 for 0).
pub open spec fn two_adicity(m: nat) -> nat
    decreases m,
{
    if m == 0 || m % 2 == 1 {
        0
    } else {
        1 + two_adicity(m / 2)
    }
}

/// What is left of `m` once every factor of two is divided out.
pub open spec fn odd_factor(m: nat) -> nat {
    m / pow2(two_adicity(m))
}

/// `n` is a strong probable prime to base `a`: with `n - 1 = d * 2^s` and
/// `d` odd, either `a^d` is 1 modulo `n`, or one of `a^d`, `a^(2d)`, ...,
/// `a^(2^(s-1) d)` is `n - 1` modulo `n`.
pub open spec fn strong_probable_prime(n: nat, a: nat) -> bool {
    let d = odd_factor((n - 1) as nat);
    let s = two_adicity((n - 1) as nat);
    ||| pow_mod(a, d, n) == 1
    ||| exists|r: nat| r < s && #[trigger] pow_mod(a, d * pow2(r), n) == n - 1
}

/// Some prime of the witness set divides `n`.
pub open spec fn has_small_factor(n: nat) -> bool {
    exists|i: int| 0 <= i < 11 && n % #[trigger] witness(i) == 0
}

/// `n` is one of the primes of the witness set.
pub open spec fn is_witness(n: nat) -> bool {
    exists|i: int| 0 <= i < 11 && n == #[trigger] witness(i)
}

/// What the oracle answers for `n`.
///
/// Numbers below 2 are rejected. A number that a prime of the witness set
/// divides is accepted exactly when it is that prime. Any other number is
/// accepted when it is a strong probable prime to every base of the witness
/// set below it.
pub open spec fn probable_prime(n: nat) -> bool {
    if n < 2 {
        false
    } else if has_small_factor(n) {
        is_witness(n)
    } else {
        forall|i: int| 0 <= i < 11 && witness(i) < n ==> strong_probable_prime(n, #[trigger] witness(i))
    }
}

/// The decomposition of a number into a power of two and an odd factor is
/// unique.
pub proof fn lemma_two_adic_decomposition(m: nat, s: nat, d: nat)
    requires
        m == pow2(s) * d,
        d % 2 == 1,
    ensures
        two_adicity(m) == s,
        odd_factor(m) == d,
    decreases s,
{
    lemma_pow2_pos(s);
    lemma_div_by_multiple(d as int, pow2(s) as int);
    lemma_mul_is_commutative(d as int, pow2(s) as int);
    if s == 0 {
        lemma2_to64();
        assert(m == d) by (nonlinear_arith)
            requires
                m == pow2(s) * d,
                pow2(s) == 1,
        ;
    } else {
        let h = pow2((s - 1) as nat);
        lemma_pow2_unfold(s);
        assert(m == 2 * (h * d)) by (nonlinear_arith)
            requires
                m == pow2(s) * d,
                pow2(s) == 2 * h,
        ;
        lemma_pow2_pos((s - 1) as nat);
        assert(h * d > 0) by (nonlinear_arith)
            requires
                h > 0,
                d > 0,
        ;
        lemma_two_adic_decomposition(h * d, (s - 1) as nat, d);
    }
}

/// Squaring a residue of a power doubles the exponent.
proof fn lemma_square_of_power(a: nat, e: nat, n: nat)
    requires
        n > 0,
    ensures
        pow_mod(pow_mod(a, e, n), 2, n) == pow_mod(a, 2 * e, n),
{
    let p = vstd::arithmetic::power::pow(a as int, e);
    lemma_mod_bound(p, n as int);
    lemma_pow_mod_noop(p, 2, n as int);
    lemma_pow_multiplies(a as int, e, 2);
    lemma_mul_is_commutative(e as int, 2);
}

/// Each entry of the witness table is the prime that `witness` names.
proof fn lemma_witness_table()
    ensures
        forall|i: int| 0 <= i < 11 ==> (#[trigger] TIP_PRIMES[i]) == witness(i),
{
}

/// Decides whether `n`, which no prime of the witness set divides, is a
/// strong probable prime to base `a`, given `n - 1 = d * 2^s` with `d` odd.
fn passes_base(n: u128, a: u128, d: u128, s: u32) -> (r: bool)
    requires
        n > 2,
        n % 2 == 1,
        s < 128,
        d % 2 == 1,
        n - 1 == pow2(s as nat) * d,
    ensures
        r == strong_probable_prime(n as nat, a as nat),
{
    proof {
        lemma_two_adic_decomposition((n - 1) as nat, s as nat, d as nat);
        lemma2_to64();
        assert(s > 0) by {
            if s == 0 {
                assert(pow2(0) * d == d) by (nonlinear_arith)
                    requires
                        pow2(0) == 1,
                ;
            }
        }
        assert(d * pow2(0) == d) by (nonlinear_arith)
            requires
                pow2(0) == 1,
        ;
    }
    let mut x: u128 = pow(a, d, n);
    if x == 1 || x == n - 1 {
        assert(pow_mod(a as nat, d as nat * pow2(0), n as nat) == x);
        return true;
    }
    let mut r: u32 = 1;
    while r < s
        invariant
            n > 2,
            s < 128,
            1 <= r,
            two_adicity((n - 1) as nat) == s,
            odd_factor((n - 1) as nat) == d,
            x == pow_mod(a as nat, d as nat * pow2((r - 1) as nat), n as nat),
            forall|q: nat|
                q < r ==> #[trigger] pow_mod(a as nat, d as nat * pow2(q), n as nat) != n - 1,
            pow_mod(a as nat, d as nat, n as nat) != 1,
        decreases s - r,
    {
        proof {
            lemma_square_of_power(a as nat, d as nat * pow2((r - 1) as nat), n as nat);
            lemma_pow2_unfold(r as nat);
            assert(2 * (d as nat * pow2((r - 1) as nat)) == d as nat * pow2(r as nat))
                by (nonlinear_arith)
                requires
                    pow2(r as nat) == 2 * pow2((r - 1) as nat),
            ;
        }
        x = pow(x, 2, n);
        assert(x == pow_mod(a as nat, d as nat * pow2(r as nat), n as nat));
        if x == n - 1 {
            assert(exists|q: nat|
                q < s && #[trigger] pow_mod(a as nat, d as nat * pow2(q), n as nat) == n - 1);
            return true;
        }
        r = r + 1;
    }
    false
}

/// The primality oracle.
///
/// Numbers below 2 are rejected. A number divisible by a prime of the
/// witness set is accepted exactly when it is that prime. Every other number
/// undergoes the Miller-Rabin test to each base of the witness set below it,
/// and is accepted when it passes them all. Every prime is accepted, and up
/// to 10000 nothing else is. An accepted number beyond the range for which
/// these eleven bases are known to decide is prime with overwhelming
/// likelihood only.
pub fn is_prime(number: u128) -> (r: bool)
    ensures
        r == probable_prime(number as nat),
{
    if number < 2 {
        return false;
    }
    proof {
        lemma_witness_table();
    }
    let mut i: usize = 0;
    while i < 11
        invariant
            i <= 11,
            number >= 2,
            forall|k: int| 0 <= k < 11 ==> (#[trigger] TIP_PRIMES[k]) == witness(k),
            forall|k: int| 0 <= k < i ==> number as nat % #[trigger] witness(k) != 0,
        decreases 11 - i,
    {
        let p: u128 = TIP_PRIMES[i];
        if number % p == 0 {
            proof {
                assert(number as nat % witness(i as int) == 0);
                if is_witness(number as nat) {
                    let j = choose|j: int| 0 <= j < 11 && number as nat == #[trigger] witness(j);
                    assert(witness(j) % witness(i as int) == 0);
                    assert(j == i);
                }
                if number == p {
                    assert(number as nat == witness(i as int));
                }
            }
            return number == p;
        }
        i = i + 1;
    }
    assert(!has_small_factor(number as nat));
    let (d, s) = odd_part(number - 1);
    proof {
        assert(number as nat % witness(0) != 0);
    }
    let mut i: usize = 0;
    while i < 11
        invariant
            i <= 11,
            number > 2,
            number % 2 == 1,
            !has_small_factor(number as nat),
            s < 128,
            d % 2 == 1,
            number - 1 == pow2(s as nat) * d,
            forall|k: int| 0 <= k < 11 ==> (#[trigger] TIP_PRIMES[k]) == witness(k),
            forall|k: int|
                0 <= k < i && witness(k) < number ==> strong_probable_prime(
                    number as nat,
                    #[trigger] witness(k),
                ),
        decreases 11 - i,
    {
        let a: u128 = TIP_PRIMES[i];
        if a < number {
            if !passes_base(number, a, d, s) {
                assert(a == witness(i as int));
                assert(witness(i as int) < number && !strong_probable_prime(
                    number as nat,
                    witness(i as int),
                ));
                return false;
            }
        }
        i = i + 1;
    }
    true
}

} // verus!
