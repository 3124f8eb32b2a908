//! Goldbach's other conjecture, that every odd composite number is a prime
//! plus twice a square, and the numbers that refute it.

use vstd::prelude::*;

use crate::number_theory::{divides, lemma_divides_quotient, prime};
use crate::text::{as_ints, comma_join, comma_separated};

verus! {

/// Whether `n` is a prime plus twice a positive square.
pub open spec fn prime_plus_twice_square(n: nat) -> bool {
    exists|p: nat, k: nat| prime(p) && k >= 1 && n == #[trigger] (p + 2 * (k * k))
}

/// Whether `n` refutes the conjecture: an odd composite number that is not
/// a prime plus twice a positive square.
pub open spec fn stubborn(n: nat) -> bool {
    n % 2 == 1 && n > 1 && !prime(n) && !prime_plus_twice_square(n)
}

/// The numbers from 11 to below `n` that refute the conjecture, in
/// ascending order.
pub open spec fn stubborn_below(n: nat) -> Seq<int>
    decreases n,
{
    if n <= 11 {
        Seq::<int>::empty()
    } else {
        let before = stubborn_below((n - 1) as nat);
        if stubborn((n - 1) as nat) {
            before.push(n - 1)
        } else {
            before
        }
    }
}

/// The first two elements of a list, or all of it if it is shorter.
pub open spec fn first_two(numbers: Seq<int>) -> Seq<int> {
    if numbers.len() <= 2 {
        numbers
    } else {
        numbers.take(2)
    }
}

/// The bound below which the numbers are looked at.
pub const SEARCH_LIMIT: u32 = 6000;

/// An odd number from 3 on is prime if no number from 3 to its half
/// divides it.
proof fn lemma_odd_prime_by_trial(n: nat)
    requires
        n >= 3,
        n % 2 == 1,
        forall|x: nat| 3 <= x <= (n - 1) / 2 ==> !#[trigger] divides(x, n),
    ensures
        prime(n),
{
    assert forall|d: nat| 1 < d < n implies !#[trigger] divides(d, n) by {
        if divides(d, n) {
            lemma_divides_quotient(d, n);
            let q = n / d;
            assert(d != 2);
            assert(q >= 2 && 2 * d <= n) by (nonlinear_arith)
                requires
                    n == d * q,
                    1 < d < n,
            ;
            assert(d <= (n - 1) / 2);
        }
    }
}

/// Whether the odd number `n` is prime, by trial division up to its half.
fn is_odd_prime(n: u32) -> (r: bool)
    requires
        n >= 3,
        n % 2 == 1,
    ensures
        r == prime(n as nat),
{
    let half: u32 = (n - 1) / 2;
    let mut x: u32 = 3;
    while x <= half
        invariant
            3 <= x,
            x <= half + 1 || x == 3,
            half == (n - 1) / 2,
            n >= 3,
            n % 2 == 1,
            forall|y: nat| 3 <= y < x ==> !#[trigger] divides(y, n as nat),
        decreases half + 4 - x,
    {
        if n % x == 0 {
            assert(divides(x as nat, n as nat));
            return false;
        }
        x = x + 1;
    }
    proof {
        lemma_odd_prime_by_trial(n as nat);
    }
    true
}

/// Whether `m` is the square of a positive number.
fn is_positive_square(m: u32) -> (r: bool)
    ensures
        r == exists|k: nat| k >= 1 && m == #[trigger] (k * k),
{
    let mut k: u64 = 1;
    let mut square: u64 = 1;
    while square <= m as u64
        invariant
            1 <= k <= 65536,
            square == k * k,
            forall|j: nat| 1 <= j < k ==> m != #[trigger] (j * j),
        decreases 65536 - k,
    {
        if square == m as u64 {
            assert(k as nat >= 1 && m == (k as nat) * (k as nat));
            return true;
        }
        proof {
            assert(k < 65536) by (nonlinear_arith)
                requires
                    k * k <= 4294967295,
            ;
            assert((k + 1) * (k + 1) == k * k + 2 * k + 1) by (nonlinear_arith);
        }
        square = square + 2 * k + 1;
        k = k + 1;
    }
    proof {
        assert forall|j: nat| j >= 1 implies m != #[trigger] (j * j) by {
            if j >= k {
                assert(j * j >= k * k) by (nonlinear_arith)
                    requires
                        j >= k,
                        k >= 1,
                ;
            }
        }
    }
    false
}

/// Whether `n` is one of `primes` plus twice a positive square.
fn is_prime_plus_twice_square(n: u32, primes: &Vec<u32>) -> (r: bool)
    requires
        forall|i: int| 0 <= i < primes.len() ==> prime(#[trigger] primes[i] as nat),
        forall|p: nat| prime(p) && p < n ==> exists|i: int|
            0 <= i < primes.len() && #[trigger] primes[i] == p,
    ensures
        r == prime_plus_twice_square(n as nat),
{
    let mut i: usize = 0;
    while i < primes.len()
        invariant
            i <= primes.len(),
            forall|j: int| 0 <= j < primes.len() ==> prime(#[trigger] primes[j] as nat),
            forall|j: int, k: nat|
                0 <= j < i && k >= 1 ==> n != #[trigger] (primes[j] + 2 * (k * k)),
        decreases primes.len() - i,
    {
        let p: u32 = primes[i];
        if p < n && (n - p) % 2 == 0 {
            if is_positive_square((n - p) / 2) {
                proof {
                    let k = choose|k: nat| k >= 1 && (n - p) / 2 == #[trigger] (k * k);
                    assert(n == p + 2 * (k * k));
                    assert(prime(p as nat) && k >= 1 && n as nat == (p as nat) + 2 * (k * k));
                }
                return true;
            }
        }
        proof {
            assert forall|k: nat| k >= 1 implies n != #[trigger] (p + 2 * (k * k)) by {
                if n == p + 2 * (k * k) {
                    assert(k * k >= 1) by (nonlinear_arith)
                        requires
                            k >= 1,
                    ;
                    assert((n - p) / 2 == k * k);
                }
            }
        }
        i = i + 1;
    }
    proof {
        if prime_plus_twice_square(n as nat) {
            let (p, k) = choose|p: nat, k: nat|
                prime(p) && k >= 1 && n as nat == #[trigger] (p + 2 * (k * k));
            assert(k * k >= 1) by (nonlinear_arith)
                requires
                    k >= 1,
            ;
            let j = choose|j: int| 0 <= j < primes.len() && #[trigger] primes[j] == p;
            assert(n == primes[j] + 2 * (k * k));
        }
    }
    false
}

/// The primes below 11 are 2, 3, 5 and 7.
proof fn lemma_primes_below_11()
    ensures
        prime(2),
        prime(3),
        prime(5),
        prime(7),
        forall|p: nat| prime(p) && p < 11 ==> p == 2 || p == 3 || p == 5 || p == 7,
{
    assert forall|d: nat| 1 < d < 3 implies !#[trigger] divides(d, 3) by {
        assert(d == 2);
    }
    assert forall|d: nat| 1 < d < 5 implies !#[trigger] divides(d, 5) by {
        assert(d == 2 || d == 3 || d == 4);
    }
    assert forall|d: nat| 1 < d < 7 implies !#[trigger] divides(d, 7) by {
        assert(d == 2 || d == 3 || d == 4 || d == 5 || d == 6);
    }
    assert forall|p: nat| prime(p) && p < 11 implies p == 2 || p == 3 || p == 5 || p == 7 by {
        if p == 4 || p == 6 || p == 8 || p == 10 {
            assert(divides(2, p));
        }
        if p == 9 {
            assert(divides(3, p));
        }
    }
}

/// The numbers that refute the conjecture below a bound begin the list of
/// those below any larger bound.
pub proof fn lemma_stubborn_prefix(a: nat, b: nat)
    requires
        a <= b,
    ensures
        stubborn_below(a).len() <= stubborn_below(b).len(),
        stubborn_below(b).take(stubborn_below(a).len() as int) == stubborn_below(a),
    decreases b,
{
    if a == b {
        assert(stubborn_below(b).take(stubborn_below(a).len() as int) =~= stubborn_below(a));
    } else {
        lemma_stubborn_prefix(a, (b - 1) as nat);
        let before = stubborn_below((b - 1) as nat);
        let n = stubborn_below(a).len() as int;
        if b > 11 && stubborn((b - 1) as nat) {
            assert(before.push(b - 1).take(n) =~= before.take(n));
        }
    }
}

/// The first two odd composite numbers below 6000 that are not a prime
/// plus twice a square, in decimal and with a comma between them.
///
/// The odd numbers from 11 on are gone through. The primes among them are
/// noted; every other one is tried as a sum of a noted prime and twice a
/// square. The search ends with the second number for which no such sum is
/// found.
pub fn goldbach_conjecture() -> (result: String)
    ensures
        result@ == comma_separated(first_two(stubborn_below(SEARCH_LIMIT as nat))),
{
    let mut found: Vec<i32> = Vec::new();
    let mut primes: Vec<u32> = Vec::new();
    primes.push(2);
    primes.push(3);
    primes.push(5);
    primes.push(7);
    let mut num: u32 = 11;
    proof {
        lemma_primes_below_11();
        assert forall|p: nat| prime(p) && p < 11 implies exists|i: int|
            0 <= i < primes.len() && #[trigger] primes[i] == p by {
            if p == 2 {
                assert(primes[0] == p);
            } else if p == 3 {
                assert(primes[1] == p);
            } else if p == 5 {
                assert(primes[2] == p);
            } else {
                assert(primes[3] == p);
            }
        }
        assert(as_ints(found@) =~= stubborn_below(11));
    }
    while found.len() < 2 && num < SEARCH_LIMIT
        invariant
            11 <= num <= SEARCH_LIMIT + 1,
            num % 2 == 1,
            found.len() <= 2,
            as_ints(found@) == stubborn_below(num as nat),
            forall|i: int| 0 <= i < primes.len() ==> prime(#[trigger] primes[i] as nat),
            forall|p: nat| prime(p) && p < num ==> exists|i: int|
                0 <= i < primes.len() && #[trigger] primes[i] == p,
        decreases SEARCH_LIMIT + 1 - num,
    {
        let ghost before = stubborn_below(num as nat);
        let ghost known = primes@;
        proof {
            // The even number that follows is neither prime nor looked at.
            assert(!stubborn((num + 1) as nat));
            assert(stubborn_below((num + 1) as nat) == if stubborn(num as nat) {
                before.push(num as int)
            } else {
                before
            });
            assert(stubborn_below((num + 2) as nat) == stubborn_below((num + 1) as nat));
            assert(divides(2, (num + 1) as nat));
        }
        if is_odd_prime(num) {
            primes.push(num);
            proof {
                assert forall|p: nat| prime(p) && p < num + 2 implies exists|i: int|
                    0 <= i < primes.len() && #[trigger] primes[i] == p by {
                    if p < num {
                        let i = choose|i: int| 0 <= i < known.len() && #[trigger] known[i] == p;
                        assert(primes[i] == p);
                    } else {
                        assert(p == num);
                        assert(primes[primes.len() - 1] == p);
                    }
                }
            }
        } else {
            let reached: bool = is_prime_plus_twice_square(num, &primes);
            if !reached {
                found.push(num as i32);
                assert(as_ints(found@) =~= before.push(num as int));
            }
            proof {
                assert forall|p: nat| prime(p) && p < num + 2 implies exists|i: int|
                    0 <= i < primes.len() && #[trigger] primes[i] == p by {
                    assert(p != num);
                    let i = choose|i: int| 0 <= i < known.len() && #[trigger] known[i] == p;
                    assert(primes[i] == p);
                }
            }
        }
        num = num + 2;
    }
    proof {
        let all = stubborn_below(SEARCH_LIMIT as nat);
        if num < SEARCH_LIMIT {
            lemma_stubborn_prefix(num as nat, SEARCH_LIMIT as nat);
            assert(found.len() == 2);
            assert(first_two(all) =~= as_ints(found@));
        } else {
            lemma_stubborn_prefix(SEARCH_LIMIT as nat, num as nat);
            assert(!stubborn(SEARCH_LIMIT as nat)) by {
                assert(SEARCH_LIMIT as nat % 2 == 0);
            }
            assert(stubborn_below((SEARCH_LIMIT + 1) as nat) == all);
            assert(first_two(all) =~= as_ints(found@));
        }
    }
    comma_join(&found)
}

} // verus!
