//! Pollard's rho: a divisor of a composite number from the cycle that a
//! quadratic map runs into modulo one of its prime factors.

use std::time::Duration;
use std::time::SystemTime;
use std::time::SystemTimeError;
use vstd::prelude::*;

use crate::modular::{abs, abs_diff, add_mod, gcd, pow, pow_mod};
use crate::number_theory::{divides, gcd_nat, lemma_divisor_le, lemma_gcd_nat_is_gcd, prime};

verus! {

#[verifier::external_type_specification]
#[verifier::external_body]
pub struct ExSystemTime(SystemTime);

#[verifier::external_type_specification]
#[verifier::external_body]
pub struct ExSystemTimeError(SystemTimeError);

/// `SystemTime::now` reads the wall clock. Nothing is claimed of the value.
pub assume_specification[ SystemTime::now ]() -> (t: SystemTime)
;

/// `std::time::UNIX_EPOCH`, the instant from which Unix time is counted.
/// Nothing is claimed of the value.
#[verifier::external_body]
fn unix_epoch() -> (t: SystemTime) {
    std::time::UNIX_EPOCH
}

/// `SystemTime::duration_since` measures the time from `earlier` to `t`, and
/// fails when `earlier` is the later of the two. Nothing is claimed of the
/// value.
pub assume_specification[ SystemTime::duration_since ](t: &SystemTime, earlier: SystemTime) -> (r:
    Result<Duration, SystemTimeError>)
;

/// `Duration::as_secs` gives the whole seconds of a duration. Nothing is
/// claimed of the value.
pub assume_specification[ Duration::as_secs ](d: &Duration) -> (s: u64)
;

/// The state of the pseudo-random source that the search draws from.
pub struct Entropy {
    pub state: u128,
}

/// One xorshift round on a 128-bit state.
pub open spec fn scramble(state: u128) -> u128 {
    let a = state ^ (state << 13);
    let b = a ^ (a >> 7);
    b ^ (b << 17)
}

impl Entropy {
    /// A source that starts from `seed`.
    pub fn from_seed(seed: u64) -> (e: Entropy)
        ensures
            e.state == seed,
    {
        Entropy { state: seed as u128 }
    }

    /// A source seeded with the whole seconds that the wall clock counts
    /// since the Unix epoch, or with 0 where the clock stands before it.
    pub fn from_clock() -> (e: Entropy)
        ensures
            e.state <= u64::MAX,
    {
        let now = SystemTime::now();
        let reading: Option<u64> = match now.duration_since(unix_epoch()) {
            Ok(elapsed) => Some(elapsed.as_secs()),
            Err(_) => None,
        };
        Entropy::from_reading(reading)
    }

    /// The source for a reading of the clock: it starts from the seconds
    /// that were read, or from 0 where there was no reading because the
    /// clock stood before the epoch. Of what the clock reads nothing is
    /// known, so a source from the clock is only known to fit in 64 bits.
    pub fn from_reading(reading: Option<u64>) -> (e: Entropy)
        ensures
            e.state == (match reading {
                Some(seconds) => seconds,
                None => 0u64,
            }),
    {
        match reading {
            Some(seconds) => Entropy::from_seed(seconds),
            None => Entropy::from_seed(0),
        }
    }
}

/// Draws the next pseudo-random value below `n`: the state advances by one
/// xorshift round and is reduced modulo `n`.
pub fn simple_random(entropy: &mut Entropy, n: u128) -> (r: u128)
    requires
        n > 0,
    ensures
        final(entropy).state == scramble(old(entropy).state),
        r == final(entropy).state % n,
{
    let mut seed: u128 = entropy.state;
    seed = seed ^ (seed << 13);
    seed = seed ^ (seed >> 7);
    seed = seed ^ (seed << 17);
    entropy.state = seed;
    seed % n
}

/// How far the search goes before it gives up.
pub struct SearchLimits {
    /// How many constants are tried.
    pub attempts: u32,
    /// How many rounds of cycle detection one constant gets.
    pub steps: u64,
}

/// The iteration map `x -> (x^2 + c) mod n`.
pub open spec fn rho_step(x: nat, c: nat, n: nat) -> nat {
    (pow_mod(x, 2, n) + c) % n
}

/// Where the slow walker stands after `k` rounds: `k` steps from 2.
pub open spec fn tortoise(k: nat, c: nat, n: nat) -> nat
    decreases k,
{
    if k == 0 {
        2
    } else {
        rho_step(tortoise((k - 1) as nat, c, n), c, n)
    }
}

/// Where the fast walker stands after `k` rounds: `2 * k` steps from 2.
pub open spec fn hare(k: nat, c: nat, n: nat) -> nat
    decreases k,
{
    if k == 0 {
        2
    } else {
        rho_step(rho_step(hare((k - 1) as nat, c, n), c, n), c, n)
    }
}

/// The divisor of `n` that round `k` yields: the greatest common divisor of
/// `n` and the distance between the two walkers.
pub open spec fn rho_divisor(k: nat, c: nat, n: nat) -> nat {
    gcd_nat(abs_diff(tortoise(k, c, n) as int, hare(k, c, n) as int) as nat, n)
}

/// The outcome of one constant `c` once `k` rounds have yielded 1 and
/// `steps` rounds are left: the first divisor other than 1 that a round
/// yields, unless that divisor is `n` itself or no round is left.
pub open spec fn attempt_from(n: nat, c: nat, k: nat, steps: nat) -> Option<nat>
    decreases steps,
{
    if steps == 0 {
        None
    } else {
        let d = rho_divisor(k + 1, c, n);
        if d == 1 {
            attempt_from(n, c, k + 1, (steps - 1) as nat)
        } else if d == n {
            None
        } else {
            Some(d)
        }
    }
}

/// The outcome of the randomized search proper, and the state in which it
/// leaves the source: constants are drawn one after another, each below `n`,
/// until one yields a divisor or `attempts` of them have failed.
pub open spec fn search(n: nat, state: u128, attempts: nat, steps: nat) -> (Option<nat>, u128)
    decreases attempts,
{
    if attempts == 0 {
        (None, state)
    } else {
        let next = scramble(state);
        match attempt_from(n, (next as nat) % n, 0, steps) {
            Some(d) => (Some(d), next),
            None => search(n, next, (attempts - 1) as nat, steps),
        }
    }
}

/// The outcome of the whole factor finder: 2, 3 or 5 where one of them
/// divides `n`, without a draw; otherwise what the randomized search finds.
pub open spec fn rho_outcome(n: nat, state: u128, attempts: nat, steps: nat) -> (Option<nat>, u128) {
    if n % 2 == 0 {
        (Some(2), state)
    } else if n % 3 == 0 {
        (Some(3), state)
    } else if n % 5 == 0 {
        (Some(5), state)
    } else {
        search(n, state, attempts, steps)
    }
}

/// A machine result stands for the same outcome as a mathematical one.
pub open spec fn same_divisor(r: Option<u128>, outcome: Option<nat>) -> bool {
    match r {
        Some(d) => outcome == Some(d as nat),
        None => outcome is None,
    }
}

/// Whatever one constant yields is a divisor of `n` strictly between 1 and `n`.
pub proof fn lemma_attempt_divisor(n: nat, c: nat, k: nat, steps: nat)
    requires
        n > 1,
    ensures
        attempt_from(n, c, k, steps) matches Some(d) ==> divides(d, n) && 1 < d < n,
    decreases steps,
{
    if steps > 0 {
        let gap = abs_diff(tortoise(k + 1, c, n) as int, hare(k + 1, c, n) as int) as nat;
        lemma_gcd_nat_is_gcd(gap, n);
        lemma_divisor_le(rho_divisor(k + 1, c, n), n);
        lemma_attempt_divisor(n, c, k + 1, (steps - 1) as nat);
    }
}

/// Whatever the randomized search yields is a divisor of `n` strictly
/// between 1 and `n`.
pub proof fn lemma_search_divisor(n: nat, state: u128, attempts: nat, steps: nat)
    requires
        n > 1,
    ensures
        search(n, state, attempts, steps).0 matches Some(d) ==> divides(d, n) && 1 < d < n,
    decreases attempts,
{
    if attempts > 0 {
        let next = scramble(state);
        lemma_attempt_divisor(n, (next as nat) % n, 0, steps);
        lemma_search_divisor(n, next, (attempts - 1) as nat, steps);
    }
}

/// One step of the iteration map.
fn step(x: u128, c: u128, n: u128) -> (r: u128)
    requires
        n > 0,
        c < n,
    ensures
        r == rho_step(x as nat, c as nat, n as nat),
        r < n,
{
    let square: u128 = pow(x, 2, n);
    add_mod(square, c, n)
}

/// Floyd's cycle detection with the constant `c`: the slow walker takes one
/// step a round and the fast one two, both from 2, until the distance
/// between them shares a divisor other than 1 with `n` or `steps` rounds
/// are done. The divisor is returned unless it is `n` itself.
pub fn rho_attempt(n: u128, c: u128, steps: u64) -> (r: Option<u128>)
    requires
        n > 1,
        c < n,
    ensures
        same_divisor(r, attempt_from(n as nat, c as nat, 0, steps as nat)),
{
    let mut x: u128 = 2;
    let mut y: u128 = 2;
    let mut k: u64 = 0;
    while k < steps
        invariant
            n > 1,
            c < n,
            k <= steps,
            x == tortoise(k as nat, c as nat, n as nat),
            y == hare(k as nat, c as nat, n as nat),
            attempt_from(n as nat, c as nat, 0, steps as nat) == attempt_from(
                n as nat,
                c as nat,
                k as nat,
                (steps - k) as nat,
            ),
        decreases steps - k,
    {
        x = step(x, c, n);
        y = step(step(y, c, n), c, n);
        let d: u128 = gcd(abs(x, y), n);
        assert(d == rho_divisor((k + 1) as nat, c as nat, n as nat));
        if d != 1 {
            if d == n {
                return None;
            }
            return Some(d);
        }
        k = k + 1;
    }
    None
}

/// Finds a divisor of `n`.
///
/// Where 2, 3 or 5 divides `n`, that is the answer. Otherwise constants
/// below `n` are drawn from `entropy`, and each is given to Floyd's cycle
/// detection on `x -> (x^2 + c) mod n`, until one yields a divisor other
/// than 1 and `n`. The search is a Las Vegas one: what it returns is right,
/// but nothing bounds the rounds it may need, so it stops with `None` once
/// `limits.attempts` constants have each been given `limits.steps` rounds.
/// The caller may then try again with other entropy.
///
/// The divisor lies strictly between 1 and `n` for every `n` that is not
/// prime.
pub fn pollards_rho(n: u128, entropy: &mut Entropy, limits: &SearchLimits) -> (r: Option<u128>)
    requires
        n > 1,
    ensures
        same_divisor(
            r,
            rho_outcome(
                n as nat,
                old(entropy).state,
                limits.attempts as nat,
                limits.steps as nat,
            ).0,
        ),
        final(entropy).state == rho_outcome(
            n as nat,
            old(entropy).state,
            limits.attempts as nat,
            limits.steps as nat,
        ).1,
        r matches Some(d) ==> divides(d as nat, n as nat) && 1 < d <= n,
        r matches Some(d) ==> !prime(n as nat) ==> d < n,
{
    if n % 2 == 0 {
        assert(n != 2 ==> 2 < n);
        assert(prime(2));
        return Some(2);
    }
    if n % 3 == 0 {
        assert(prime(3)) by {
            assert forall|d: nat| 1 < d < 3 implies !#[trigger] divides(d, 3) by {
                assert(d == 2);
            }
        }
        return Some(3);
    }
    if n % 5 == 0 {
        assert(prime(5)) by {
            assert forall|d: nat| 1 < d < 5 implies !#[trigger] divides(d, 5) by {
                assert(d == 2 || d == 3 || d == 4);
            }
        }
        return Some(5);
    }
    proof {
        lemma_search_divisor(
            n as nat,
            entropy.state,
            limits.attempts as nat,
            limits.steps as nat,
        );
    }
    let mut tried: u32 = 0;
    while tried < limits.attempts
        invariant
            n > 1,
            n % 2 != 0,
            n % 3 != 0,
            n % 5 != 0,
            tried <= limits.attempts,
            search(
                n as nat,
                old(entropy).state,
                limits.attempts as nat,
                limits.steps as nat,
            ).0 matches Some(d) ==> divides(d, n as nat) && 1 < d < n,
            search(n as nat, old(entropy).state, limits.attempts as nat, limits.steps as nat)
                == search(
                n as nat,
                entropy.state,
                (limits.attempts - tried) as nat,
                limits.steps as nat,
            ),
        decreases limits.attempts - tried,
    {
        let c: u128 = simple_random(entropy, n);
        match rho_attempt(n, c, limits.steps) {
            Some(d) => {
                return Some(d);
            },
            None => {},
        }
        tried = tried + 1;
    }
    None
}

} // verus!
