//! The factorisation orchestrator: splits a number with Pollard's rho until
//! the primality oracle accepts every piece, and returns the largest piece.

use vstd::arithmetic::div_mod::*;
use vstd::arithmetic::mul::*;
use vstd::prelude::*;

use crate::number_theory::{
    divides, lemma_divides_quotient, lemma_divisor_le, lemma_multiple_divides,
    lemma_prime_divides_product, prime,
};
use crate::primality::{is_prime, probable_prime, witness};
use crate::rho::{lemma_search_divisor, pollards_rho, rho_outcome, Entropy, SearchLimits};
use crate::soundness::{lemma_exact_up_to_10000, lemma_primes_accepted};

verus! {

/// Why no factor was returned.
#[derive(Debug, Clone, Copy, PartialEq, Eq, Structural)]
pub enum FactorError {
    /// The number is below 2 and has no prime factor.
    InvalidInput,
    /// The randomized search used up its limits on some piece of the
    /// number. Another run, with other entropy, may succeed.
    Exhausted,
}

/// What a piece on the work stack still contributes to the size of the task.
pub open spec fn piece_weight(m: nat) -> nat {
    if m >= 1 {
        (m - 1) as nat
    } else {
        0
    }
}

/// The size of the task that a work stack stands for. It falls whenever a
/// piece is accepted as prime, and whenever one is split in two.
pub open spec fn weight(work: Seq<nat>) -> nat
    decreases work.len(),
{
    if work.len() == 0 {
        0
    } else {
        weight(work.drop_last()) + piece_weight(work.last())
    }
}

/// The product of the pieces on a work stack.
pub open spec fn product(work: Seq<nat>) -> nat
    decreases work.len(),
{
    if work.len() == 0 {
        1
    } else {
        product(work.drop_last()) * work.last()
    }
}

/// The larger of two numbers.
pub open spec fn larger(a: nat, b: nat) -> nat {
    if a < b {
        b
    } else {
        a
    }
}

/// The oracle accepts 2, 3 and 5.
pub proof fn lemma_small_primes_accepted()
    ensures
        probable_prime(2),
        probable_prime(3),
        probable_prime(5),
{
    assert(2nat % witness(0) == 0 && 2 == witness(0));
    assert(3nat % witness(1) == 0 && 3 == witness(1));
    assert(5nat % witness(2) == 0 && 5 == witness(2));
}

/// A divisor that the factor finder returns for a number that the oracle
/// rejects splits the number in two pieces, both at least 2, which together
/// weigh less than the number.
pub proof fn lemma_split_weighs_less(m: nat, state: u128, attempts: nat, steps: nat)
    requires
        m >= 2,
        !probable_prime(m),
    ensures
        rho_outcome(m, state, attempts, steps).0 matches Some(d) ==> {
            &&& divides(d, m)
            &&& 1 < d < m
            &&& m / d >= 2
            &&& d * (m / d) == m
            &&& piece_weight(d) + piece_weight(m / d) < piece_weight(m)
        },
{
    lemma_small_primes_accepted();
    lemma_search_divisor(m, state, attempts, steps);
    if let Some(d) = rho_outcome(m, state, attempts, steps).0 {
        assert(divides(d, m) && 1 < d < m);
        lemma_divides_quotient(d, m);
        let q = m / d;
        assert(q >= 2 && d + q <= m) by (nonlinear_arith)
            requires
                m == d * q,
                1 < d < m,
        ;
    }
}

/// Pushing a piece adds its weight.
pub proof fn lemma_weight_push(work: Seq<nat>, m: nat)
    ensures
        weight(work.push(m)) == weight(work) + piece_weight(m),
{
    assert(work.push(m).drop_last() =~= work);
}

/// Pushing a piece multiplies the product by it.
pub proof fn lemma_product_push(work: Seq<nat>, m: nat)
    ensures
        product(work.push(m)) == product(work) * m,
{
    assert(work.push(m).drop_last() =~= work);
}

/// What the orchestrator makes of a work stack, and the state in which it
/// leaves the source.
///
/// The piece on top is taken off. If the oracle accepts it, it is compared
/// with the largest accepted piece so far. If not, the factor finder is asked
/// for a divisor, and the divisor and its cofactor go on the stack in its
/// place; where the finder gives up, so does the orchestrator. An empty
/// stack ends the work with the largest accepted piece.
pub open spec fn split_all(work: Seq<nat>, best: nat, state: u128, attempts: nat, steps: nat) -> (
    Result<nat, FactorError>,
    u128,
)
    decreases weight(work),
{
    if work.len() == 0 {
        (Ok(best), state)
    } else {
        let m = work.last();
        let rest = work.drop_last();
        if probable_prime(m) {
            split_all(rest, larger(best, m), state, attempts, steps)
        } else if m < 2 {
            (Err(FactorError::InvalidInput), state)
        } else {
            let found = rho_outcome(m, state, attempts, steps);
            match found.0 {
                Some(d) => {
                    proof {
                        lemma_split_weighs_less(m, state, attempts, steps);
                        lemma_weight_push(rest, d);
                        lemma_weight_push(rest.push(d), m / d);
                    }
                    split_all(rest.push(d).push(m / d), best, found.1, attempts, steps)
                },
                None => (Err(FactorError::Exhausted), found.1),
            }
        }
    }
}

/// Whether `m` is settled without a draw: the oracle accepts it, or one of
/// 2, 3 and 5 divides it, the smallest of them that does leaving a cofactor
/// that is settled in turn. The factor finder answers for such a number
/// before it draws a constant.
pub open spec fn settled(m: nat) -> bool
    decreases m,
{
    if m < 2 {
        false
    } else if probable_prime(m) {
        true
    } else if m % 2 == 0 {
        settled(m / 2)
    } else if m % 3 == 0 {
        settled(m / 3)
    } else if m % 5 == 0 {
        settled(m / 5)
    } else {
        false
    }
}

/// Where every piece on the work stack is settled without a draw, the
/// orchestrator ends with a factor, whatever the state of the source and
/// the limits of the search, and leaves the source as it was.
pub proof fn lemma_settled_work_succeeds(
    work: Seq<nat>,
    best: nat,
    state: u128,
    attempts: nat,
    steps: nat,
)
    requires
        forall|i: int| 0 <= i < work.len() ==> settled(#[trigger] work[i]),
    ensures
        split_all(work, best, state, attempts, steps).0 is Ok,
        split_all(work, best, state, attempts, steps).1 == state,
    decreases weight(work),
{
    if work.len() > 0 {
        let m = work.last();
        let rest = work.drop_last();
        assert(settled(work[work.len() - 1]));
        assert forall|i: int| 0 <= i < rest.len() implies settled(#[trigger] rest[i]) by {
            assert(rest[i] == work[i]);
        }
        if probable_prime(m) {
            lemma_settled_work_succeeds(rest, larger(best, m), state, attempts, steps);
        } else {
            lemma_small_primes_accepted();
            lemma_split_weighs_less(m, state, attempts, steps);
            let found = rho_outcome(m, state, attempts, steps);
            let d = found.0->Some_0;
            assert(found.1 == state);
            assert(d == 2 || d == 3 || d == 5);
            let next = rest.push(d).push(m / d);
            lemma_weight_push(rest, d);
            lemma_weight_push(rest.push(d), m / d);
            assert forall|i: int| 0 <= i < next.len() implies settled(#[trigger] next[i]) by {
                if i < rest.len() {
                    assert(next[i] == rest[i]);
                }
            }
            lemma_settled_work_succeeds(next, best, state, attempts, steps);
        }
    }
}

/// A work stack of magnitudes as a sequence of natural numbers.
pub open spec fn to_nats(work: Seq<u128>) -> Seq<nat> {
    work.map_values(|m: u128| m as nat)
}

/// The largest of the accepted pieces, 0 where there is none yet.
pub open spec fn largest_of(factors: Seq<nat>) -> nat
    decreases factors.len(),
{
    if factors.len() == 0 {
        0
    } else {
        larger(largest_of(factors.drop_last()), factors.last())
    }
}

/// A machine result stands for the same outcome as a mathematical one.
pub open spec fn same_factor(r: Result<u128, FactorError>, outcome: Result<nat, FactorError>) -> bool {
    match r {
        Ok(p) => outcome == Ok::<nat, FactorError>(p as nat),
        Err(e) => outcome == Err::<nat, FactorError>(e),
    }
}

impl SearchLimits {
    /// The limits that `find_max_prime_factor` searches within.
    pub fn standard() -> (limits: SearchLimits)
        ensures
            limits.attempts == 64,
            limits.steps == 1048576,
    {
        SearchLimits { attempts: 64, steps: 1048576 }
    }
}

impl FactorError {
    /// A sentence that says what went wrong.
    pub fn message(&self) -> (text: &'static str)
        ensures
            *self == FactorError::InvalidInput ==> text@ == "the number must be at least 2"@,
            *self == FactorError::Exhausted ==> text@
                == "factorization attempt exhausted, retry"@,
    {
        match self {
            FactorError::InvalidInput => "the number must be at least 2",
            FactorError::Exhausted => "factorization attempt exhausted, retry",
        }
    }
}

/// The largest element of a list of factors that is not empty.
fn max_of(factors: &Vec<u128>) -> (best: u128)
    requires
        factors.len() > 0,
    ensures
        best == largest_of(to_nats(factors@)),
{
    let mut best: u128 = 0;
    let mut i: usize = 0;
    while i < factors.len()
        invariant
            i <= factors.len(),
            best == largest_of(to_nats(factors@.take(i as int))),
        decreases factors.len() - i,
    {
        proof {
            let before = to_nats(factors@.take(i as int));
            let after = to_nats(factors@.take(i + 1));
            assert(after.drop_last() =~= before);
            assert(after.last() == factors[i as int] as nat);
        }
        if best < factors[i] {
            best = factors[i];
        }
        i = i + 1;
    }
    proof {
        assert(factors@.take(factors.len() as int) =~= factors@);
    }
    best
}

/// The largest prime factor of `number`, with the entropy and the limits
/// of the search given by the caller.
///
/// The number is split with [`pollards_rho`] until [`is_prime`] accepts
/// every piece; the largest piece is the answer. Numbers below 2 are
/// rejected. Where the search for a divisor gives up on some piece, the
/// answer is `Exhausted`, and another run with other entropy may succeed.
///
/// A returned factor divides `number`, the oracle accepts it, and no prime
/// factor of `number` is larger. Up to 10000, where the oracle is known to
/// be exact, it is prime, and so the largest prime factor of `number`.
pub fn find_max_prime_factor_with(
    number: u128,
    entropy: &mut Entropy,
    limits: &SearchLimits,
) -> (r: Result<u128, FactorError>)
    ensures
        number < 2 <==> r == Err::<u128, FactorError>(FactorError::InvalidInput),
        number < 2 ==> final(entropy).state == old(entropy).state,
        number >= 2 ==> same_factor(
            r,
            split_all(
                seq![number as nat],
                0,
                old(entropy).state,
                limits.attempts as nat,
                limits.steps as nat,
            ).0,
        ),
        number >= 2 ==> final(entropy).state == split_all(
            seq![number as nat],
            0,
            old(entropy).state,
            limits.attempts as nat,
            limits.steps as nat,
        ).1,
        probable_prime(number as nat) ==> r == Ok::<u128, FactorError>(number),
        prime(number as nat) ==> r == Ok::<u128, FactorError>(number),
        settled(number as nat) ==> r is Ok && final(entropy).state == old(entropy).state,
        r matches Ok(p) ==> {
            &&& divides(p as nat, number as nat)
            &&& probable_prime(p as nat)
            &&& forall|q: nat| prime(q) && #[trigger] divides(q, number as nat) ==> q <= p
            &&& p <= 10000 ==> prime(p as nat)
        },
{
    if number < 2 {
        return Err(FactorError::InvalidInput);
    }
    proof {
        if prime(number as nat) {
            lemma_primes_accepted(number as nat);
        }
        if settled(number as nat) {
            lemma_settled_work_succeeds(
                seq![number as nat],
                0,
                entropy.state,
                limits.attempts as nat,
                limits.steps as nat,
            );
        }
    }
    let ghost attempts = limits.attempts as nat;
    let ghost steps = limits.steps as nat;
    let ghost start = split_all(seq![number as nat], 0, entropy.state, attempts, steps);
    let mut work: Vec<u128> = Vec::new();
    let mut factors: Vec<u128> = Vec::new();
    let ghost mut done: nat = 1;
    work.push(number);
    proof {
        assert(to_nats(work@) =~= seq![number as nat]);
        assert(to_nats(factors@) =~= Seq::<nat>::empty());
        lemma_product_push(Seq::<nat>::empty(), number as nat);
        assert(Seq::<nat>::empty().push(number as nat) =~= seq![number as nat]);
        assert(product(to_nats(work@)) * done == number) by (nonlinear_arith)
            requires
                product(to_nats(work@)) == 1 * number,
                done == 1,
        ;
        assert forall|q: nat| prime(q) && #[trigger] divides(q, done) implies q <= 0 by {
            lemma_divisor_le(q, 1);
        }
        if probable_prime(number as nat) {
            reveal_with_fuel(split_all, 3);
            assert(seq![number as nat].drop_last() =~= Seq::<nat>::empty());
            assert(start.0 == Ok::<nat, FactorError>(number as nat));
        }
    }
    while work.len() > 0
        invariant
            number >= 2,
            start == split_all(
                seq![number as nat],
                0,
                old(entropy).state,
                attempts,
                steps,
            ),
            probable_prime(number as nat) ==> start.0 == Ok::<nat, FactorError>(number as nat),
            prime(number as nat) ==> probable_prime(number as nat),
            settled(number as nat) ==> start.0 is Ok && start.1 == old(entropy).state,
            attempts == limits.attempts,
            steps == limits.steps,
            forall|i: int| 0 <= i < work.len() ==> work[i] >= 2,
            forall|i: int|
                0 <= i < factors.len() ==> probable_prime(factors[i] as nat) && divides(
                    #[trigger] factors[i] as nat,
                    number as nat,
                ),
            product(to_nats(work@)) * done == number,
            done >= 1,
            done == 1 <==> factors.len() == 0,
            forall|q: nat|
                prime(q) && #[trigger] divides(q, done) ==> q <= largest_of(to_nats(factors@)),
            start == split_all(
                to_nats(work@),
                largest_of(to_nats(factors@)),
                entropy.state,
                attempts,
                steps,
            ),
        decreases weight(to_nats(work@)),
    {
        let ghost before = to_nats(work@);
        let ghost accepted = to_nats(factors@);
        let m: u128 = work.pop().unwrap();
        let ghost rest = to_nats(work@);
        proof {
            assert(rest =~= before.drop_last());
            assert(before.last() == m as nat);
            assert(product(before) == product(rest) * m);
            assert(weight(before) == weight(rest) + piece_weight(m as nat));
        }
        if is_prime(m) {
            factors.push(m);
            proof {
                let grown = to_nats(factors@);
                assert(grown.drop_last() =~= accepted);
                assert(grown.last() == m as nat);
                let old_done = done;
                done = done * (m as nat);
                assert(product(rest) * done == number) by (nonlinear_arith)
                    requires
                        product(rest) * m * old_done == number,
                        done == old_done * m,
                ;
                assert(done > 1) by (nonlinear_arith)
                    requires
                        done == old_done * m,
                        old_done >= 1,
                        m >= 2,
                ;
                assert(divides(m as nat, number as nat)) by {
                    assert(number == m * (product(rest) * old_done)) by (nonlinear_arith)
                        requires
                            product(rest) * m * old_done == number,
                    ;
                    lemma_multiple_divides(m as nat, product(rest) * old_done);
                }
                assert forall|q: nat| prime(q) && #[trigger] divides(q, done) implies q
                    <= largest_of(grown) by {
                    lemma_prime_divides_product(q, old_done, m as nat);
                    if divides(q, m as nat) {
                        lemma_divisor_le(q, m as nat);
                    }
                }
            }
        } else {
            proof {
                lemma_split_weighs_less(m as nat, entropy.state, attempts, steps);
            }
            match pollards_rho(m, entropy, limits) {
                Some(d) => {
                    let cofactor: u128 = m / d;
                    work.push(d);
                    work.push(cofactor);
                    proof {
                        assert(to_nats(work@) =~= rest.push(d as nat).push(cofactor as nat));
                        lemma_product_push(rest, d as nat);
                        lemma_product_push(rest.push(d as nat), cofactor as nat);
                        lemma_weight_push(rest, d as nat);
                        lemma_weight_push(rest.push(d as nat), cofactor as nat);
                        assert(product(to_nats(work@)) == product(rest) * m) by (nonlinear_arith)
                            requires
                                product(to_nats(work@)) == product(rest) * d * cofactor,
                                d * cofactor == m,
                        ;
                    }
                },
                None => {
                    return Err(FactorError::Exhausted);
                },
            }
        }
    }
    proof {
        assert(to_nats(work@) =~= Seq::<nat>::empty());
        assert(done == number) by (nonlinear_arith)
            requires
                1 * done == number,
        ;
    }
    let best: u128 = max_of(&factors);
    proof {
        if best <= 10000 {
            lemma_exact_up_to_10000(best as nat);
        }
        lemma_largest_is_member(to_nats(factors@));
        let i = choose|i: int|
            0 <= i < factors.len() && to_nats(factors@)[i] == largest_of(to_nats(factors@));
        assert(factors[i] == best);
    }
    Ok(best)
}

/// The largest element of a list that is not empty is one of its elements.
pub proof fn lemma_largest_is_member(factors: Seq<nat>)
    requires
        factors.len() > 0,
    ensures
        exists|i: int| 0 <= i < factors.len() && factors[i] == largest_of(factors),
    decreases factors.len(),
{
    let front = factors.drop_last();
    if front.len() == 0 || largest_of(front) < factors.last() {
        if front.len() == 0 {
            assert(largest_of(front) == 0);
        }
        assert(factors[factors.len() - 1] == largest_of(factors));
    } else {
        lemma_largest_is_member(front);
        let i = choose|i: int| 0 <= i < front.len() && front[i] == largest_of(front);
        assert(factors[i] == largest_of(factors));
    }
}

/// What the orchestrator makes of `number` where the source starts from
/// `seed` and the search keeps within the standard limits, 64 constants of
/// 1048576 rounds each.
pub open spec fn seeded_outcome(number: nat, seed: u64) -> Result<nat, FactorError> {
    split_all(seq![number], 0, seed as u128, 64, 1048576).0
}

/// The largest prime factor of `number`.
///
/// The search draws its constants from a source seeded with the wall
/// clock, within [`SearchLimits::standard`]. Numbers below 2 are rejected;
/// a number that the oracle accepts is its own answer, whatever the clock
/// reads. For any other number the answer is what the orchestrator makes of
/// it for the seed that the clock gave. A number that is settled without a
/// draw, as 10 is by 2 and 5, gets a factor whatever the seed. Any other
/// number gets either `Exhausted`, or a factor; a factor divides `number`,
/// the oracle accepts it, and no prime factor of `number` exceeds it.
pub fn find_max_prime_factor(number: u128) -> (r: Result<u128, FactorError>)
    ensures
        number < 2 <==> r == Err::<u128, FactorError>(FactorError::InvalidInput),
        number >= 2 ==> exists|seed: u64| same_factor(r, #[trigger] seeded_outcome(number as nat, seed)),
        probable_prime(number as nat) ==> r == Ok::<u128, FactorError>(number),
        prime(number as nat) ==> r == Ok::<u128, FactorError>(number),
        settled(number as nat) ==> r is Ok,
        r matches Ok(p) ==> {
            &&& divides(p as nat, number as nat)
            &&& probable_prime(p as nat)
            &&& forall|q: nat| prime(q) && #[trigger] divides(q, number as nat) ==> q <= p
            &&& p <= 10000 ==> prime(p as nat)
        },
{
    let mut entropy = Entropy::from_clock();
    let limits = SearchLimits::standard();
    let ghost seed = entropy.state as u64;
    let r = find_max_prime_factor_with(number, &mut entropy, &limits);
    proof {
        if number >= 2 {
            assert(same_factor(r, seeded_outcome(number as nat, seed)));
        }
    }
    r
}

} // verus!
