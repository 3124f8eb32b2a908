//! The products of 97 and a prime from 97 on, up to 10000.

use vstd::arithmetic::power2::lemma2_to64;
use vstd::prelude::*;

use crate::certificates::{
    lemma_avoiding_first, lemma_avoiding_step, lemma_refuted_from, lemma_squaring_step,
    prime_from_37_to_270,
};
use crate::primality::strong_probable_prime;

verus! {

/// 9409 = 97 * 97 is no strong probable prime to the base 2.
pub proof fn lemma_refuted_9409()
    ensures
        !strong_probable_prime(9409, 2),
{
    lemma2_to64();
    lemma_squaring_step(2, 1, 9409, 1);
    lemma_squaring_step(2, 2, 9409, 2);
    lemma_squaring_step(2, 4, 9409, 4);
    lemma_squaring_step(2, 9, 9409, 16);
    lemma_squaring_step(2, 18, 9409, 512);
    lemma_squaring_step(2, 36, 9409, 8101);
    lemma_squaring_step(2, 73, 9409, 7835);
    lemma_squaring_step(2, 147, 9409, 5818);
    lemma_avoiding_first(7470, 9409);
    lemma_avoiding_step(8440, 9409, 2);
    lemma_avoiding_step(484, 9409, 3);
    lemma_avoiding_step(22, 9409, 4);
    lemma_avoiding_step(7824, 9409, 5);
    lemma_avoiding_step(493, 9409, 6);
    lemma_refuted_from(9409, 2, 147, 6, 493);
}

/// 9797 = 97 * 101 is no strong probable prime to the base 2.
pub proof fn lemma_refuted_9797()
    ensures
        !strong_probable_prime(9797, 2),
{
    lemma2_to64();
    lemma_squaring_step(2, 1, 9797, 1);
    lemma_squaring_step(2, 2, 9797, 2);
    lemma_squaring_step(2, 4, 9797, 4);
    lemma_squaring_step(2, 9, 9797, 16);
    lemma_squaring_step(2, 19, 9797, 512);
    lemma_squaring_step(2, 38, 9797, 5047);
    lemma_squaring_step(2, 76, 9797, 9);
    lemma_squaring_step(2, 153, 9797, 81);
    lemma_squaring_step(2, 306, 9797, 3325);
    lemma_squaring_step(2, 612, 9797, 4609);
    lemma_squaring_step(2, 1224, 9797, 2985);
    lemma_squaring_step(2, 2449, 9797, 4752);
    lemma_avoiding_first(8055, 9797);
    lemma_avoiding_step(8635, 9797, 2);
    lemma_refuted_from(9797, 2, 2449, 2, 8635);
}

/// 9991 = 97 * 103 is no strong probable prime to the base 2.
pub proof fn lemma_refuted_9991()
    ensures
        !strong_probable_prime(9991, 2),
{
    lemma2_to64();
    lemma_squaring_step(2, 1, 9991, 1);
    lemma_squaring_step(2, 2, 9991, 2);
    lemma_squaring_step(2, 4, 9991, 4);
    lemma_squaring_step(2, 9, 9991, 16);
    lemma_squaring_step(2, 19, 9991, 512);
    lemma_squaring_step(2, 39, 9991, 4756);
    lemma_squaring_step(2, 78, 9991, 9815);
    lemma_squaring_step(2, 156, 9991, 1003);
    lemma_squaring_step(2, 312, 9991, 6909);
    lemma_squaring_step(2, 624, 9991, 7274);
    lemma_squaring_step(2, 1248, 9991, 8731);
    lemma_squaring_step(2, 2497, 9991, 9022);
    lemma_squaring_step(2, 4995, 9991, 9605);
    lemma_avoiding_first(8253, 9991);
    lemma_refuted_from(9991, 2, 4995, 1, 8253);
}

/// No product of 97 and a prime from 97 on, up to 10000, is a strong
/// probable prime to both of the bases 2 and 3.
pub proof fn lemma_products_of_97(q: nat)
    requires
        prime_from_37_to_270(q),
        q >= 97,
        97 * q <= 10000,
    ensures
        !strong_probable_prime(97 * q, 2) || !strong_probable_prime(97 * q, 3),
{
    if q == 97 {
        lemma_refuted_9409();
    } else if q == 101 {
        lemma_refuted_9797();
    } else if q == 103 {
        lemma_refuted_9991();
    }
}

} // verus!
