//! The products of 89 and a prime from 89 on, up to 10000.

use vstd::arithmetic::power2::lemma2_to64;
use vstd::prelude::*;

use crate::certificates::{
    lemma_avoiding_first, lemma_avoiding_step, lemma_refuted_from, lemma_squaring_step,
    prime_from_37_to_270,
};
use crate::primality::strong_probable_prime;

verus! {

/// 7921 = 89 * 89 is no strong probable prime to the base 2.
pub proof fn lemma_refuted_7921()
    ensures
        !strong_probable_prime(7921, 2),
{
    lemma2_to64();
    lemma_squaring_step(2, 1, 7921, 1);
    lemma_squaring_step(2, 3, 7921, 2);
    lemma_squaring_step(2, 7, 7921, 8);
    lemma_squaring_step(2, 15, 7921, 128);
    lemma_squaring_step(2, 30, 7921, 1084);
    lemma_squaring_step(2, 61, 7921, 2748);
    lemma_squaring_step(2, 123, 7921, 5582);
    lemma_squaring_step(2, 247, 7921, 2941);
    lemma_squaring_step(2, 495, 7921, 7419);
    lemma_avoiding_first(268, 7921);
    lemma_avoiding_step(4095, 7921, 2);
    lemma_avoiding_step(2048, 7921, 3);
    lemma_avoiding_step(4985, 7921, 4);
    lemma_refuted_from(7921, 2, 495, 4, 4985);
}

/// 8633 = 89 * 97 is no strong probable prime to the base 2.
pub proof fn lemma_refuted_8633()
    ensures
        !strong_probable_prime(8633, 2),
{
    lemma2_to64();
    lemma_squaring_step(2, 1, 8633, 1);
    lemma_squaring_step(2, 2, 8633, 2);
    lemma_squaring_step(2, 4, 8633, 4);
    lemma_squaring_step(2, 8, 8633, 16);
    lemma_squaring_step(2, 16, 8633, 256);
    lemma_squaring_step(2, 33, 8633, 5105);
    lemma_squaring_step(2, 67, 8633, 4629);
    lemma_squaring_step(2, 134, 8633, 1070);
    lemma_squaring_step(2, 269, 8633, 5344);
    lemma_squaring_step(2, 539, 8633, 744);
    lemma_squaring_step(2, 1079, 8633, 2048);
    lemma_avoiding_first(2419, 8633);
    lemma_avoiding_step(4632, 8633, 2);
    lemma_avoiding_step(5965, 8633, 3);
    lemma_refuted_from(8633, 2, 1079, 3, 5965);
}

/// 8989 = 89 * 101 is no strong probable prime to the base 2.
pub proof fn lemma_refuted_8989()
    ensures
        !strong_probable_prime(8989, 2),
{
    lemma2_to64();
    lemma_squaring_step(2, 1, 8989, 1);
    lemma_squaring_step(2, 2, 8989, 2);
    lemma_squaring_step(2, 4, 8989, 4);
    lemma_squaring_step(2, 8, 8989, 16);
    lemma_squaring_step(2, 17, 8989, 256);
    lemma_squaring_step(2, 35, 8989, 5226);
    lemma_squaring_step(2, 70, 8989, 4988);
    lemma_squaring_step(2, 140, 8989, 7581);
    lemma_squaring_step(2, 280, 8989, 4884);
    lemma_squaring_step(2, 561, 8989, 5639);
    lemma_squaring_step(2, 1123, 8989, 8456);
    lemma_squaring_step(2, 2247, 8989, 1871);
    lemma_avoiding_first(7807, 8989);
    lemma_avoiding_step(7840, 8989, 2);
    lemma_refuted_from(8989, 2, 2247, 2, 7840);
}

/// 9167 = 89 * 103 is no strong probable prime to the base 2.
pub proof fn lemma_refuted_9167()
    ensures
        !strong_probable_prime(9167, 2),
{
    lemma2_to64();
    lemma_squaring_step(2, 1, 9167, 1);
    lemma_squaring_step(2, 2, 9167, 2);
    lemma_squaring_step(2, 4, 9167, 4);
    lemma_squaring_step(2, 8, 9167, 16);
    lemma_squaring_step(2, 17, 9167, 256);
    lemma_squaring_step(2, 35, 9167, 2734);
    lemma_squaring_step(2, 71, 9167, 7302);
    lemma_squaring_step(2, 143, 9167, 7864);
    lemma_squaring_step(2, 286, 9167, 3828);
    lemma_squaring_step(2, 572, 9167, 4718);
    lemma_squaring_step(2, 1145, 9167, 2048);
    lemma_squaring_step(2, 2291, 9167, 803);
    lemma_squaring_step(2, 4583, 9167, 6238);
    lemma_avoiding_first(6625, 9167);
    lemma_refuted_from(9167, 2, 4583, 1, 6625);
}

/// 9523 = 89 * 107 is no strong probable prime to the base 2.
pub proof fn lemma_refuted_9523()
    ensures
        !strong_probable_prime(9523, 2),
{
    lemma2_to64();
    lemma_squaring_step(2, 1, 9523, 1);
    lemma_squaring_step(2, 2, 9523, 2);
    lemma_squaring_step(2, 4, 9523, 4);
    lemma_squaring_step(2, 9, 9523, 16);
    lemma_squaring_step(2, 18, 9523, 512);
    lemma_squaring_step(2, 37, 9523, 5023);
    lemma_squaring_step(2, 74, 9523, 8204);
    lemma_squaring_step(2, 148, 9523, 6575);
    lemma_squaring_step(2, 297, 9523, 5728);
    lemma_squaring_step(2, 595, 9523, 6498);
    lemma_squaring_step(2, 1190, 9523, 7567);
    lemma_squaring_step(2, 2380, 9523, 7213);
    lemma_squaring_step(2, 4761, 9523, 3220);
    lemma_avoiding_first(5229, 9523);
    lemma_refuted_from(9523, 2, 4761, 1, 5229);
}

/// 9701 = 89 * 109 is no strong probable prime to the base 2.
pub proof fn lemma_refuted_9701()
    ensures
        !strong_probable_prime(9701, 2),
{
    lemma2_to64();
    lemma_squaring_step(2, 1, 9701, 1);
    lemma_squaring_step(2, 2, 9701, 2);
    lemma_squaring_step(2, 4, 9701, 4);
    lemma_squaring_step(2, 9, 9701, 16);
    lemma_squaring_step(2, 18, 9701, 512);
    lemma_squaring_step(2, 37, 9701, 217);
    lemma_squaring_step(2, 75, 9701, 6869);
    lemma_squaring_step(2, 151, 9701, 4695);
    lemma_squaring_step(2, 303, 9701, 4706);
    lemma_squaring_step(2, 606, 9701, 7807);
    lemma_squaring_step(2, 1212, 9701, 7567);
    lemma_squaring_step(2, 2425, 9701, 4187);
    lemma_avoiding_first(6720, 9701);
    lemma_avoiding_step(2524, 9701, 2);
    lemma_refuted_from(9701, 2, 2425, 2, 2524);
}

/// No product of 89 and a prime from 89 on, up to 10000, is a strong
/// probable prime to both of the bases 2 and 3.
pub proof fn lemma_products_of_89(q: nat)
    requires
        prime_from_37_to_270(q),
        q >= 89,
        89 * q <= 10000,
    ensures
        !strong_probable_prime(89 * q, 2) || !strong_probable_prime(89 * q, 3),
{
    if q == 89 {
        lemma_refuted_7921();
    } else if q == 97 {
        lemma_refuted_8633();
    } else if q == 101 {
        lemma_refuted_8989();
    } else if q == 103 {
        lemma_refuted_9167();
    } else if q == 107 {
        lemma_refuted_9523();
    } else if q == 109 {
        lemma_refuted_9701();
    }
}

} // verus!
