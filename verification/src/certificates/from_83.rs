//! The products of 83 and a prime from 83 on, up to 10000.

use vstd::arithmetic::power2::lemma2_to64;
use vstd::prelude::*;

use crate::certificates::{
    lemma_avoiding_first, lemma_avoiding_step, lemma_refuted_from, lemma_squaring_step,
    prime_from_37_to_270,
};
use crate::primality::strong_probable_prime;

verus! {

/// 6889 = 83 * 83 is no strong probable prime to the base 2.
pub proof fn lemma_refuted_6889()
    ensures
        !strong_probable_prime(6889, 2),
{
    lemma2_to64();
    lemma_squaring_step(2, 1, 6889, 1);
    lemma_squaring_step(2, 3, 6889, 2);
    lemma_squaring_step(2, 6, 6889, 8);
    lemma_squaring_step(2, 13, 6889, 64);
    lemma_squaring_step(2, 26, 6889, 1303);
    lemma_squaring_step(2, 53, 6889, 3115);
    lemma_squaring_step(2, 107, 6889, 137);
    lemma_squaring_step(2, 215, 6889, 3093);
    lemma_squaring_step(2, 430, 6889, 2545);
    lemma_squaring_step(2, 861, 6889, 1365);
    lemma_avoiding_first(1993, 6889);
    lemma_avoiding_step(997, 6889, 2);
    lemma_avoiding_step(6390, 6889, 3);
    lemma_refuted_from(6889, 2, 861, 3, 6390);
}

/// 7387 = 83 * 89 is no strong probable prime to the base 2.
pub proof fn lemma_refuted_7387()
    ensures
        !strong_probable_prime(7387, 2),
{
    lemma2_to64();
    lemma_squaring_step(2, 1, 7387, 1);
    lemma_squaring_step(2, 3, 7387, 2);
    lemma_squaring_step(2, 7, 7387, 8);
    lemma_squaring_step(2, 14, 7387, 128);
    lemma_squaring_step(2, 28, 7387, 1610);
    lemma_squaring_step(2, 57, 7387, 6650);
    lemma_squaring_step(2, 115, 7387, 449);
    lemma_squaring_step(2, 230, 7387, 4304);
    lemma_squaring_step(2, 461, 7387, 5207);
    lemma_squaring_step(2, 923, 7387, 5118);
    lemma_squaring_step(2, 1846, 7387, 6631);
    lemma_squaring_step(2, 3693, 7387, 2737);
    lemma_avoiding_first(1502, 7387);
    lemma_refuted_from(7387, 2, 3693, 1, 1502);
}

/// 8051 = 83 * 97 is no strong probable prime to the base 2.
pub proof fn lemma_refuted_8051()
    ensures
        !strong_probable_prime(8051, 2),
{
    lemma2_to64();
    lemma_squaring_step(2, 1, 8051, 1);
    lemma_squaring_step(2, 3, 8051, 2);
    lemma_squaring_step(2, 7, 8051, 8);
    lemma_squaring_step(2, 15, 8051, 128);
    lemma_squaring_step(2, 31, 8051, 564);
    lemma_squaring_step(2, 62, 8051, 163);
    lemma_squaring_step(2, 125, 8051, 2416);
    lemma_squaring_step(2, 251, 8051, 162);
    lemma_squaring_step(2, 503, 8051, 4182);
    lemma_squaring_step(2, 1006, 8051, 4704);
    lemma_squaring_step(2, 2012, 8051, 3468);
    lemma_squaring_step(2, 4025, 8051, 6881);
    lemma_avoiding_first(460, 8051);
    lemma_refuted_from(8051, 2, 4025, 1, 460);
}

/// 8383 = 83 * 101 is no strong probable prime to the base 2.
pub proof fn lemma_refuted_8383()
    ensures
        !strong_probable_prime(8383, 2),
{
    lemma2_to64();
    lemma_squaring_step(2, 1, 8383, 1);
    lemma_squaring_step(2, 2, 8383, 2);
    lemma_squaring_step(2, 4, 8383, 4);
    lemma_squaring_step(2, 8, 8383, 16);
    lemma_squaring_step(2, 16, 8383, 256);
    lemma_squaring_step(2, 32, 8383, 6855);
    lemma_squaring_step(2, 65, 8383, 4310);
    lemma_squaring_step(2, 130, 8383, 7127);
    lemma_squaring_step(2, 261, 8383, 1532);
    lemma_squaring_step(2, 523, 8383, 7951);
    lemma_squaring_step(2, 1047, 8383, 4396);
    lemma_squaring_step(2, 2095, 8383, 4002);
    lemma_squaring_step(2, 4191, 8383, 565);
    lemma_avoiding_first(1342, 8383);
    lemma_refuted_from(8383, 2, 4191, 1, 1342);
}

/// 8549 = 83 * 103 is no strong probable prime to the base 2.
pub proof fn lemma_refuted_8549()
    ensures
        !strong_probable_prime(8549, 2),
{
    lemma2_to64();
    lemma_squaring_step(2, 1, 8549, 1);
    lemma_squaring_step(2, 2, 8549, 2);
    lemma_squaring_step(2, 4, 8549, 4);
    lemma_squaring_step(2, 8, 8549, 16);
    lemma_squaring_step(2, 16, 8549, 256);
    lemma_squaring_step(2, 33, 8549, 5693);
    lemma_squaring_step(2, 66, 8549, 1980);
    lemma_squaring_step(2, 133, 8549, 4958);
    lemma_squaring_step(2, 267, 8549, 6778);
    lemma_squaring_step(2, 534, 8549, 6465);
    lemma_squaring_step(2, 1068, 8549, 164);
    lemma_squaring_step(2, 2137, 8549, 1249);
    lemma_avoiding_first(1356, 8549);
    lemma_avoiding_step(8166, 8549, 2);
    lemma_refuted_from(8549, 2, 2137, 2, 8166);
}

/// 8881 = 83 * 107 is no strong probable prime to the base 2.
pub proof fn lemma_refuted_8881()
    ensures
        !strong_probable_prime(8881, 2),
{
    lemma2_to64();
    lemma_squaring_step(2, 1, 8881, 1);
    lemma_squaring_step(2, 2, 8881, 2);
    lemma_squaring_step(2, 4, 8881, 4);
    lemma_squaring_step(2, 8, 8881, 16);
    lemma_squaring_step(2, 17, 8881, 256);
    lemma_squaring_step(2, 34, 8881, 6738);
    lemma_squaring_step(2, 69, 8881, 972);
    lemma_squaring_step(2, 138, 8881, 6796);
    lemma_squaring_step(2, 277, 8881, 4416);
    lemma_squaring_step(2, 555, 8881, 5641);
    lemma_avoiding_first(1523, 8881);
    lemma_avoiding_step(3633, 8881, 2);
    lemma_avoiding_step(8707, 8881, 3);
    lemma_avoiding_step(516, 8881, 4);
    lemma_refuted_from(8881, 2, 555, 4, 516);
}

/// 9047 = 83 * 109 is no strong probable prime to the base 2.
pub proof fn lemma_refuted_9047()
    ensures
        !strong_probable_prime(9047, 2),
{
    lemma2_to64();
    lemma_squaring_step(2, 1, 9047, 1);
    lemma_squaring_step(2, 2, 9047, 2);
    lemma_squaring_step(2, 4, 9047, 4);
    lemma_squaring_step(2, 8, 9047, 16);
    lemma_squaring_step(2, 17, 9047, 256);
    lemma_squaring_step(2, 35, 9047, 4414);
    lemma_squaring_step(2, 70, 9047, 1363);
    lemma_squaring_step(2, 141, 9047, 3134);
    lemma_squaring_step(2, 282, 9047, 2875);
    lemma_squaring_step(2, 565, 9047, 5714);
    lemma_squaring_step(2, 1130, 9047, 7393);
    lemma_squaring_step(2, 2261, 9047, 3522);
    lemma_squaring_step(2, 4523, 9047, 2094);
    lemma_avoiding_first(3129, 9047);
    lemma_refuted_from(9047, 2, 4523, 1, 3129);
}

/// 9379 = 83 * 113 is no strong probable prime to the base 2.
pub proof fn lemma_refuted_9379()
    ensures
        !strong_probable_prime(9379, 2),
{
    lemma2_to64();
    lemma_squaring_step(2, 1, 9379, 1);
    lemma_squaring_step(2, 2, 9379, 2);
    lemma_squaring_step(2, 4, 9379, 4);
    lemma_squaring_step(2, 9, 9379, 16);
    lemma_squaring_step(2, 18, 9379, 512);
    lemma_squaring_step(2, 36, 9379, 8911);
    lemma_squaring_step(2, 73, 9379, 3307);
    lemma_squaring_step(2, 146, 9379, 670);
    lemma_squaring_step(2, 293, 9379, 8087);
    lemma_squaring_step(2, 586, 9379, 8983);
    lemma_squaring_step(2, 1172, 9379, 6752);
    lemma_squaring_step(2, 2344, 9379, 7564);
    lemma_squaring_step(2, 4689, 9379, 2196);
    lemma_avoiding_first(3220, 9379);
    lemma_refuted_from(9379, 2, 4689, 1, 3220);
}

/// No product of 83 and a prime from 83 on, up to 10000, is a strong
/// probable prime to both of the bases 2 and 3.
pub proof fn lemma_products_of_83(q: nat)
    requires
        prime_from_37_to_270(q),
        q >= 83,
        83 * q <= 10000,
    ensures
        !strong_probable_prime(83 * q, 2) || !strong_probable_prime(83 * q, 3),
{
    if q == 83 {
        lemma_refuted_6889();
    } else if q == 89 {
        lemma_refuted_7387();
    } else if q == 97 {
        lemma_refuted_8051();
    } else if q == 101 {
        lemma_refuted_8383();
    } else if q == 103 {
        lemma_refuted_8549();
    } else if q == 107 {
        lemma_refuted_8881();
    } else if q == 109 {
        lemma_refuted_9047();
    } else if q == 113 {
        lemma_refuted_9379();
    }
}

} // verus!
