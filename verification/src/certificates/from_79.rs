//! The products of 79 and a prime from 79 on, up to 10000.

use vstd::arithmetic::power2::lemma2_to64;
use vstd::prelude::*;

use crate::certificates::{
    lemma_avoiding_first, lemma_avoiding_step, lemma_refuted_from, lemma_squaring_step,
    prime_from_37_to_270,
};
use crate::primality::strong_probable_prime;

verus! {

/// 6241 = 79 * 79 is no strong probable prime to the base 2.
pub proof fn lemma_refuted_6241()
    ensures
        !strong_probable_prime(6241, 2),
{
    lemma2_to64();
    lemma_squaring_step(2, 1, 6241, 1);
    lemma_squaring_step(2, 3, 6241, 2);
    lemma_squaring_step(2, 6, 6241, 8);
    lemma_squaring_step(2, 12, 6241, 64);
    lemma_squaring_step(2, 24, 6241, 4096);
    lemma_squaring_step(2, 48, 6241, 1408);
    lemma_squaring_step(2, 97, 6241, 4067);
    lemma_squaring_step(2, 195, 6241, 3678);
    lemma_avoiding_first(3872, 6241);
    lemma_avoiding_step(5057, 6241, 2);
    lemma_avoiding_step(2529, 6241, 3);
    lemma_avoiding_step(1265, 6241, 4);
    lemma_avoiding_step(633, 6241, 5);
    lemma_refuted_from(6241, 2, 195, 5, 633);
}

/// 6557 = 79 * 83 is no strong probable prime to the base 2.
pub proof fn lemma_refuted_6557()
    ensures
        !strong_probable_prime(6557, 2),
{
    lemma2_to64();
    lemma_squaring_step(2, 1, 6557, 1);
    lemma_squaring_step(2, 3, 6557, 2);
    lemma_squaring_step(2, 6, 6557, 8);
    lemma_squaring_step(2, 12, 6557, 64);
    lemma_squaring_step(2, 25, 6557, 4096);
    lemma_squaring_step(2, 51, 6557, 2263);
    lemma_squaring_step(2, 102, 6557, 304);
    lemma_squaring_step(2, 204, 6557, 618);
    lemma_squaring_step(2, 409, 6557, 1618);
    lemma_squaring_step(2, 819, 6557, 3362);
    lemma_squaring_step(2, 1639, 6557, 4109);
    lemma_avoiding_first(4586, 6557);
    lemma_avoiding_step(5769, 6557, 2);
    lemma_refuted_from(6557, 2, 1639, 2, 5769);
}

/// 7031 = 79 * 89 is no strong probable prime to the base 2.
pub proof fn lemma_refuted_7031()
    ensures
        !strong_probable_prime(7031, 2),
{
    lemma2_to64();
    lemma_squaring_step(2, 1, 7031, 1);
    lemma_squaring_step(2, 3, 7031, 2);
    lemma_squaring_step(2, 6, 7031, 8);
    lemma_squaring_step(2, 13, 7031, 64);
    lemma_squaring_step(2, 27, 7031, 1161);
    lemma_squaring_step(2, 54, 7031, 2969);
    lemma_squaring_step(2, 109, 7031, 5118);
    lemma_squaring_step(2, 219, 7031, 6898);
    lemma_squaring_step(2, 439, 7031, 223);
    lemma_squaring_step(2, 878, 7031, 1024);
    lemma_squaring_step(2, 1757, 7031, 957);
    lemma_squaring_step(2, 3515, 7031, 3638);
    lemma_avoiding_first(5404, 7031);
    lemma_refuted_from(7031, 2, 3515, 1, 5404);
}

/// 7663 = 79 * 97 is no strong probable prime to the base 2.
pub proof fn lemma_refuted_7663()
    ensures
        !strong_probable_prime(7663, 2),
{
    lemma2_to64();
    lemma_squaring_step(2, 1, 7663, 1);
    lemma_squaring_step(2, 3, 7663, 2);
    lemma_squaring_step(2, 7, 7663, 8);
    lemma_squaring_step(2, 14, 7663, 128);
    lemma_squaring_step(2, 29, 7663, 1058);
    lemma_squaring_step(2, 59, 7663, 1132);
    lemma_squaring_step(2, 119, 7663, 3406);
    lemma_squaring_step(2, 239, 7663, 5771);
    lemma_squaring_step(2, 478, 7663, 2086);
    lemma_squaring_step(2, 957, 7663, 6475);
    lemma_squaring_step(2, 1915, 7663, 2704);
    lemma_squaring_step(2, 3831, 7663, 2228);
    lemma_avoiding_first(4383, 7663);
    lemma_refuted_from(7663, 2, 3831, 1, 4383);
}

/// 7979 = 79 * 101 is no strong probable prime to the base 2.
pub proof fn lemma_refuted_7979()
    ensures
        !strong_probable_prime(7979, 2),
{
    lemma2_to64();
    lemma_squaring_step(2, 1, 7979, 1);
    lemma_squaring_step(2, 3, 7979, 2);
    lemma_squaring_step(2, 7, 7979, 8);
    lemma_squaring_step(2, 15, 7979, 128);
    lemma_squaring_step(2, 31, 7979, 852);
    lemma_squaring_step(2, 62, 7979, 7609);
    lemma_squaring_step(2, 124, 7979, 1257);
    lemma_squaring_step(2, 249, 7979, 207);
    lemma_squaring_step(2, 498, 7979, 5908);
    lemma_squaring_step(2, 997, 7979, 4318);
    lemma_squaring_step(2, 1994, 7979, 4381);
    lemma_squaring_step(2, 3989, 7979, 3666);
    lemma_avoiding_first(5840, 7979);
    lemma_refuted_from(7979, 2, 3989, 1, 5840);
}

/// 8137 = 79 * 103 is no strong probable prime to the base 2.
pub proof fn lemma_refuted_8137()
    ensures
        !strong_probable_prime(8137, 2),
{
    lemma2_to64();
    lemma_squaring_step(2, 1, 8137, 1);
    lemma_squaring_step(2, 3, 8137, 2);
    lemma_squaring_step(2, 7, 8137, 8);
    lemma_squaring_step(2, 15, 8137, 128);
    lemma_squaring_step(2, 31, 8137, 220);
    lemma_squaring_step(2, 63, 8137, 7293);
    lemma_squaring_step(2, 127, 8137, 697);
    lemma_squaring_step(2, 254, 8137, 3315);
    lemma_squaring_step(2, 508, 8137, 4275);
    lemma_squaring_step(2, 1017, 8137, 8060);
    lemma_avoiding_first(1884, 8137);
    lemma_avoiding_step(4804, 8137, 2);
    lemma_avoiding_step(3721, 8137, 3);
    lemma_refuted_from(8137, 2, 1017, 3, 3721);
}

/// 8453 = 79 * 107 is no strong probable prime to the base 2.
pub proof fn lemma_refuted_8453()
    ensures
        !strong_probable_prime(8453, 2),
{
    lemma2_to64();
    lemma_squaring_step(2, 1, 8453, 1);
    lemma_squaring_step(2, 2, 8453, 2);
    lemma_squaring_step(2, 4, 8453, 4);
    lemma_squaring_step(2, 8, 8453, 16);
    lemma_squaring_step(2, 16, 8453, 256);
    lemma_squaring_step(2, 33, 8453, 6365);
    lemma_squaring_step(2, 66, 8453, 4445);
    lemma_squaring_step(2, 132, 8453, 3364);
    lemma_squaring_step(2, 264, 8453, 6382);
    lemma_squaring_step(2, 528, 8453, 3370);
    lemma_squaring_step(2, 1056, 8453, 4521);
    lemma_squaring_step(2, 2113, 8453, 87);
    lemma_avoiding_first(6667, 8453);
    lemma_avoiding_step(6685, 8453, 2);
    lemma_refuted_from(8453, 2, 2113, 2, 6685);
}

/// 8611 = 79 * 109 is no strong probable prime to the base 2.
pub proof fn lemma_refuted_8611()
    ensures
        !strong_probable_prime(8611, 2),
{
    lemma2_to64();
    lemma_squaring_step(2, 1, 8611, 1);
    lemma_squaring_step(2, 2, 8611, 2);
    lemma_squaring_step(2, 4, 8611, 4);
    lemma_squaring_step(2, 8, 8611, 16);
    lemma_squaring_step(2, 16, 8611, 256);
    lemma_squaring_step(2, 33, 8611, 5259);
    lemma_squaring_step(2, 67, 8611, 5709);
    lemma_squaring_step(2, 134, 8611, 92);
    lemma_squaring_step(2, 269, 8611, 8464);
    lemma_squaring_step(2, 538, 8611, 163);
    lemma_squaring_step(2, 1076, 8611, 736);
    lemma_squaring_step(2, 2152, 8611, 7814);
    lemma_squaring_step(2, 4305, 8611, 6606);
    lemma_avoiding_first(5987, 8611);
    lemma_refuted_from(8611, 2, 4305, 1, 5987);
}

/// 8927 = 79 * 113 is no strong probable prime to the base 2.
pub proof fn lemma_refuted_8927()
    ensures
        !strong_probable_prime(8927, 2),
{
    lemma2_to64();
    lemma_squaring_step(2, 1, 8927, 1);
    lemma_squaring_step(2, 2, 8927, 2);
    lemma_squaring_step(2, 4, 8927, 4);
    lemma_squaring_step(2, 8, 8927, 16);
    lemma_squaring_step(2, 17, 8927, 256);
    lemma_squaring_step(2, 34, 8927, 6094);
    lemma_squaring_step(2, 69, 8927, 516);
    lemma_squaring_step(2, 139, 8927, 5819);
    lemma_squaring_step(2, 278, 8927, 1300);
    lemma_squaring_step(2, 557, 8927, 2797);
    lemma_squaring_step(2, 1115, 8927, 6314);
    lemma_squaring_step(2, 2231, 8927, 6155);
    lemma_squaring_step(2, 4463, 8927, 4601);
    lemma_avoiding_first(6568, 8927);
    lemma_refuted_from(8927, 2, 4463, 1, 6568);
}

/// No product of 79 and a prime from 79 on, up to 10000, is a strong
/// probable prime to both of the bases 2 and 3.
pub proof fn lemma_products_of_79(q: nat)
    requires
        prime_from_37_to_270(q),
        q >= 79,
        79 * q <= 10000,
    ensures
        !strong_probable_prime(79 * q, 2) || !strong_probable_prime(79 * q, 3),
{
    if q == 79 {
        lemma_refuted_6241();
    } else if q == 83 {
        lemma_refuted_6557();
    } else if q == 89 {
        lemma_refuted_7031();
    } else if q == 97 {
        lemma_refuted_7663();
    } else if q == 101 {
        lemma_refuted_7979();
    } else if q == 103 {
        lemma_refuted_8137();
    } else if q == 107 {
        lemma_refuted_8453();
    } else if q == 109 {
        lemma_refuted_8611();
    } else if q == 113 {
        lemma_refuted_8927();
    }
}

} // verus!
