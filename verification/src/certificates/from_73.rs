//! The products of 73 and a prime from 73 on, up to 10000.

use vstd::arithmetic::power2::lemma2_to64;
use vstd::prelude::*;

use crate::certificates::{
    lemma_avoiding_first, lemma_avoiding_step, lemma_refuted_from, lemma_squaring_step,
    prime_from_37_to_270,
};
use crate::primality::strong_probable_prime;

verus! {

/// 5329 = 73 * 73 is no strong probable prime to the base 2.
pub proof fn lemma_refuted_5329()
    ensures
        !strong_probable_prime(5329, 2),
{
    lemma2_to64();
    lemma_squaring_step(2, 1, 5329, 1);
    lemma_squaring_step(2, 2, 5329, 2);
    lemma_squaring_step(2, 5, 5329, 4);
    lemma_squaring_step(2, 10, 5329, 32);
    lemma_squaring_step(2, 20, 5329, 1024);
    lemma_squaring_step(2, 41, 5329, 4092);
    lemma_squaring_step(2, 83, 5329, 1492);
    lemma_squaring_step(2, 166, 5329, 2413);
    lemma_squaring_step(2, 333, 5329, 3301);
    lemma_avoiding_first(2045, 5329);
    lemma_avoiding_step(1023, 5329, 2);
    lemma_avoiding_step(512, 5329, 3);
    lemma_avoiding_step(2921, 5329, 4);
    lemma_refuted_from(5329, 2, 333, 4, 2921);
}

/// 5767 = 73 * 79 is no strong probable prime to the base 2.
pub proof fn lemma_refuted_5767()
    ensures
        !strong_probable_prime(5767, 2),
{
    lemma2_to64();
    lemma_squaring_step(2, 1, 5767, 1);
    lemma_squaring_step(2, 2, 5767, 2);
    lemma_squaring_step(2, 5, 5767, 4);
    lemma_squaring_step(2, 11, 5767, 32);
    lemma_squaring_step(2, 22, 5767, 2048);
    lemma_squaring_step(2, 45, 5767, 1695);
    lemma_squaring_step(2, 90, 5767, 2118);
    lemma_squaring_step(2, 180, 5767, 4965);
    lemma_squaring_step(2, 360, 5767, 3067);
    lemma_squaring_step(2, 720, 5767, 512);
    lemma_squaring_step(2, 1441, 5767, 2629);
    lemma_squaring_step(2, 2883, 5767, 5550);
    lemma_avoiding_first(1906, 5767);
    lemma_refuted_from(5767, 2, 2883, 1, 1906);
}

/// 6059 = 73 * 83 is no strong probable prime to the base 2.
pub proof fn lemma_refuted_6059()
    ensures
        !strong_probable_prime(6059, 2),
{
    lemma2_to64();
    lemma_squaring_step(2, 1, 6059, 1);
    lemma_squaring_step(2, 2, 6059, 2);
    lemma_squaring_step(2, 5, 6059, 4);
    lemma_squaring_step(2, 11, 6059, 32);
    lemma_squaring_step(2, 23, 6059, 2048);
    lemma_squaring_step(2, 47, 6059, 2952);
    lemma_squaring_step(2, 94, 6059, 2924);
    lemma_squaring_step(2, 189, 6059, 527);
    lemma_squaring_step(2, 378, 6059, 4089);
    lemma_squaring_step(2, 757, 6059, 3140);
    lemma_squaring_step(2, 1514, 6059, 3214);
    lemma_squaring_step(2, 3029, 6059, 5260);
    lemma_avoiding_first(4412, 6059);
    lemma_refuted_from(6059, 2, 3029, 1, 4412);
}

/// 6497 = 73 * 89 is no strong probable prime to the base 2.
pub proof fn lemma_refuted_6497()
    ensures
        !strong_probable_prime(6497, 2),
{
    lemma2_to64();
    lemma_squaring_step(2, 1, 6497, 1);
    lemma_squaring_step(2, 3, 6497, 2);
    lemma_squaring_step(2, 6, 6497, 8);
    lemma_squaring_step(2, 12, 6497, 64);
    lemma_squaring_step(2, 25, 6497, 4096);
    lemma_squaring_step(2, 50, 6497, 3924);
    lemma_squaring_step(2, 101, 6497, 6383);
    lemma_squaring_step(2, 203, 6497, 4);
    lemma_avoiding_first(4636, 6497);
    lemma_avoiding_step(6002, 6497, 2);
    lemma_avoiding_step(2559, 6497, 3);
    lemma_avoiding_step(1024, 6497, 4);
    lemma_avoiding_step(32, 6497, 5);
    lemma_refuted_from(6497, 2, 203, 5, 32);
}

/// 7081 = 73 * 97 is no strong probable prime to the base 2.
pub proof fn lemma_refuted_7081()
    ensures
        !strong_probable_prime(7081, 2),
{
    lemma2_to64();
    lemma_squaring_step(2, 1, 7081, 1);
    lemma_squaring_step(2, 3, 7081, 2);
    lemma_squaring_step(2, 6, 7081, 8);
    lemma_squaring_step(2, 13, 7081, 64);
    lemma_squaring_step(2, 27, 7081, 1111);
    lemma_squaring_step(2, 55, 7081, 4454);
    lemma_squaring_step(2, 110, 7081, 1389);
    lemma_squaring_step(2, 221, 7081, 3289);
    lemma_squaring_step(2, 442, 7081, 2587);
    lemma_squaring_step(2, 885, 7081, 1024);
    lemma_avoiding_first(5410, 7081);
    lemma_avoiding_step(2181, 7081, 2);
    lemma_avoiding_step(1176, 7081, 3);
    lemma_refuted_from(7081, 2, 885, 3, 1176);
}

/// 7373 = 73 * 101 is no strong probable prime to the base 2.
pub proof fn lemma_refuted_7373()
    ensures
        !strong_probable_prime(7373, 2),
{
    lemma2_to64();
    lemma_squaring_step(2, 1, 7373, 1);
    lemma_squaring_step(2, 3, 7373, 2);
    lemma_squaring_step(2, 7, 7373, 8);
    lemma_squaring_step(2, 14, 7373, 128);
    lemma_squaring_step(2, 28, 7373, 1638);
    lemma_squaring_step(2, 57, 7373, 6645);
    lemma_squaring_step(2, 115, 7373, 5629);
    lemma_squaring_step(2, 230, 7373, 347);
    lemma_squaring_step(2, 460, 7373, 2441);
    lemma_squaring_step(2, 921, 7373, 1097);
    lemma_squaring_step(2, 1843, 7373, 3220);
    lemma_avoiding_first(2952, 7373);
    lemma_avoiding_step(3924, 7373, 2);
    lemma_refuted_from(7373, 2, 1843, 2, 3924);
}

/// 7519 = 73 * 103 is no strong probable prime to the base 2.
pub proof fn lemma_refuted_7519()
    ensures
        !strong_probable_prime(7519, 2),
{
    lemma2_to64();
    lemma_squaring_step(2, 1, 7519, 1);
    lemma_squaring_step(2, 3, 7519, 2);
    lemma_squaring_step(2, 7, 7519, 8);
    lemma_squaring_step(2, 14, 7519, 128);
    lemma_squaring_step(2, 29, 7519, 1346);
    lemma_squaring_step(2, 58, 7519, 6793);
    lemma_squaring_step(2, 117, 7519, 746);
    lemma_squaring_step(2, 234, 7519, 220);
    lemma_squaring_step(2, 469, 7519, 3286);
    lemma_squaring_step(2, 939, 7519, 1024);
    lemma_squaring_step(2, 1879, 7519, 6870);
    lemma_squaring_step(2, 3759, 7519, 274);
    lemma_avoiding_first(7291, 7519);
    lemma_refuted_from(7519, 2, 3759, 1, 7291);
}

/// 7811 = 73 * 107 is no strong probable prime to the base 2.
pub proof fn lemma_refuted_7811()
    ensures
        !strong_probable_prime(7811, 2),
{
    lemma2_to64();
    lemma_squaring_step(2, 1, 7811, 1);
    lemma_squaring_step(2, 3, 7811, 2);
    lemma_squaring_step(2, 7, 7811, 8);
    lemma_squaring_step(2, 15, 7811, 128);
    lemma_squaring_step(2, 30, 7811, 1524);
    lemma_squaring_step(2, 61, 7811, 2709);
    lemma_squaring_step(2, 122, 7811, 493);
    lemma_squaring_step(2, 244, 7811, 908);
    lemma_squaring_step(2, 488, 7811, 4309);
    lemma_squaring_step(2, 976, 7811, 734);
    lemma_squaring_step(2, 1952, 7811, 7608);
    lemma_squaring_step(2, 3905, 7811, 2154);
    lemma_avoiding_first(7775, 7811);
    lemma_refuted_from(7811, 2, 3905, 1, 7775);
}

/// 7957 = 73 * 109 is no strong probable prime to the base 2.
pub proof fn lemma_refuted_7957()
    ensures
        !strong_probable_prime(7957, 2),
{
    lemma2_to64();
    lemma_squaring_step(2, 1, 7957, 1);
    lemma_squaring_step(2, 3, 7957, 2);
    lemma_squaring_step(2, 7, 7957, 8);
    lemma_squaring_step(2, 15, 7957, 128);
    lemma_squaring_step(2, 31, 7957, 940);
    lemma_squaring_step(2, 62, 7957, 746);
    lemma_squaring_step(2, 124, 7957, 7483);
    lemma_squaring_step(2, 248, 7957, 1880);
    lemma_squaring_step(2, 497, 7957, 1492);
    lemma_squaring_step(2, 994, 7957, 4165);
    lemma_squaring_step(2, 1989, 7957, 965);
    lemma_avoiding_first(7520, 7957);
    lemma_avoiding_step(512, 7957, 2);
    lemma_refuted_from(7957, 2, 1989, 2, 512);
}

/// 8249 = 73 * 113 is no strong probable prime to the base 2.
pub proof fn lemma_refuted_8249()
    ensures
        !strong_probable_prime(8249, 2),
{
    lemma2_to64();
    lemma_squaring_step(2, 1, 8249, 1);
    lemma_squaring_step(2, 2, 8249, 2);
    lemma_squaring_step(2, 4, 8249, 4);
    lemma_squaring_step(2, 8, 8249, 16);
    lemma_squaring_step(2, 16, 8249, 256);
    lemma_squaring_step(2, 32, 8249, 7793);
    lemma_squaring_step(2, 64, 8249, 1711);
    lemma_squaring_step(2, 128, 8249, 7375);
    lemma_squaring_step(2, 257, 8249, 4968);
    lemma_squaring_step(2, 515, 8249, 32);
    lemma_squaring_step(2, 1031, 8249, 2048);
    lemma_avoiding_first(369, 8249);
    lemma_avoiding_step(2922, 8249, 2);
    lemma_avoiding_step(7624, 8249, 3);
    lemma_refuted_from(8249, 2, 1031, 3, 7624);
}

/// 9271 = 73 * 127 is no strong probable prime to the base 2.
pub proof fn lemma_refuted_9271()
    ensures
        !strong_probable_prime(9271, 2),
{
    lemma2_to64();
    lemma_squaring_step(2, 1, 9271, 1);
    lemma_squaring_step(2, 2, 9271, 2);
    lemma_squaring_step(2, 4, 9271, 4);
    lemma_squaring_step(2, 9, 9271, 16);
    lemma_squaring_step(2, 18, 9271, 512);
    lemma_squaring_step(2, 36, 9271, 2556);
    lemma_squaring_step(2, 72, 9271, 6352);
    lemma_squaring_step(2, 144, 9271, 512);
    lemma_squaring_step(2, 289, 9271, 2556);
    lemma_squaring_step(2, 579, 9271, 3433);
    lemma_squaring_step(2, 1158, 9271, 4096);
    lemma_squaring_step(2, 2317, 9271, 5977);
    lemma_squaring_step(2, 4635, 9271, 6732);
    lemma_avoiding_first(6352, 9271);
    lemma_refuted_from(9271, 2, 4635, 1, 6352);
}

/// 9563 = 73 * 131 is no strong probable prime to the base 2.
pub proof fn lemma_refuted_9563()
    ensures
        !strong_probable_prime(9563, 2),
{
    lemma2_to64();
    lemma_squaring_step(2, 1, 9563, 1);
    lemma_squaring_step(2, 2, 9563, 2);
    lemma_squaring_step(2, 4, 9563, 4);
    lemma_squaring_step(2, 9, 9563, 16);
    lemma_squaring_step(2, 18, 9563, 512);
    lemma_squaring_step(2, 37, 9563, 3943);
    lemma_squaring_step(2, 74, 9563, 5185);
    lemma_squaring_step(2, 149, 9563, 2632);
    lemma_squaring_step(2, 298, 9563, 7624);
    lemma_squaring_step(2, 597, 9563, 1462);
    lemma_squaring_step(2, 1195, 9563, 227);
    lemma_squaring_step(2, 2390, 9563, 7428);
    lemma_squaring_step(2, 4781, 9563, 6237);
    lemma_avoiding_first(5333, 9563);
    lemma_refuted_from(9563, 2, 4781, 1, 5333);
}

/// No product of 73 and a prime from 73 on, up to 10000, is a strong
/// probable prime to both of the bases 2 and 3.
pub proof fn lemma_products_of_73(q: nat)
    requires
        prime_from_37_to_270(q),
        q >= 73,
        73 * q <= 10000,
    ensures
        !strong_probable_prime(73 * q, 2) || !strong_probable_prime(73 * q, 3),
{
    if q == 73 {
        lemma_refuted_5329();
    } else if q == 79 {
        lemma_refuted_5767();
    } else if q == 83 {
        lemma_refuted_6059();
    } else if q == 89 {
        lemma_refuted_6497();
    } else if q == 97 {
        lemma_refuted_7081();
    } else if q == 101 {
        lemma_refuted_7373();
    } else if q == 103 {
        lemma_refuted_7519();
    } else if q == 107 {
        lemma_refuted_7811();
    } else if q == 109 {
        lemma_refuted_7957();
    } else if q == 113 {
        lemma_refuted_8249();
    } else if q == 127 {
        lemma_refuted_9271();
    } else if q == 131 {
        lemma_refuted_9563();
    }
}

} // verus!
