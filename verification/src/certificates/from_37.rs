//! The products of 37 and a prime from 37 on, up to 10000.

use vstd::arithmetic::power2::lemma2_to64;
use vstd::prelude::*;

use crate::certificates::{
    lemma_avoiding_first, lemma_avoiding_step, lemma_refuted_from, lemma_squaring_step,
    prime_from_37_to_270,
};
use crate::primality::strong_probable_prime;

verus! {

/// 1369 = 37 * 37 is no strong probable prime to the base 2.
pub proof fn lemma_refuted_1369()
    ensures
        !strong_probable_prime(1369, 2),
{
    lemma2_to64();
    lemma_squaring_step(2, 1, 1369, 1);
    lemma_squaring_step(2, 2, 1369, 2);
    lemma_squaring_step(2, 5, 1369, 4);
    lemma_squaring_step(2, 10, 1369, 32);
    lemma_squaring_step(2, 21, 1369, 1024);
    lemma_squaring_step(2, 42, 1369, 1213);
    lemma_squaring_step(2, 85, 1369, 1063);
    lemma_squaring_step(2, 171, 1369, 1088);
    lemma_avoiding_first(704, 1369);
    lemma_avoiding_step(332, 1369, 2);
    lemma_avoiding_step(487, 1369, 3);
    lemma_refuted_from(1369, 2, 171, 3, 487);
}

/// 1517 = 37 * 41 is no strong probable prime to the base 2.
pub proof fn lemma_refuted_1517()
    ensures
        !strong_probable_prime(1517, 2),
{
    lemma2_to64();
    lemma_squaring_step(2, 1, 1517, 1);
    lemma_squaring_step(2, 2, 1517, 2);
    lemma_squaring_step(2, 5, 1517, 4);
    lemma_squaring_step(2, 11, 1517, 32);
    lemma_squaring_step(2, 23, 1517, 531);
    lemma_squaring_step(2, 47, 1517, 1115);
    lemma_squaring_step(2, 94, 1517, 87);
    lemma_squaring_step(2, 189, 1517, 1501);
    lemma_squaring_step(2, 379, 1517, 512);
    lemma_avoiding_first(892, 1517);
    lemma_avoiding_step(923, 1517, 2);
    lemma_refuted_from(1517, 2, 379, 2, 923);
}

/// 1591 = 37 * 43 is no strong probable prime to the base 2.
pub proof fn lemma_refuted_1591()
    ensures
        !strong_probable_prime(1591, 2),
{
    lemma2_to64();
    lemma_squaring_step(2, 1, 1591, 1);
    lemma_squaring_step(2, 3, 1591, 2);
    lemma_squaring_step(2, 6, 1591, 8);
    lemma_squaring_step(2, 12, 1591, 64);
    lemma_squaring_step(2, 24, 1591, 914);
    lemma_squaring_step(2, 49, 1591, 121);
    lemma_squaring_step(2, 99, 1591, 644);
    lemma_squaring_step(2, 198, 1591, 561);
    lemma_squaring_step(2, 397, 1591, 1294);
    lemma_squaring_step(2, 795, 1591, 1408);
    lemma_avoiding_first(156, 1591);
    lemma_refuted_from(1591, 2, 795, 1, 156);
}

/// 1739 = 37 * 47 is no strong probable prime to the base 2.
pub proof fn lemma_refuted_1739()
    ensures
        !strong_probable_prime(1739, 2),
{
    lemma2_to64();
    lemma_squaring_step(2, 1, 1739, 1);
    lemma_squaring_step(2, 3, 1739, 2);
    lemma_squaring_step(2, 6, 1739, 8);
    lemma_squaring_step(2, 13, 1739, 64);
    lemma_squaring_step(2, 27, 1739, 1236);
    lemma_squaring_step(2, 54, 1739, 1708);
    lemma_squaring_step(2, 108, 1739, 961);
    lemma_squaring_step(2, 217, 1739, 112);
    lemma_squaring_step(2, 434, 1739, 742);
    lemma_squaring_step(2, 869, 1739, 1040);
    lemma_avoiding_first(1623, 1739);
    lemma_refuted_from(1739, 2, 869, 1, 1623);
}

/// 1961 = 37 * 53 is no strong probable prime to the base 2.
pub proof fn lemma_refuted_1961()
    ensures
        !strong_probable_prime(1961, 2),
{
    lemma2_to64();
    lemma_squaring_step(2, 1, 1961, 1);
    lemma_squaring_step(2, 3, 1961, 2);
    lemma_squaring_step(2, 7, 1961, 8);
    lemma_squaring_step(2, 15, 1961, 128);
    lemma_squaring_step(2, 30, 1961, 1392);
    lemma_squaring_step(2, 61, 1961, 196);
    lemma_squaring_step(2, 122, 1961, 353);
    lemma_squaring_step(2, 245, 1961, 1066);
    lemma_avoiding_first(1107, 1961);
    lemma_avoiding_step(1686, 1961, 2);
    lemma_avoiding_step(1874, 1961, 3);
    lemma_refuted_from(1961, 2, 245, 3, 1874);
}

/// 2183 = 37 * 59 is no strong probable prime to the base 2.
pub proof fn lemma_refuted_2183()
    ensures
        !strong_probable_prime(2183, 2),
{
    lemma2_to64();
    lemma_squaring_step(2, 1, 2183, 1);
    lemma_squaring_step(2, 2, 2183, 2);
    lemma_squaring_step(2, 4, 2183, 4);
    lemma_squaring_step(2, 8, 2183, 16);
    lemma_squaring_step(2, 17, 2183, 256);
    lemma_squaring_step(2, 34, 2183, 92);
    lemma_squaring_step(2, 68, 2183, 1915);
    lemma_squaring_step(2, 136, 2183, 1968);
    lemma_squaring_step(2, 272, 2183, 382);
    lemma_squaring_step(2, 545, 2183, 1846);
    lemma_squaring_step(2, 1091, 2183, 106);
    lemma_avoiding_first(642, 2183);
    lemma_refuted_from(2183, 2, 1091, 1, 642);
}

/// 2257 = 37 * 61 is no strong probable prime to the base 2.
pub proof fn lemma_refuted_2257()
    ensures
        !strong_probable_prime(2257, 2),
{
    lemma2_to64();
    lemma_squaring_step(2, 1, 2257, 1);
    lemma_squaring_step(2, 2, 2257, 2);
    lemma_squaring_step(2, 4, 2257, 4);
    lemma_squaring_step(2, 8, 2257, 16);
    lemma_squaring_step(2, 17, 2257, 256);
    lemma_squaring_step(2, 35, 2257, 166);
    lemma_squaring_step(2, 70, 2257, 944);
    lemma_squaring_step(2, 141, 2257, 1878);
    lemma_avoiding_first(766, 2257);
    lemma_avoiding_step(935, 2257, 2);
    lemma_avoiding_step(418, 2257, 3);
    lemma_avoiding_step(643, 2257, 4);
    lemma_refuted_from(2257, 2, 141, 4, 643);
}

/// 2479 = 37 * 67 is no strong probable prime to the base 2.
pub proof fn lemma_refuted_2479()
    ensures
        !strong_probable_prime(2479, 2),
{
    lemma2_to64();
    lemma_squaring_step(2, 1, 2479, 1);
    lemma_squaring_step(2, 2, 2479, 2);
    lemma_squaring_step(2, 4, 2479, 4);
    lemma_squaring_step(2, 9, 2479, 16);
    lemma_squaring_step(2, 19, 2479, 512);
    lemma_squaring_step(2, 38, 2479, 1219);
    lemma_squaring_step(2, 77, 2479, 1040);
    lemma_squaring_step(2, 154, 2479, 1512);
    lemma_squaring_step(2, 309, 2479, 506);
    lemma_squaring_step(2, 619, 2479, 1398);
    lemma_squaring_step(2, 1239, 2479, 1904);
    lemma_avoiding_first(1836, 2479);
    lemma_refuted_from(2479, 2, 1239, 1, 1836);
}

/// 2627 = 37 * 71 is no strong probable prime to the base 2.
pub proof fn lemma_refuted_2627()
    ensures
        !strong_probable_prime(2627, 2),
{
    lemma2_to64();
    lemma_squaring_step(2, 1, 2627, 1);
    lemma_squaring_step(2, 2, 2627, 2);
    lemma_squaring_step(2, 5, 2627, 4);
    lemma_squaring_step(2, 10, 2627, 32);
    lemma_squaring_step(2, 20, 2627, 1024);
    lemma_squaring_step(2, 41, 2627, 403);
    lemma_squaring_step(2, 82, 2627, 1697);
    lemma_squaring_step(2, 164, 2627, 617);
    lemma_squaring_step(2, 328, 2627, 2401);
    lemma_squaring_step(2, 656, 2627, 1163);
    lemma_squaring_step(2, 1313, 2627, 2291);
    lemma_avoiding_first(2497, 2627);
    lemma_refuted_from(2627, 2, 1313, 1, 2497);
}

/// 2701 = 37 * 73 is no strong probable prime to the base 2.
pub proof fn lemma_refuted_2701()
    ensures
        !strong_probable_prime(2701, 2),
{
    lemma2_to64();
    lemma_squaring_step(2, 1, 2701, 1);
    lemma_squaring_step(2, 2, 2701, 2);
    lemma_squaring_step(2, 5, 2701, 4);
    lemma_squaring_step(2, 10, 2701, 32);
    lemma_squaring_step(2, 21, 2701, 1024);
    lemma_squaring_step(2, 42, 2701, 1176);
    lemma_squaring_step(2, 84, 2701, 64);
    lemma_squaring_step(2, 168, 2701, 1395);
    lemma_squaring_step(2, 337, 2701, 1305);
    lemma_squaring_step(2, 675, 2701, 89);
    lemma_avoiding_first(147, 2701);
    lemma_avoiding_step(2337, 2701, 2);
    lemma_refuted_from(2701, 2, 675, 2, 2337);
}

/// 2923 = 37 * 79 is no strong probable prime to the base 2.
pub proof fn lemma_refuted_2923()
    ensures
        !strong_probable_prime(2923, 2),
{
    lemma2_to64();
    lemma_squaring_step(2, 1, 2923, 1);
    lemma_squaring_step(2, 2, 2923, 2);
    lemma_squaring_step(2, 5, 2923, 4);
    lemma_squaring_step(2, 11, 2923, 32);
    lemma_squaring_step(2, 22, 2923, 2048);
    lemma_squaring_step(2, 45, 2923, 2722);
    lemma_squaring_step(2, 91, 2923, 1881);
    lemma_squaring_step(2, 182, 2923, 2662);
    lemma_squaring_step(2, 365, 2923, 892);
    lemma_squaring_step(2, 730, 2923, 1216);
    lemma_squaring_step(2, 1461, 2923, 2541);
    lemma_avoiding_first(2471, 2923);
    lemma_refuted_from(2923, 2, 1461, 1, 2471);
}

/// 3071 = 37 * 83 is no strong probable prime to the base 2.
pub proof fn lemma_refuted_3071()
    ensures
        !strong_probable_prime(3071, 2),
{
    lemma2_to64();
    lemma_squaring_step(2, 1, 3071, 1);
    lemma_squaring_step(2, 2, 3071, 2);
    lemma_squaring_step(2, 5, 3071, 4);
    lemma_squaring_step(2, 11, 3071, 32);
    lemma_squaring_step(2, 23, 3071, 2048);
    lemma_squaring_step(2, 47, 3071, 1707);
    lemma_squaring_step(2, 95, 3071, 2011);
    lemma_squaring_step(2, 191, 3071, 2299);
    lemma_squaring_step(2, 383, 3071, 420);
    lemma_squaring_step(2, 767, 3071, 2706);
    lemma_squaring_step(2, 1535, 3071, 2344);
    lemma_avoiding_first(634, 3071);
    lemma_refuted_from(3071, 2, 1535, 1, 634);
}

/// 3293 = 37 * 89 is no strong probable prime to the base 2.
pub proof fn lemma_refuted_3293()
    ensures
        !strong_probable_prime(3293, 2),
{
    lemma2_to64();
    lemma_squaring_step(2, 1, 3293, 1);
    lemma_squaring_step(2, 3, 3293, 2);
    lemma_squaring_step(2, 6, 3293, 8);
    lemma_squaring_step(2, 12, 3293, 64);
    lemma_squaring_step(2, 25, 3293, 803);
    lemma_squaring_step(2, 51, 3293, 2055);
    lemma_squaring_step(2, 102, 3293, 2798);
    lemma_squaring_step(2, 205, 3293, 1343);
    lemma_squaring_step(2, 411, 3293, 1463);
    lemma_squaring_step(2, 823, 3293, 3131);
    lemma_avoiding_first(484, 3293);
    lemma_avoiding_step(3093, 3293, 2);
    lemma_refuted_from(3293, 2, 823, 2, 3093);
}

/// 3589 = 37 * 97 is no strong probable prime to the base 2.
pub proof fn lemma_refuted_3589()
    ensures
        !strong_probable_prime(3589, 2),
{
    lemma2_to64();
    lemma_squaring_step(2, 1, 3589, 1);
    lemma_squaring_step(2, 3, 3589, 2);
    lemma_squaring_step(2, 7, 3589, 8);
    lemma_squaring_step(2, 14, 3589, 128);
    lemma_squaring_step(2, 28, 3589, 2028);
    lemma_squaring_step(2, 56, 3589, 3379);
    lemma_squaring_step(2, 112, 3589, 1032);
    lemma_squaring_step(2, 224, 3589, 2680);
    lemma_squaring_step(2, 448, 3589, 811);
    lemma_squaring_step(2, 897, 3589, 934);
    lemma_avoiding_first(1602, 3589);
    lemma_avoiding_step(458, 3589, 2);
    lemma_refuted_from(3589, 2, 897, 2, 458);
}

/// 3737 = 37 * 101 is no strong probable prime to the base 2.
pub proof fn lemma_refuted_3737()
    ensures
        !strong_probable_prime(3737, 2),
{
    lemma2_to64();
    lemma_squaring_step(2, 1, 3737, 1);
    lemma_squaring_step(2, 3, 3737, 2);
    lemma_squaring_step(2, 7, 3737, 8);
    lemma_squaring_step(2, 14, 3737, 128);
    lemma_squaring_step(2, 29, 3737, 1436);
    lemma_squaring_step(2, 58, 3737, 2281);
    lemma_squaring_step(2, 116, 3737, 1057);
    lemma_squaring_step(2, 233, 3737, 3623);
    lemma_squaring_step(2, 467, 3737, 3570);
    lemma_avoiding_first(2375, 3737);
    lemma_avoiding_step(1989, 3737, 2);
    lemma_avoiding_step(3460, 3737, 3);
    lemma_refuted_from(3737, 2, 467, 3, 3460);
}

/// 3811 = 37 * 103 is no strong probable prime to the base 2.
pub proof fn lemma_refuted_3811()
    ensures
        !strong_probable_prime(3811, 2),
{
    lemma2_to64();
    lemma_squaring_step(2, 1, 3811, 1);
    lemma_squaring_step(2, 3, 3811, 2);
    lemma_squaring_step(2, 7, 3811, 8);
    lemma_squaring_step(2, 14, 3811, 128);
    lemma_squaring_step(2, 29, 3811, 1140);
    lemma_squaring_step(2, 59, 3811, 98);
    lemma_squaring_step(2, 119, 3811, 153);
    lemma_squaring_step(2, 238, 3811, 1086);
    lemma_squaring_step(2, 476, 3811, 1797);
    lemma_squaring_step(2, 952, 3811, 1292);
    lemma_squaring_step(2, 1905, 3811, 46);
    lemma_avoiding_first(421, 3811);
    lemma_refuted_from(3811, 2, 1905, 1, 421);
}

/// 3959 = 37 * 107 is no strong probable prime to the base 2.
pub proof fn lemma_refuted_3959()
    ensures
        !strong_probable_prime(3959, 2),
{
    lemma2_to64();
    lemma_squaring_step(2, 1, 3959, 1);
    lemma_squaring_step(2, 3, 3959, 2);
    lemma_squaring_step(2, 7, 3959, 8);
    lemma_squaring_step(2, 15, 3959, 128);
    lemma_squaring_step(2, 30, 3959, 1096);
    lemma_squaring_step(2, 61, 3959, 1639);
    lemma_squaring_step(2, 123, 3959, 279);
    lemma_squaring_step(2, 247, 3959, 1281);
    lemma_squaring_step(2, 494, 3959, 3870);
    lemma_squaring_step(2, 989, 3959, 3);
    lemma_squaring_step(2, 1979, 3959, 18);
    lemma_avoiding_first(648, 3959);
    lemma_refuted_from(3959, 2, 1979, 1, 648);
}

/// 4033 = 37 * 109 is no strong probable prime to the base 3.
pub proof fn lemma_refuted_4033()
    ensures
        !strong_probable_prime(4033, 3),
{
    lemma2_to64();
    lemma_squaring_step(3, 1, 4033, 1);
    lemma_squaring_step(3, 3, 4033, 3);
    lemma_squaring_step(3, 7, 4033, 27);
    lemma_squaring_step(3, 15, 4033, 2187);
    lemma_squaring_step(3, 31, 4033, 3526);
    lemma_squaring_step(3, 63, 4033, 844);
    lemma_avoiding_first(2443, 4033);
    lemma_avoiding_step(3442, 4033, 2);
    lemma_avoiding_step(2443, 4033, 3);
    lemma_avoiding_step(3442, 4033, 4);
    lemma_avoiding_step(2443, 4033, 5);
    lemma_avoiding_step(3551, 4033, 6);
    lemma_refuted_from(4033, 3, 63, 6, 3551);
}

/// 4181 = 37 * 113 is no strong probable prime to the base 2.
pub proof fn lemma_refuted_4181()
    ensures
        !strong_probable_prime(4181, 2),
{
    lemma2_to64();
    lemma_squaring_step(2, 1, 4181, 1);
    lemma_squaring_step(2, 2, 4181, 2);
    lemma_squaring_step(2, 4, 4181, 4);
    lemma_squaring_step(2, 8, 4181, 16);
    lemma_squaring_step(2, 16, 4181, 256);
    lemma_squaring_step(2, 32, 4181, 2821);
    lemma_squaring_step(2, 65, 4181, 1598);
    lemma_squaring_step(2, 130, 4181, 2207);
    lemma_squaring_step(2, 261, 4181, 4165);
    lemma_squaring_step(2, 522, 4181, 512);
    lemma_squaring_step(2, 1045, 4181, 2922);
    lemma_avoiding_first(1114, 4181);
    lemma_avoiding_step(964, 4181, 2);
    lemma_refuted_from(4181, 2, 1045, 2, 964);
}

/// 4699 = 37 * 127 is no strong probable prime to the base 2.
pub proof fn lemma_refuted_4699()
    ensures
        !strong_probable_prime(4699, 2),
{
    lemma2_to64();
    lemma_squaring_step(2, 1, 4699, 1);
    lemma_squaring_step(2, 2, 4699, 2);
    lemma_squaring_step(2, 4, 4699, 4);
    lemma_squaring_step(2, 9, 4699, 16);
    lemma_squaring_step(2, 18, 4699, 512);
    lemma_squaring_step(2, 36, 4699, 3699);
    lemma_squaring_step(2, 73, 4699, 3812);
    lemma_squaring_step(2, 146, 4699, 4072);
    lemma_squaring_step(2, 293, 4699, 3112);
    lemma_squaring_step(2, 587, 4699, 4509);
    lemma_squaring_step(2, 1174, 4699, 1715);
    lemma_squaring_step(2, 2349, 4699, 4350);
    lemma_avoiding_first(3953, 4699);
    lemma_refuted_from(4699, 2, 2349, 1, 3953);
}

/// 4847 = 37 * 131 is no strong probable prime to the base 2.
pub proof fn lemma_refuted_4847()
    ensures
        !strong_probable_prime(4847, 2),
{
    lemma2_to64();
    lemma_squaring_step(2, 1, 4847, 1);
    lemma_squaring_step(2, 2, 4847, 2);
    lemma_squaring_step(2, 4, 4847, 4);
    lemma_squaring_step(2, 9, 4847, 16);
    lemma_squaring_step(2, 18, 4847, 512);
    lemma_squaring_step(2, 37, 4847, 406);
    lemma_squaring_step(2, 75, 4847, 76);
    lemma_squaring_step(2, 151, 4847, 1858);
    lemma_squaring_step(2, 302, 4847, 2200);
    lemma_squaring_step(2, 605, 4847, 2694);
    lemma_squaring_step(2, 1211, 4847, 3354);
    lemma_squaring_step(2, 2423, 4847, 3705);
    lemma_avoiding_first(642, 4847);
    lemma_refuted_from(4847, 2, 2423, 1, 642);
}

/// 5069 = 37 * 137 is no strong probable prime to the base 2.
pub proof fn lemma_refuted_5069()
    ensures
        !strong_probable_prime(5069, 2),
{
    lemma2_to64();
    lemma_squaring_step(2, 1, 5069, 1);
    lemma_squaring_step(2, 2, 5069, 2);
    lemma_squaring_step(2, 4, 5069, 4);
    lemma_squaring_step(2, 9, 5069, 16);
    lemma_squaring_step(2, 19, 5069, 512);
    lemma_squaring_step(2, 39, 5069, 2181);
    lemma_squaring_step(2, 79, 5069, 4078);
    lemma_squaring_step(2, 158, 5069, 2459);
    lemma_squaring_step(2, 316, 5069, 4433);
    lemma_squaring_step(2, 633, 5069, 4045);
    lemma_squaring_step(2, 1267, 5069, 3655);
    lemma_avoiding_first(474, 5069);
    lemma_avoiding_step(4420, 5069, 2);
    lemma_refuted_from(5069, 2, 1267, 2, 4420);
}

/// 5143 = 37 * 139 is no strong probable prime to the base 2.
pub proof fn lemma_refuted_5143()
    ensures
        !strong_probable_prime(5143, 2),
{
    lemma2_to64();
    lemma_squaring_step(2, 1, 5143, 1);
    lemma_squaring_step(2, 2, 5143, 2);
    lemma_squaring_step(2, 5, 5143, 4);
    lemma_squaring_step(2, 10, 5143, 32);
    lemma_squaring_step(2, 20, 5143, 1024);
    lemma_squaring_step(2, 40, 5143, 4547);
    lemma_squaring_step(2, 80, 5143, 349);
    lemma_squaring_step(2, 160, 5143, 3512);
    lemma_squaring_step(2, 321, 5143, 1230);
    lemma_squaring_step(2, 642, 5143, 1716);
    lemma_squaring_step(2, 1285, 5143, 2860);
    lemma_squaring_step(2, 2571, 5143, 4460);
    lemma_avoiding_first(2095, 5143);
    lemma_refuted_from(5143, 2, 2571, 1, 2095);
}

/// 5513 = 37 * 149 is no strong probable prime to the base 2.
pub proof fn lemma_refuted_5513()
    ensures
        !strong_probable_prime(5513, 2),
{
    lemma2_to64();
    lemma_squaring_step(2, 1, 5513, 1);
    lemma_squaring_step(2, 2, 5513, 2);
    lemma_squaring_step(2, 5, 5513, 4);
    lemma_squaring_step(2, 10, 5513, 32);
    lemma_squaring_step(2, 21, 5513, 1024);
    lemma_squaring_step(2, 43, 5513, 2212);
    lemma_squaring_step(2, 86, 5513, 313);
    lemma_squaring_step(2, 172, 5513, 4248);
    lemma_squaring_step(2, 344, 5513, 1455);
    lemma_squaring_step(2, 689, 5513, 33);
    lemma_avoiding_first(1735, 5513);
    lemma_avoiding_step(2504, 5513, 2);
    lemma_avoiding_step(2178, 5513, 3);
    lemma_refuted_from(5513, 2, 689, 3, 2178);
}

/// 5587 = 37 * 151 is no strong probable prime to the base 2.
pub proof fn lemma_refuted_5587()
    ensures
        !strong_probable_prime(5587, 2),
{
    lemma2_to64();
    lemma_squaring_step(2, 1, 5587, 1);
    lemma_squaring_step(2, 2, 5587, 2);
    lemma_squaring_step(2, 5, 5587, 4);
    lemma_squaring_step(2, 10, 5587, 32);
    lemma_squaring_step(2, 21, 5587, 1024);
    lemma_squaring_step(2, 43, 5587, 2027);
    lemma_squaring_step(2, 87, 5587, 4568);
    lemma_squaring_step(2, 174, 5587, 3945);
    lemma_squaring_step(2, 349, 5587, 3230);
    lemma_squaring_step(2, 698, 5587, 3942);
    lemma_squaring_step(2, 1396, 5587, 1917);
    lemma_squaring_step(2, 2793, 5587, 4230);
    lemma_avoiding_first(1065, 5587);
    lemma_refuted_from(5587, 2, 2793, 1, 1065);
}

/// 5809 = 37 * 157 is no strong probable prime to the base 2.
pub proof fn lemma_refuted_5809()
    ensures
        !strong_probable_prime(5809, 2),
{
    lemma2_to64();
    lemma_squaring_step(2, 1, 5809, 1);
    lemma_squaring_step(2, 2, 5809, 2);
    lemma_squaring_step(2, 5, 5809, 4);
    lemma_squaring_step(2, 11, 5809, 32);
    lemma_squaring_step(2, 22, 5809, 2048);
    lemma_squaring_step(2, 45, 5809, 206);
    lemma_squaring_step(2, 90, 5809, 3546);
    lemma_squaring_step(2, 181, 5809, 3440);
    lemma_squaring_step(2, 363, 5809, 1334);
    lemma_avoiding_first(5227, 5809);
    lemma_avoiding_step(5132, 5809, 2);
    lemma_avoiding_step(4985, 5809, 3);
    lemma_avoiding_step(4004, 5809, 4);
    lemma_refuted_from(5809, 2, 363, 4, 4004);
}

/// 6031 = 37 * 163 is no strong probable prime to the base 2.
pub proof fn lemma_refuted_6031()
    ensures
        !strong_probable_prime(6031, 2),
{
    lemma2_to64();
    lemma_squaring_step(2, 1, 6031, 1);
    lemma_squaring_step(2, 2, 6031, 2);
    lemma_squaring_step(2, 5, 6031, 4);
    lemma_squaring_step(2, 11, 6031, 32);
    lemma_squaring_step(2, 23, 6031, 2048);
    lemma_squaring_step(2, 47, 6031, 5518);
    lemma_squaring_step(2, 94, 6031, 1641);
    lemma_squaring_step(2, 188, 6031, 3055);
    lemma_squaring_step(2, 376, 6031, 3068);
    lemma_squaring_step(2, 753, 6031, 4264);
    lemma_squaring_step(2, 1507, 6031, 2493);
    lemma_squaring_step(2, 3015, 6031, 207);
    lemma_avoiding_first(1264, 6031);
    lemma_refuted_from(6031, 2, 3015, 1, 1264);
}

/// 6179 = 37 * 167 is no strong probable prime to the base 2.
pub proof fn lemma_refuted_6179()
    ensures
        !strong_probable_prime(6179, 2),
{
    lemma2_to64();
    lemma_squaring_step(2, 1, 6179, 1);
    lemma_squaring_step(2, 3, 6179, 2);
    lemma_squaring_step(2, 6, 6179, 8);
    lemma_squaring_step(2, 12, 6179, 64);
    lemma_squaring_step(2, 24, 6179, 4096);
    lemma_squaring_step(2, 48, 6179, 1231);
    lemma_squaring_step(2, 96, 6179, 1506);
    lemma_squaring_step(2, 193, 6179, 343);
    lemma_squaring_step(2, 386, 6179, 496);
    lemma_squaring_step(2, 772, 6179, 5035);
    lemma_squaring_step(2, 1544, 6179, 4967);
    lemma_squaring_step(2, 3089, 6179, 4521);
    lemma_avoiding_first(4797, 6179);
    lemma_refuted_from(6179, 2, 3089, 1, 4797);
}

/// 6401 = 37 * 173 is no strong probable prime to the base 2.
pub proof fn lemma_refuted_6401()
    ensures
        !strong_probable_prime(6401, 2),
{
    lemma2_to64();
    lemma_squaring_step(2, 1, 6401, 1);
    lemma_squaring_step(2, 3, 6401, 2);
    lemma_squaring_step(2, 6, 6401, 8);
    lemma_squaring_step(2, 12, 6401, 64);
    lemma_squaring_step(2, 25, 6401, 4096);
    lemma_avoiding_first(3411, 6401);
    lemma_avoiding_step(305, 6401, 2);
    lemma_avoiding_step(5621, 6401, 3);
    lemma_avoiding_step(2458, 6401, 4);
    lemma_avoiding_step(1217, 6401, 5);
    lemma_avoiding_step(5414, 6401, 6);
    lemma_avoiding_step(4877, 6401, 7);
    lemma_avoiding_step(390, 6401, 8);
    lemma_refuted_from(6401, 2, 25, 8, 390);
}

/// 6623 = 37 * 179 is no strong probable prime to the base 2.
pub proof fn lemma_refuted_6623()
    ensures
        !strong_probable_prime(6623, 2),
{
    lemma2_to64();
    lemma_squaring_step(2, 1, 6623, 1);
    lemma_squaring_step(2, 3, 6623, 2);
    lemma_squaring_step(2, 6, 6623, 8);
    lemma_squaring_step(2, 12, 6623, 64);
    lemma_squaring_step(2, 25, 6623, 4096);
    lemma_squaring_step(2, 51, 6623, 2314);
    lemma_squaring_step(2, 103, 6623, 6424);
    lemma_squaring_step(2, 206, 6623, 6349);
    lemma_squaring_step(2, 413, 6623, 2223);
    lemma_squaring_step(2, 827, 6623, 1942);
    lemma_squaring_step(2, 1655, 6623, 5754);
    lemma_squaring_step(2, 3311, 6623, 278);
    lemma_avoiding_first(2239, 6623);
    lemma_refuted_from(6623, 2, 3311, 1, 2239);
}

/// 6697 = 37 * 181 is no strong probable prime to the base 2.
pub proof fn lemma_refuted_6697()
    ensures
        !strong_probable_prime(6697, 2),
{
    lemma2_to64();
    lemma_squaring_step(2, 1, 6697, 1);
    lemma_squaring_step(2, 3, 6697, 2);
    lemma_squaring_step(2, 6, 6697, 8);
    lemma_squaring_step(2, 13, 6697, 64);
    lemma_squaring_step(2, 26, 6697, 1495);
    lemma_squaring_step(2, 52, 6697, 4924);
    lemma_squaring_step(2, 104, 6697, 2636);
    lemma_squaring_step(2, 209, 6697, 3707);
    lemma_squaring_step(2, 418, 6697, 5907);
    lemma_squaring_step(2, 837, 6697, 1279);
    lemma_avoiding_first(5736, 6697);
    lemma_avoiding_step(3847, 6697, 2);
    lemma_avoiding_step(3546, 6697, 3);
    lemma_refuted_from(6697, 2, 837, 3, 3546);
}

/// 7067 = 37 * 191 is no strong probable prime to the base 2.
pub proof fn lemma_refuted_7067()
    ensures
        !strong_probable_prime(7067, 2),
{
    lemma2_to64();
    lemma_squaring_step(2, 1, 7067, 1);
    lemma_squaring_step(2, 3, 7067, 2);
    lemma_squaring_step(2, 6, 7067, 8);
    lemma_squaring_step(2, 13, 7067, 64);
    lemma_squaring_step(2, 27, 7067, 1125);
    lemma_squaring_step(2, 55, 7067, 1264);
    lemma_squaring_step(2, 110, 7067, 1108);
    lemma_squaring_step(2, 220, 7067, 5073);
    lemma_squaring_step(2, 441, 7067, 4382);
    lemma_squaring_step(2, 883, 7067, 1770);
    lemma_squaring_step(2, 1766, 7067, 4438);
    lemma_squaring_step(2, 3533, 7067, 115);
    lemma_avoiding_first(5249, 7067);
    lemma_refuted_from(7067, 2, 3533, 1, 5249);
}

/// 7141 = 37 * 193 is no strong probable prime to the base 2.
pub proof fn lemma_refuted_7141()
    ensures
        !strong_probable_prime(7141, 2),
{
    lemma2_to64();
    lemma_squaring_step(2, 1, 7141, 1);
    lemma_squaring_step(2, 3, 7141, 2);
    lemma_squaring_step(2, 6, 7141, 8);
    lemma_squaring_step(2, 13, 7141, 64);
    lemma_squaring_step(2, 27, 7141, 1051);
    lemma_squaring_step(2, 55, 7141, 2633);
    lemma_squaring_step(2, 111, 7141, 4697);
    lemma_squaring_step(2, 223, 7141, 6520);
    lemma_squaring_step(2, 446, 7141, 54);
    lemma_squaring_step(2, 892, 7141, 2916);
    lemma_squaring_step(2, 1785, 7141, 5266);
    lemma_avoiding_first(2173, 7141);
    lemma_avoiding_step(4506, 7141, 2);
    lemma_refuted_from(7141, 2, 1785, 2, 4506);
}

/// 7289 = 37 * 197 is no strong probable prime to the base 2.
pub proof fn lemma_refuted_7289()
    ensures
        !strong_probable_prime(7289, 2),
{
    lemma2_to64();
    lemma_squaring_step(2, 1, 7289, 1);
    lemma_squaring_step(2, 3, 7289, 2);
    lemma_squaring_step(2, 7, 7289, 8);
    lemma_squaring_step(2, 14, 7289, 128);
    lemma_squaring_step(2, 28, 7289, 1806);
    lemma_squaring_step(2, 56, 7289, 3453);
    lemma_squaring_step(2, 113, 7289, 5694);
    lemma_squaring_step(2, 227, 7289, 328);
    lemma_squaring_step(2, 455, 7289, 3787);
    lemma_squaring_step(2, 911, 7289, 523);
    lemma_avoiding_first(2624, 7289);
    lemma_avoiding_step(909, 7289, 2);
    lemma_avoiding_step(383, 7289, 3);
    lemma_refuted_from(7289, 2, 911, 3, 383);
}

/// 7363 = 37 * 199 is no strong probable prime to the base 2.
pub proof fn lemma_refuted_7363()
    ensures
        !strong_probable_prime(7363, 2),
{
    lemma2_to64();
    lemma_squaring_step(2, 1, 7363, 1);
    lemma_squaring_step(2, 3, 7363, 2);
    lemma_squaring_step(2, 7, 7363, 8);
    lemma_squaring_step(2, 14, 7363, 128);
    lemma_squaring_step(2, 28, 7363, 1658);
    lemma_squaring_step(2, 57, 7363, 2565);
    lemma_squaring_step(2, 115, 7363, 769);
    lemma_squaring_step(2, 230, 7363, 4642);
    lemma_squaring_step(2, 460, 7363, 4026);
    lemma_squaring_step(2, 920, 7363, 2713);
    lemma_squaring_step(2, 1840, 7363, 4732);
    lemma_squaring_step(2, 3681, 7363, 941);
    lemma_avoiding_first(3842, 7363);
    lemma_refuted_from(7363, 2, 3681, 1, 3842);
}

/// 7807 = 37 * 211 is no strong probable prime to the base 2.
pub proof fn lemma_refuted_7807()
    ensures
        !strong_probable_prime(7807, 2),
{
    lemma2_to64();
    lemma_squaring_step(2, 1, 7807, 1);
    lemma_squaring_step(2, 3, 7807, 2);
    lemma_squaring_step(2, 7, 7807, 8);
    lemma_squaring_step(2, 15, 7807, 128);
    lemma_squaring_step(2, 30, 7807, 1540);
    lemma_squaring_step(2, 60, 7807, 6079);
    lemma_squaring_step(2, 121, 7807, 3710);
    lemma_squaring_step(2, 243, 7807, 718);
    lemma_squaring_step(2, 487, 7807, 524);
    lemma_squaring_step(2, 975, 7807, 2662);
    lemma_squaring_step(2, 1951, 7807, 2783);
    lemma_squaring_step(2, 3903, 7807, 1090);
    lemma_avoiding_first(2872, 7807);
    lemma_refuted_from(7807, 2, 3903, 1, 2872);
}

/// 8251 = 37 * 223 is no strong probable prime to the base 2.
pub proof fn lemma_refuted_8251()
    ensures
        !strong_probable_prime(8251, 2),
{
    lemma2_to64();
    lemma_squaring_step(2, 1, 8251, 1);
    lemma_squaring_step(2, 2, 8251, 2);
    lemma_squaring_step(2, 4, 8251, 4);
    lemma_squaring_step(2, 8, 8251, 16);
    lemma_squaring_step(2, 16, 8251, 256);
    lemma_squaring_step(2, 32, 8251, 7779);
    lemma_squaring_step(2, 64, 8251, 7);
    lemma_squaring_step(2, 128, 8251, 49);
    lemma_squaring_step(2, 257, 8251, 2401);
    lemma_squaring_step(2, 515, 8251, 2955);
    lemma_squaring_step(2, 1031, 8251, 4934);
    lemma_squaring_step(2, 2062, 8251, 7812);
    lemma_squaring_step(2, 4125, 8251, 2948);
    lemma_avoiding_first(4802, 8251);
    lemma_refuted_from(8251, 2, 4125, 1, 4802);
}

/// 8399 = 37 * 227 is no strong probable prime to the base 2.
pub proof fn lemma_refuted_8399()
    ensures
        !strong_probable_prime(8399, 2),
{
    lemma2_to64();
    lemma_squaring_step(2, 1, 8399, 1);
    lemma_squaring_step(2, 2, 8399, 2);
    lemma_squaring_step(2, 4, 8399, 4);
    lemma_squaring_step(2, 8, 8399, 16);
    lemma_squaring_step(2, 16, 8399, 256);
    lemma_squaring_step(2, 32, 8399, 6743);
    lemma_squaring_step(2, 65, 8399, 4262);
    lemma_squaring_step(2, 131, 8399, 3613);
    lemma_squaring_step(2, 262, 8399, 3446);
    lemma_squaring_step(2, 524, 8399, 7129);
    lemma_squaring_step(2, 1049, 8399, 292);
    lemma_squaring_step(2, 2099, 8399, 2548);
    lemma_squaring_step(2, 4199, 8399, 8153);
    lemma_avoiding_first(3446, 8399);
    lemma_refuted_from(8399, 2, 4199, 1, 3446);
}

/// 8473 = 37 * 229 is no strong probable prime to the base 2.
pub proof fn lemma_refuted_8473()
    ensures
        !strong_probable_prime(8473, 2),
{
    lemma2_to64();
    lemma_squaring_step(2, 1, 8473, 1);
    lemma_squaring_step(2, 2, 8473, 2);
    lemma_squaring_step(2, 4, 8473, 4);
    lemma_squaring_step(2, 8, 8473, 16);
    lemma_squaring_step(2, 16, 8473, 256);
    lemma_squaring_step(2, 33, 8473, 6225);
    lemma_squaring_step(2, 66, 8473, 7192);
    lemma_squaring_step(2, 132, 8473, 5672);
    lemma_squaring_step(2, 264, 8473, 8076);
    lemma_squaring_step(2, 529, 8473, 5095);
    lemma_squaring_step(2, 1059, 8473, 3979);
    lemma_avoiding_first(8076, 8473);
    lemma_avoiding_step(5672, 8473, 2);
    lemma_avoiding_step(1281, 8473, 3);
    lemma_refuted_from(8473, 2, 1059, 3, 1281);
}

/// 8621 = 37 * 233 is no strong probable prime to the base 2.
pub proof fn lemma_refuted_8621()
    ensures
        !strong_probable_prime(8621, 2),
{
    lemma2_to64();
    lemma_squaring_step(2, 1, 8621, 1);
    lemma_squaring_step(2, 2, 8621, 2);
    lemma_squaring_step(2, 4, 8621, 4);
    lemma_squaring_step(2, 8, 8621, 16);
    lemma_squaring_step(2, 16, 8621, 256);
    lemma_squaring_step(2, 33, 8621, 5189);
    lemma_squaring_step(2, 67, 8621, 4676);
    lemma_squaring_step(2, 134, 8621, 4240);
    lemma_squaring_step(2, 269, 8621, 2815);
    lemma_squaring_step(2, 538, 8621, 3052);
    lemma_squaring_step(2, 1077, 8621, 4024);
    lemma_squaring_step(2, 2155, 8621, 4676);
    lemma_avoiding_first(2815, 8621);
    lemma_avoiding_step(4240, 8621, 2);
    lemma_refuted_from(8621, 2, 2155, 2, 4240);
}

/// 8843 = 37 * 239 is no strong probable prime to the base 2.
pub proof fn lemma_refuted_8843()
    ensures
        !strong_probable_prime(8843, 2),
{
    lemma2_to64();
    lemma_squaring_step(2, 1, 8843, 1);
    lemma_squaring_step(2, 2, 8843, 2);
    lemma_squaring_step(2, 4, 8843, 4);
    lemma_squaring_step(2, 8, 8843, 16);
    lemma_squaring_step(2, 17, 8843, 256);
    lemma_squaring_step(2, 34, 8843, 7270);
    lemma_squaring_step(2, 69, 8843, 7132);
    lemma_squaring_step(2, 138, 8843, 976);
    lemma_squaring_step(2, 276, 8843, 6375);
    lemma_squaring_step(2, 552, 8843, 7040);
    lemma_squaring_step(2, 1105, 8843, 5428);
    lemma_squaring_step(2, 2210, 8843, 5459);
    lemma_squaring_step(2, 4421, 8843, 8614);
    lemma_avoiding_first(7609, 8843);
    lemma_refuted_from(8843, 2, 4421, 1, 7609);
}

/// 8917 = 37 * 241 is no strong probable prime to the base 2.
pub proof fn lemma_refuted_8917()
    ensures
        !strong_probable_prime(8917, 2),
{
    lemma2_to64();
    lemma_squaring_step(2, 1, 8917, 1);
    lemma_squaring_step(2, 2, 8917, 2);
    lemma_squaring_step(2, 4, 8917, 4);
    lemma_squaring_step(2, 8, 8917, 16);
    lemma_squaring_step(2, 17, 8917, 256);
    lemma_squaring_step(2, 34, 8917, 6234);
    lemma_squaring_step(2, 69, 8917, 2470);
    lemma_squaring_step(2, 139, 8917, 3344);
    lemma_squaring_step(2, 278, 8917, 836);
    lemma_squaring_step(2, 557, 8917, 3370);
    lemma_squaring_step(2, 1114, 8917, 2201);
    lemma_squaring_step(2, 2229, 8917, 2470);
    lemma_avoiding_first(418, 8917);
    lemma_avoiding_step(3344, 8917, 2);
    lemma_refuted_from(8917, 2, 2229, 2, 3344);
}

/// 9287 = 37 * 251 is no strong probable prime to the base 2.
pub proof fn lemma_refuted_9287()
    ensures
        !strong_probable_prime(9287, 2),
{
    lemma2_to64();
    lemma_squaring_step(2, 1, 9287, 1);
    lemma_squaring_step(2, 2, 9287, 2);
    lemma_squaring_step(2, 4, 9287, 4);
    lemma_squaring_step(2, 9, 9287, 16);
    lemma_squaring_step(2, 18, 9287, 512);
    lemma_squaring_step(2, 36, 9287, 2108);
    lemma_squaring_step(2, 72, 9287, 4478);
    lemma_squaring_step(2, 145, 9287, 1851);
    lemma_squaring_step(2, 290, 9287, 7883);
    lemma_squaring_step(2, 580, 9287, 2372);
    lemma_squaring_step(2, 1160, 9287, 7749);
    lemma_squaring_step(2, 2321, 9287, 6546);
    lemma_squaring_step(2, 4643, 9287, 9083);
    lemma_avoiding_first(8936, 9287);
    lemma_refuted_from(9287, 2, 4643, 1, 8936);
}

/// 9509 = 37 * 257 is no strong probable prime to the base 2.
pub proof fn lemma_refuted_9509()
    ensures
        !strong_probable_prime(9509, 2),
{
    lemma2_to64();
    lemma_squaring_step(2, 1, 9509, 1);
    lemma_squaring_step(2, 2, 9509, 2);
    lemma_squaring_step(2, 4, 9509, 4);
    lemma_squaring_step(2, 9, 9509, 16);
    lemma_squaring_step(2, 18, 9509, 512);
    lemma_squaring_step(2, 37, 9509, 5401);
    lemma_squaring_step(2, 74, 9509, 3887);
    lemma_squaring_step(2, 148, 9509, 8477);
    lemma_squaring_step(2, 297, 9509, 16);
    lemma_squaring_step(2, 594, 9509, 512);
    lemma_squaring_step(2, 1188, 9509, 5401);
    lemma_squaring_step(2, 2377, 9509, 6698);
    lemma_avoiding_first(4, 9509);
    lemma_avoiding_step(8993, 9509, 2);
    lemma_refuted_from(9509, 2, 2377, 2, 8993);
}

/// 9731 = 37 * 263 is no strong probable prime to the base 2.
pub proof fn lemma_refuted_9731()
    ensures
        !strong_probable_prime(9731, 2),
{
    lemma2_to64();
    lemma_squaring_step(2, 1, 9731, 1);
    lemma_squaring_step(2, 2, 9731, 2);
    lemma_squaring_step(2, 4, 9731, 4);
    lemma_squaring_step(2, 9, 9731, 16);
    lemma_squaring_step(2, 19, 9731, 512);
    lemma_squaring_step(2, 38, 9731, 8545);
    lemma_squaring_step(2, 76, 9731, 5332);
    lemma_squaring_step(2, 152, 9731, 5973);
    lemma_squaring_step(2, 304, 9731, 2883);
    lemma_squaring_step(2, 608, 9731, 1415);
    lemma_squaring_step(2, 1216, 9731, 7370);
    lemma_squaring_step(2, 2432, 9731, 8189);
    lemma_squaring_step(2, 4865, 9731, 3400);
    lemma_avoiding_first(8875, 9731);
    lemma_refuted_from(9731, 2, 4865, 1, 8875);
}

/// 9953 = 37 * 269 is no strong probable prime to the base 2.
pub proof fn lemma_refuted_9953()
    ensures
        !strong_probable_prime(9953, 2),
{
    lemma2_to64();
    lemma_squaring_step(2, 1, 9953, 1);
    lemma_squaring_step(2, 2, 9953, 2);
    lemma_squaring_step(2, 4, 9953, 4);
    lemma_squaring_step(2, 9, 9953, 16);
    lemma_squaring_step(2, 19, 9953, 512);
    lemma_squaring_step(2, 38, 9953, 6732);
    lemma_squaring_step(2, 77, 9953, 3815);
    lemma_squaring_step(2, 155, 9953, 5878);
    lemma_squaring_step(2, 311, 9953, 8042);
    lemma_avoiding_first(8470, 9953);
    lemma_avoiding_step(2939, 9953, 2);
    lemma_avoiding_step(6138, 9953, 3);
    lemma_avoiding_step(8572, 9953, 4);
    lemma_avoiding_step(8293, 9953, 5);
    lemma_refuted_from(9953, 2, 311, 5, 8293);
}

/// No product of 37 and a prime from 37 on, up to 10000, is a strong
/// probable prime to both of the bases 2 and 3.
pub proof fn lemma_products_of_37(q: nat)
    requires
        prime_from_37_to_270(q),
        q >= 37,
        37 * q <= 10000,
    ensures
        !strong_probable_prime(37 * q, 2) || !strong_probable_prime(37 * q, 3),
{
    if q == 37 {
        lemma_refuted_1369();
    } else if q == 41 {
        lemma_refuted_1517();
    } else if q == 43 {
        lemma_refuted_1591();
    } else if q == 47 {
        lemma_refuted_1739();
    } else if q == 53 {
        lemma_refuted_1961();
    } else if q == 59 {
        lemma_refuted_2183();
    } else if q == 61 {
        lemma_refuted_2257();
    } else if q == 67 {
        lemma_refuted_2479();
    } else if q == 71 {
        lemma_refuted_2627();
    } else if q == 73 {
        lemma_refuted_2701();
    } else if q == 79 {
        lemma_refuted_2923();
    } else if q == 83 {
        lemma_refuted_3071();
    } else if q == 89 {
        lemma_refuted_3293();
    } else if q == 97 {
        lemma_refuted_3589();
    } else if q == 101 {
        lemma_refuted_3737();
    } else if q == 103 {
        lemma_refuted_3811();
    } else if q == 107 {
        lemma_refuted_3959();
    } else if q == 109 {
        lemma_refuted_4033();
    } else if q == 113 {
        lemma_refuted_4181();
    } else if q == 127 {
        lemma_refuted_4699();
    } else if q == 131 {
        lemma_refuted_4847();
    } else if q == 137 {
        lemma_refuted_5069();
    } else if q == 139 {
        lemma_refuted_5143();
    } else if q == 149 {
        lemma_refuted_5513();
    } else if q == 151 {
        lemma_refuted_5587();
    } else if q == 157 {
        lemma_refuted_5809();
    } else if q == 163 {
        lemma_refuted_6031();
    } else if q == 167 {
        lemma_refuted_6179();
    } else if q == 173 {
        lemma_refuted_6401();
    } else if q == 179 {
        lemma_refuted_6623();
    } else if q == 181 {
        lemma_refuted_6697();
    } else if q == 191 {
        lemma_refuted_7067();
    } else if q == 193 {
        lemma_refuted_7141();
    } else if q == 197 {
        lemma_refuted_7289();
    } else if q == 199 {
        lemma_refuted_7363();
    } else if q == 211 {
        lemma_refuted_7807();
    } else if q == 223 {
        lemma_refuted_8251();
    } else if q == 227 {
        lemma_refuted_8399();
    } else if q == 229 {
        lemma_refuted_8473();
    } else if q == 233 {
        lemma_refuted_8621();
    } else if q == 239 {
        lemma_refuted_8843();
    } else if q == 241 {
        lemma_refuted_8917();
    } else if q == 251 {
        lemma_refuted_9287();
    } else if q == 257 {
        lemma_refuted_9509();
    } else if q == 263 {
        lemma_refuted_9731();
    } else if q == 269 {
        lemma_refuted_9953();
    }
}

} // verus!
