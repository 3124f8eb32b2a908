//! The products of 53 and a prime from 53 on, up to 10000.

use vstd::arithmetic::power2::lemma2_to64;
use vstd::prelude::*;

use crate::certificates::{
    lemma_avoiding_first, lemma_avoiding_step, lemma_refuted_from, lemma_squaring_step,
    prime_from_37_to_270,
};
use crate::primality::strong_probable_prime;

verus! {

/// 2809 = 53 * 53 is no strong probable prime to the base 2.
pub proof fn lemma_refuted_2809()
    ensures
        !strong_probable_prime(2809, 2),
{
    lemma2_to64();
    lemma_squaring_step(2, 1, 2809, 1);
    lemma_squaring_step(2, 2, 2809, 2);
    lemma_squaring_step(2, 5, 2809, 4);
    lemma_squaring_step(2, 10, 2809, 32);
    lemma_squaring_step(2, 21, 2809, 1024);
    lemma_squaring_step(2, 43, 2809, 1638);
    lemma_squaring_step(2, 87, 2809, 898);
    lemma_squaring_step(2, 175, 2809, 442);
    lemma_squaring_step(2, 351, 2809, 277);
    lemma_avoiding_first(955, 2809);
    lemma_avoiding_step(2331, 2809, 2);
    lemma_avoiding_step(1772, 2809, 3);
    lemma_refuted_from(2809, 2, 351, 3, 1772);
}

/// 3127 = 53 * 59 is no strong probable prime to the base 2.
pub proof fn lemma_refuted_3127()
    ensures
        !strong_probable_prime(3127, 2),
{
    lemma2_to64();
    lemma_squaring_step(2, 1, 3127, 1);
    lemma_squaring_step(2, 3, 3127, 2);
    lemma_squaring_step(2, 6, 3127, 8);
    lemma_squaring_step(2, 12, 3127, 64);
    lemma_squaring_step(2, 24, 3127, 969);
    lemma_squaring_step(2, 48, 3127, 861);
    lemma_squaring_step(2, 97, 3127, 222);
    lemma_squaring_step(2, 195, 3127, 1631);
    lemma_squaring_step(2, 390, 3127, 1295);
    lemma_squaring_step(2, 781, 3127, 953);
    lemma_squaring_step(2, 1563, 3127, 2758);
    lemma_avoiding_first(273, 3127);
    lemma_refuted_from(3127, 2, 1563, 1, 273);
}

/// 3233 = 53 * 61 is no strong probable prime to the base 2.
pub proof fn lemma_refuted_3233()
    ensures
        !strong_probable_prime(3233, 2),
{
    lemma2_to64();
    lemma_squaring_step(2, 1, 3233, 1);
    lemma_squaring_step(2, 3, 3233, 2);
    lemma_squaring_step(2, 6, 3233, 8);
    lemma_squaring_step(2, 12, 3233, 64);
    lemma_squaring_step(2, 25, 3233, 863);
    lemma_squaring_step(2, 50, 3233, 2358);
    lemma_squaring_step(2, 101, 3233, 2637);
    lemma_avoiding_first(652, 3233);
    lemma_avoiding_step(2699, 3233, 2);
    lemma_avoiding_step(3014, 3233, 3);
    lemma_avoiding_step(188, 3233, 4);
    lemma_avoiding_step(2405, 3233, 5);
    lemma_refuted_from(3233, 2, 101, 5, 2405);
}

/// 3551 = 53 * 67 is no strong probable prime to the base 2.
pub proof fn lemma_refuted_3551()
    ensures
        !strong_probable_prime(3551, 2),
{
    lemma2_to64();
    lemma_squaring_step(2, 1, 3551, 1);
    lemma_squaring_step(2, 3, 3551, 2);
    lemma_squaring_step(2, 6, 3551, 8);
    lemma_squaring_step(2, 13, 3551, 64);
    lemma_squaring_step(2, 27, 3551, 1090);
    lemma_squaring_step(2, 55, 3551, 581);
    lemma_squaring_step(2, 110, 3551, 432);
    lemma_squaring_step(2, 221, 3551, 1972);
    lemma_squaring_step(2, 443, 3551, 878);
    lemma_squaring_step(2, 887, 3551, 634);
    lemma_squaring_step(2, 1775, 3551, 1386);
    lemma_avoiding_first(3361, 3551);
    lemma_refuted_from(3551, 2, 1775, 1, 3361);
}

/// 3763 = 53 * 71 is no strong probable prime to the base 2.
pub proof fn lemma_refuted_3763()
    ensures
        !strong_probable_prime(3763, 2),
{
    lemma2_to64();
    lemma_squaring_step(2, 1, 3763, 1);
    lemma_squaring_step(2, 3, 3763, 2);
    lemma_squaring_step(2, 7, 3763, 8);
    lemma_squaring_step(2, 14, 3763, 128);
    lemma_squaring_step(2, 29, 3763, 1332);
    lemma_squaring_step(2, 58, 3763, 3702);
    lemma_squaring_step(2, 117, 3763, 3721);
    lemma_squaring_step(2, 235, 3763, 3528);
    lemma_squaring_step(2, 470, 3763, 1323);
    lemma_squaring_step(2, 940, 3763, 534);
    lemma_squaring_step(2, 1881, 3763, 2931);
    lemma_avoiding_first(3427, 3763);
    lemma_refuted_from(3763, 2, 1881, 1, 3427);
}

/// 3869 = 53 * 73 is no strong probable prime to the base 2.
pub proof fn lemma_refuted_3869()
    ensures
        !strong_probable_prime(3869, 2),
{
    lemma2_to64();
    lemma_squaring_step(2, 1, 3869, 1);
    lemma_squaring_step(2, 3, 3869, 2);
    lemma_squaring_step(2, 7, 3869, 8);
    lemma_squaring_step(2, 15, 3869, 128);
    lemma_squaring_step(2, 30, 3869, 1816);
    lemma_squaring_step(2, 60, 3869, 1468);
    lemma_squaring_step(2, 120, 3869, 3860);
    lemma_squaring_step(2, 241, 3869, 81);
    lemma_squaring_step(2, 483, 3869, 1515);
    lemma_squaring_step(2, 967, 3869, 1816);
    lemma_avoiding_first(3833, 3869);
    lemma_avoiding_step(2936, 3869, 2);
    lemma_refuted_from(3869, 2, 967, 2, 2936);
}

/// 4187 = 53 * 79 is no strong probable prime to the base 2.
pub proof fn lemma_refuted_4187()
    ensures
        !strong_probable_prime(4187, 2),
{
    lemma2_to64();
    lemma_squaring_step(2, 1, 4187, 1);
    lemma_squaring_step(2, 2, 4187, 2);
    lemma_squaring_step(2, 4, 4187, 4);
    lemma_squaring_step(2, 8, 4187, 16);
    lemma_squaring_step(2, 16, 4187, 256);
    lemma_squaring_step(2, 32, 4187, 2731);
    lemma_squaring_step(2, 65, 4187, 1314);
    lemma_squaring_step(2, 130, 4187, 3104);
    lemma_squaring_step(2, 261, 4187, 529);
    lemma_squaring_step(2, 523, 4187, 2811);
    lemma_squaring_step(2, 1046, 4187, 1704);
    lemma_squaring_step(2, 2093, 4187, 2025);
    lemma_avoiding_first(3104, 4187);
    lemma_refuted_from(4187, 2, 2093, 1, 3104);
}

/// 4399 = 53 * 83 is no strong probable prime to the base 2.
pub proof fn lemma_refuted_4399()
    ensures
        !strong_probable_prime(4399, 2),
{
    lemma2_to64();
    lemma_squaring_step(2, 1, 4399, 1);
    lemma_squaring_step(2, 2, 4399, 2);
    lemma_squaring_step(2, 4, 4399, 4);
    lemma_squaring_step(2, 8, 4399, 16);
    lemma_squaring_step(2, 17, 4399, 256);
    lemma_squaring_step(2, 34, 4399, 3501);
    lemma_squaring_step(2, 68, 4399, 1387);
    lemma_squaring_step(2, 137, 4399, 1406);
    lemma_squaring_step(2, 274, 4399, 3370);
    lemma_squaring_step(2, 549, 4399, 3081);
    lemma_squaring_step(2, 1099, 4399, 3437);
    lemma_squaring_step(2, 2199, 4399, 3308);
    lemma_avoiding_first(703, 4399);
    lemma_refuted_from(4399, 2, 2199, 1, 703);
}

/// 4717 = 53 * 89 is no strong probable prime to the base 2.
pub proof fn lemma_refuted_4717()
    ensures
        !strong_probable_prime(4717, 2),
{
    lemma2_to64();
    lemma_squaring_step(2, 1, 4717, 1);
    lemma_squaring_step(2, 2, 4717, 2);
    lemma_squaring_step(2, 4, 4717, 4);
    lemma_squaring_step(2, 9, 4717, 16);
    lemma_squaring_step(2, 18, 4717, 512);
    lemma_squaring_step(2, 36, 4717, 2709);
    lemma_squaring_step(2, 73, 4717, 3746);
    lemma_squaring_step(2, 147, 4717, 3599);
    lemma_squaring_step(2, 294, 4717, 4555);
    lemma_squaring_step(2, 589, 4717, 2659);
    lemma_squaring_step(2, 1179, 4717, 3713);
    lemma_avoiding_first(3398, 4717);
    lemma_avoiding_step(1873, 4717, 2);
    lemma_refuted_from(4717, 2, 1179, 2, 1873);
}

/// 5141 = 53 * 97 is no strong probable prime to the base 2.
pub proof fn lemma_refuted_5141()
    ensures
        !strong_probable_prime(5141, 2),
{
    lemma2_to64();
    lemma_squaring_step(2, 1, 5141, 1);
    lemma_squaring_step(2, 2, 5141, 2);
    lemma_squaring_step(2, 5, 5141, 4);
    lemma_squaring_step(2, 10, 5141, 32);
    lemma_squaring_step(2, 20, 5141, 1024);
    lemma_squaring_step(2, 40, 5141, 4953);
    lemma_squaring_step(2, 80, 5141, 4498);
    lemma_squaring_step(2, 160, 5141, 2169);
    lemma_squaring_step(2, 321, 5141, 546);
    lemma_squaring_step(2, 642, 5141, 5017);
    lemma_squaring_step(2, 1285, 5141, 5094);
    lemma_avoiding_first(3488, 5141);
    lemma_avoiding_step(4418, 5141, 2);
    lemma_refuted_from(5141, 2, 1285, 2, 4418);
}

/// 5353 = 53 * 101 is no strong probable prime to the base 2.
pub proof fn lemma_refuted_5353()
    ensures
        !strong_probable_prime(5353, 2),
{
    lemma2_to64();
    lemma_squaring_step(2, 1, 5353, 1);
    lemma_squaring_step(2, 2, 5353, 2);
    lemma_squaring_step(2, 5, 5353, 4);
    lemma_squaring_step(2, 10, 5353, 32);
    lemma_squaring_step(2, 20, 5353, 1024);
    lemma_squaring_step(2, 41, 5353, 4741);
    lemma_squaring_step(2, 83, 5353, 5021);
    lemma_squaring_step(2, 167, 5353, 975);
    lemma_squaring_step(2, 334, 5353, 935);
    lemma_squaring_step(2, 669, 5353, 1686);
    lemma_avoiding_first(384, 5353);
    lemma_avoiding_step(2635, 5353, 2);
    lemma_avoiding_step(306, 5353, 3);
    lemma_refuted_from(5353, 2, 669, 3, 306);
}

/// 5459 = 53 * 103 is no strong probable prime to the base 2.
pub proof fn lemma_refuted_5459()
    ensures
        !strong_probable_prime(5459, 2),
{
    lemma2_to64();
    lemma_squaring_step(2, 1, 5459, 1);
    lemma_squaring_step(2, 2, 5459, 2);
    lemma_squaring_step(2, 5, 5459, 4);
    lemma_squaring_step(2, 10, 5459, 32);
    lemma_squaring_step(2, 21, 5459, 1024);
    lemma_squaring_step(2, 42, 5459, 896);
    lemma_squaring_step(2, 85, 5459, 343);
    lemma_squaring_step(2, 170, 5459, 561);
    lemma_squaring_step(2, 341, 5459, 3558);
    lemma_squaring_step(2, 682, 5459, 5345);
    lemma_squaring_step(2, 1364, 5459, 2078);
    lemma_squaring_step(2, 2729, 5459, 15);
    lemma_avoiding_first(450, 5459);
    lemma_refuted_from(5459, 2, 2729, 1, 450);
}

/// 5671 = 53 * 107 is no strong probable prime to the base 2.
pub proof fn lemma_refuted_5671()
    ensures
        !strong_probable_prime(5671, 2),
{
    lemma2_to64();
    lemma_squaring_step(2, 1, 5671, 1);
    lemma_squaring_step(2, 2, 5671, 2);
    lemma_squaring_step(2, 5, 5671, 4);
    lemma_squaring_step(2, 11, 5671, 32);
    lemma_squaring_step(2, 22, 5671, 2048);
    lemma_squaring_step(2, 44, 5671, 3435);
    lemma_squaring_step(2, 88, 5671, 3545);
    lemma_squaring_step(2, 177, 5671, 89);
    lemma_squaring_step(2, 354, 5671, 4500);
    lemma_squaring_step(2, 708, 5671, 4530);
    lemma_squaring_step(2, 1417, 5671, 3222);
    lemma_squaring_step(2, 2835, 5671, 1037);
    lemma_avoiding_first(1429, 5671);
    lemma_refuted_from(5671, 2, 2835, 1, 1429);
}

/// 5777 = 53 * 109 is no strong probable prime to the base 2.
pub proof fn lemma_refuted_5777()
    ensures
        !strong_probable_prime(5777, 2),
{
    lemma2_to64();
    lemma_squaring_step(2, 1, 5777, 1);
    lemma_squaring_step(2, 2, 5777, 2);
    lemma_squaring_step(2, 5, 5777, 4);
    lemma_squaring_step(2, 11, 5777, 32);
    lemma_squaring_step(2, 22, 5777, 2048);
    lemma_squaring_step(2, 45, 5777, 202);
    lemma_squaring_step(2, 90, 5777, 730);
    lemma_squaring_step(2, 180, 5777, 1416);
    lemma_squaring_step(2, 361, 5777, 437);
    lemma_avoiding_first(4289, 5777);
    lemma_avoiding_step(1106, 5777, 2);
    lemma_avoiding_step(2838, 5777, 3);
    lemma_avoiding_step(656, 5777, 4);
    lemma_refuted_from(5777, 2, 361, 4, 656);
}

/// 5989 = 53 * 113 is no strong probable prime to the base 2.
pub proof fn lemma_refuted_5989()
    ensures
        !strong_probable_prime(5989, 2),
{
    lemma2_to64();
    lemma_squaring_step(2, 1, 5989, 1);
    lemma_squaring_step(2, 2, 5989, 2);
    lemma_squaring_step(2, 5, 5989, 4);
    lemma_squaring_step(2, 11, 5989, 32);
    lemma_squaring_step(2, 23, 5989, 2048);
    lemma_squaring_step(2, 46, 5989, 4008);
    lemma_squaring_step(2, 93, 5989, 1566);
    lemma_squaring_step(2, 187, 5989, 5710);
    lemma_squaring_step(2, 374, 5989, 5957);
    lemma_squaring_step(2, 748, 5989, 1024);
    lemma_squaring_step(2, 1497, 5989, 501);
    lemma_avoiding_first(3588, 5989);
    lemma_avoiding_step(4915, 5989, 2);
    lemma_refuted_from(5989, 2, 1497, 2, 4915);
}

/// 6731 = 53 * 127 is no strong probable prime to the base 2.
pub proof fn lemma_refuted_6731()
    ensures
        !strong_probable_prime(6731, 2),
{
    lemma2_to64();
    lemma_squaring_step(2, 1, 6731, 1);
    lemma_squaring_step(2, 3, 6731, 2);
    lemma_squaring_step(2, 6, 6731, 8);
    lemma_squaring_step(2, 13, 6731, 64);
    lemma_squaring_step(2, 26, 6731, 1461);
    lemma_squaring_step(2, 52, 6731, 794);
    lemma_squaring_step(2, 105, 6731, 4453);
    lemma_squaring_step(2, 210, 6731, 6097);
    lemma_squaring_step(2, 420, 6731, 4827);
    lemma_squaring_step(2, 841, 6731, 3938);
    lemma_squaring_step(2, 1682, 6731, 5971);
    lemma_squaring_step(2, 3365, 6731, 5465);
    lemma_avoiding_first(1556, 6731);
    lemma_refuted_from(6731, 2, 3365, 1, 1556);
}

/// 6943 = 53 * 131 is no strong probable prime to the base 2.
pub proof fn lemma_refuted_6943()
    ensures
        !strong_probable_prime(6943, 2),
{
    lemma2_to64();
    lemma_squaring_step(2, 1, 6943, 1);
    lemma_squaring_step(2, 3, 6943, 2);
    lemma_squaring_step(2, 6, 6943, 8);
    lemma_squaring_step(2, 13, 6943, 64);
    lemma_squaring_step(2, 27, 6943, 1249);
    lemma_squaring_step(2, 54, 6943, 2595);
    lemma_squaring_step(2, 108, 6943, 6258);
    lemma_squaring_step(2, 216, 6943, 4044);
    lemma_squaring_step(2, 433, 6943, 3171);
    lemma_squaring_step(2, 867, 6943, 3554);
    lemma_squaring_step(2, 1735, 6943, 3198);
    lemma_squaring_step(2, 3471, 6943, 330);
    lemma_avoiding_first(2567, 6943);
    lemma_refuted_from(6943, 2, 3471, 1, 2567);
}

/// 7261 = 53 * 137 is no strong probable prime to the base 2.
pub proof fn lemma_refuted_7261()
    ensures
        !strong_probable_prime(7261, 2),
{
    lemma2_to64();
    lemma_squaring_step(2, 1, 7261, 1);
    lemma_squaring_step(2, 3, 7261, 2);
    lemma_squaring_step(2, 7, 7261, 8);
    lemma_squaring_step(2, 14, 7261, 128);
    lemma_squaring_step(2, 28, 7261, 1862);
    lemma_squaring_step(2, 56, 7261, 3547);
    lemma_squaring_step(2, 113, 7261, 5157);
    lemma_squaring_step(2, 226, 7261, 2473);
    lemma_squaring_step(2, 453, 7261, 1967);
    lemma_squaring_step(2, 907, 7261, 5213);
    lemma_squaring_step(2, 1815, 7261, 2153);
    lemma_avoiding_first(1880, 7261);
    lemma_avoiding_step(5782, 7261, 2);
    lemma_refuted_from(7261, 2, 1815, 2, 5782);
}

/// 7367 = 53 * 139 is no strong probable prime to the base 2.
pub proof fn lemma_refuted_7367()
    ensures
        !strong_probable_prime(7367, 2),
{
    lemma2_to64();
    lemma_squaring_step(2, 1, 7367, 1);
    lemma_squaring_step(2, 3, 7367, 2);
    lemma_squaring_step(2, 7, 7367, 8);
    lemma_squaring_step(2, 14, 7367, 128);
    lemma_squaring_step(2, 28, 7367, 1650);
    lemma_squaring_step(2, 57, 7367, 4077);
    lemma_squaring_step(2, 115, 7367, 3954);
    lemma_squaring_step(2, 230, 7367, 2684);
    lemma_squaring_step(2, 460, 7367, 6297);
    lemma_squaring_step(2, 920, 7367, 3015);
    lemma_squaring_step(2, 1841, 7367, 6714);
    lemma_squaring_step(2, 3683, 7367, 5613);
    lemma_avoiding_first(1587, 7367);
    lemma_refuted_from(7367, 2, 3683, 1, 1587);
}

/// 7897 = 53 * 149 is no strong probable prime to the base 2.
pub proof fn lemma_refuted_7897()
    ensures
        !strong_probable_prime(7897, 2),
{
    lemma2_to64();
    lemma_squaring_step(2, 1, 7897, 1);
    lemma_squaring_step(2, 3, 7897, 2);
    lemma_squaring_step(2, 7, 7897, 8);
    lemma_squaring_step(2, 15, 7897, 128);
    lemma_squaring_step(2, 30, 7897, 1180);
    lemma_squaring_step(2, 61, 7897, 2528);
    lemma_squaring_step(2, 123, 7897, 4222);
    lemma_squaring_step(2, 246, 7897, 3510);
    lemma_squaring_step(2, 493, 7897, 780);
    lemma_squaring_step(2, 987, 7897, 662);
    lemma_avoiding_first(2077, 7897);
    lemma_avoiding_step(6241, 7897, 2);
    lemma_avoiding_step(7818, 7897, 3);
    lemma_refuted_from(7897, 2, 987, 3, 7818);
}

/// 8003 = 53 * 151 is no strong probable prime to the base 2.
pub proof fn lemma_refuted_8003()
    ensures
        !strong_probable_prime(8003, 2),
{
    lemma2_to64();
    lemma_squaring_step(2, 1, 8003, 1);
    lemma_squaring_step(2, 3, 8003, 2);
    lemma_squaring_step(2, 7, 8003, 8);
    lemma_squaring_step(2, 15, 8003, 128);
    lemma_squaring_step(2, 31, 8003, 756);
    lemma_squaring_step(2, 62, 8003, 6646);
    lemma_squaring_step(2, 125, 8003, 759);
    lemma_squaring_step(2, 250, 8003, 7733);
    lemma_squaring_step(2, 500, 8003, 873);
    lemma_squaring_step(2, 1000, 8003, 1844);
    lemma_squaring_step(2, 2000, 8003, 7064);
    lemma_squaring_step(2, 4001, 8003, 1391);
    lemma_avoiding_first(4313, 8003);
    lemma_refuted_from(8003, 2, 4001, 1, 4313);
}

/// 8321 = 53 * 157 is no strong probable prime to the base 3.
pub proof fn lemma_refuted_8321()
    ensures
        !strong_probable_prime(8321, 3),
{
    lemma2_to64();
    lemma_squaring_step(3, 1, 8321, 1);
    lemma_squaring_step(3, 2, 8321, 3);
    lemma_squaring_step(3, 4, 8321, 9);
    lemma_squaring_step(3, 8, 8321, 81);
    lemma_squaring_step(3, 16, 8321, 6561);
    lemma_squaring_step(3, 32, 8321, 2188);
    lemma_squaring_step(3, 65, 8321, 2769);
    lemma_avoiding_first(7209, 8321);
    lemma_avoiding_step(5036, 8321, 2);
    lemma_avoiding_step(7209, 8321, 3);
    lemma_avoiding_step(5036, 8321, 4);
    lemma_avoiding_step(7209, 8321, 5);
    lemma_avoiding_step(5193, 8321, 6);
    lemma_avoiding_step(2839, 8321, 7);
    lemma_refuted_from(8321, 3, 65, 7, 2839);
}

/// 8639 = 53 * 163 is no strong probable prime to the base 2.
pub proof fn lemma_refuted_8639()
    ensures
        !strong_probable_prime(8639, 2),
{
    lemma2_to64();
    lemma_squaring_step(2, 1, 8639, 1);
    lemma_squaring_step(2, 2, 8639, 2);
    lemma_squaring_step(2, 4, 8639, 4);
    lemma_squaring_step(2, 8, 8639, 16);
    lemma_squaring_step(2, 16, 8639, 256);
    lemma_squaring_step(2, 33, 8639, 5063);
    lemma_squaring_step(2, 67, 8639, 4112);
    lemma_squaring_step(2, 134, 8639, 4042);
    lemma_squaring_step(2, 269, 8639, 1415);
    lemma_squaring_step(2, 539, 8639, 4593);
    lemma_squaring_step(2, 1079, 8639, 7061);
    lemma_squaring_step(2, 2159, 8639, 4104);
    lemma_squaring_step(2, 4319, 8639, 2171);
    lemma_avoiding_first(1333, 8639);
    lemma_refuted_from(8639, 2, 4319, 1, 1333);
}

/// 8851 = 53 * 167 is no strong probable prime to the base 2.
pub proof fn lemma_refuted_8851()
    ensures
        !strong_probable_prime(8851, 2),
{
    lemma2_to64();
    lemma_squaring_step(2, 1, 8851, 1);
    lemma_squaring_step(2, 2, 8851, 2);
    lemma_squaring_step(2, 4, 8851, 4);
    lemma_squaring_step(2, 8, 8851, 16);
    lemma_squaring_step(2, 17, 8851, 256);
    lemma_squaring_step(2, 34, 8851, 7158);
    lemma_squaring_step(2, 69, 8851, 7376);
    lemma_squaring_step(2, 138, 8851, 5409);
    lemma_squaring_step(2, 276, 8851, 4726);
    lemma_squaring_step(2, 553, 8851, 4003);
    lemma_squaring_step(2, 1106, 8851, 7398);
    lemma_squaring_step(2, 2212, 8851, 4671);
    lemma_squaring_step(2, 4425, 8851, 526);
    lemma_avoiding_first(4590, 8851);
    lemma_refuted_from(8851, 2, 4425, 1, 4590);
}

/// 9169 = 53 * 173 is no strong probable prime to the base 2.
pub proof fn lemma_refuted_9169()
    ensures
        !strong_probable_prime(9169, 2),
{
    lemma2_to64();
    lemma_squaring_step(2, 1, 9169, 1);
    lemma_squaring_step(2, 2, 9169, 2);
    lemma_squaring_step(2, 4, 9169, 4);
    lemma_squaring_step(2, 8, 9169, 16);
    lemma_squaring_step(2, 17, 9169, 256);
    lemma_squaring_step(2, 35, 9169, 2706);
    lemma_squaring_step(2, 71, 9169, 1979);
    lemma_squaring_step(2, 143, 9169, 2556);
    lemma_squaring_step(2, 286, 9169, 447);
    lemma_squaring_step(2, 573, 9169, 7260);
    lemma_avoiding_first(2853, 9169);
    lemma_avoiding_step(7648, 9169, 2);
    lemma_avoiding_step(5357, 9169, 3);
    lemma_avoiding_step(8376, 9169, 4);
    lemma_refuted_from(9169, 2, 573, 4, 8376);
}

/// 9487 = 53 * 179 is no strong probable prime to the base 2.
pub proof fn lemma_refuted_9487()
    ensures
        !strong_probable_prime(9487, 2),
{
    lemma2_to64();
    lemma_squaring_step(2, 1, 9487, 1);
    lemma_squaring_step(2, 2, 9487, 2);
    lemma_squaring_step(2, 4, 9487, 4);
    lemma_squaring_step(2, 9, 9487, 16);
    lemma_squaring_step(2, 18, 9487, 512);
    lemma_squaring_step(2, 37, 9487, 5995);
    lemma_squaring_step(2, 74, 9487, 6538);
    lemma_squaring_step(2, 148, 9487, 6509);
    lemma_squaring_step(2, 296, 9487, 7626);
    lemma_squaring_step(2, 592, 9487, 566);
    lemma_squaring_step(2, 1185, 9487, 7285);
    lemma_squaring_step(2, 2371, 9487, 1894);
    lemma_squaring_step(2, 4743, 9487, 2300);
    lemma_avoiding_first(1995, 9487);
    lemma_refuted_from(9487, 2, 4743, 1, 1995);
}

/// 9593 = 53 * 181 is no strong probable prime to the base 2.
pub proof fn lemma_refuted_9593()
    ensures
        !strong_probable_prime(9593, 2),
{
    lemma2_to64();
    lemma_squaring_step(2, 1, 9593, 1);
    lemma_squaring_step(2, 2, 9593, 2);
    lemma_squaring_step(2, 4, 9593, 4);
    lemma_squaring_step(2, 9, 9593, 16);
    lemma_squaring_step(2, 18, 9593, 512);
    lemma_squaring_step(2, 37, 9593, 3133);
    lemma_squaring_step(2, 74, 9593, 4100);
    lemma_squaring_step(2, 149, 9593, 3064);
    lemma_squaring_step(2, 299, 9593, 2691);
    lemma_squaring_step(2, 599, 9593, 7125);
    lemma_squaring_step(2, 1199, 9593, 8531);
    lemma_avoiding_first(2135, 9593);
    lemma_avoiding_step(2184, 9593, 2);
    lemma_avoiding_step(1333, 9593, 3);
    lemma_refuted_from(9593, 2, 1199, 3, 1333);
}

/// No product of 53 and a prime from 53 on, up to 10000, is a strong
/// probable prime to both of the bases 2 and 3.
pub proof fn lemma_products_of_53(q: nat)
    requires
        prime_from_37_to_270(q),
        q >= 53,
        53 * q <= 10000,
    ensures
        !strong_probable_prime(53 * q, 2) || !strong_probable_prime(53 * q, 3),
{
    if q == 53 {
        lemma_refuted_2809();
    } else if q == 59 {
        lemma_refuted_3127();
    } else if q == 61 {
        lemma_refuted_3233();
    } else if q == 67 {
        lemma_refuted_3551();
    } else if q == 71 {
        lemma_refuted_3763();
    } else if q == 73 {
        lemma_refuted_3869();
    } else if q == 79 {
        lemma_refuted_4187();
    } else if q == 83 {
        lemma_refuted_4399();
    } else if q == 89 {
        lemma_refuted_4717();
    } else if q == 97 {
        lemma_refuted_5141();
    } else if q == 101 {
        lemma_refuted_5353();
    } else if q == 103 {
        lemma_refuted_5459();
    } else if q == 107 {
        lemma_refuted_5671();
    } else if q == 109 {
        lemma_refuted_5777();
    } else if q == 113 {
        lemma_refuted_5989();
    } else if q == 127 {
        lemma_refuted_6731();
    } else if q == 131 {
        lemma_refuted_6943();
    } else if q == 137 {
        lemma_refuted_7261();
    } else if q == 139 {
        lemma_refuted_7367();
    } else if q == 149 {
        lemma_refuted_7897();
    } else if q == 151 {
        lemma_refuted_8003();
    } else if q == 157 {
        lemma_refuted_8321();
    } else if q == 163 {
        lemma_refuted_8639();
    } else if q == 167 {
        lemma_refuted_8851();
    } else if q == 173 {
        lemma_refuted_9169();
    } else if q == 179 {
        lemma_refuted_9487();
    } else if q == 181 {
        lemma_refuted_9593();
    }
}

} // verus!
