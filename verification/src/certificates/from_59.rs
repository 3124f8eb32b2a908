//! The products of 59 and a prime from 59 on, up to 10000.

use vstd::arithmetic::power2::lemma2_to64;
use vstd::prelude::*;

use crate::certificates::{
    lemma_avoiding_first, lemma_avoiding_step, lemma_refuted_from, lemma_squaring_step,
    prime_from_37_to_270,
};
use crate::primality::strong_probable_prime;

verus! {

/// 3481 = 59 * 59 is no strong probable prime to the base 2.
pub proof fn lemma_refuted_3481()
    ensures
        !strong_probable_prime(3481, 2),
{
    lemma2_to64();
    lemma_squaring_step(2, 1, 3481, 1);
    lemma_squaring_step(2, 3, 3481, 2);
    lemma_squaring_step(2, 6, 3481, 8);
    lemma_squaring_step(2, 13, 3481, 64);
    lemma_squaring_step(2, 27, 3481, 1230);
    lemma_squaring_step(2, 54, 3481, 811);
    lemma_squaring_step(2, 108, 3481, 3293);
    lemma_squaring_step(2, 217, 3481, 534);
    lemma_squaring_step(2, 435, 3481, 2909);
    lemma_avoiding_first(237, 3481);
    lemma_avoiding_step(119, 3481, 2);
    lemma_avoiding_step(3421, 3481, 3);
    lemma_refuted_from(3481, 2, 435, 3, 3421);
}

/// 3599 = 59 * 61 is no strong probable prime to the base 2.
pub proof fn lemma_refuted_3599()
    ensures
        !strong_probable_prime(3599, 2),
{
    lemma2_to64();
    lemma_squaring_step(2, 1, 3599, 1);
    lemma_squaring_step(2, 3, 3599, 2);
    lemma_squaring_step(2, 7, 3599, 8);
    lemma_squaring_step(2, 14, 3599, 128);
    lemma_squaring_step(2, 28, 3599, 1988);
    lemma_squaring_step(2, 56, 3599, 442);
    lemma_squaring_step(2, 112, 3599, 1018);
    lemma_squaring_step(2, 224, 3599, 3411);
    lemma_squaring_step(2, 449, 3599, 2953);
    lemma_squaring_step(2, 899, 3599, 3263);
    lemma_squaring_step(2, 1799, 3599, 2654);
    lemma_avoiding_first(946, 3599);
    lemma_refuted_from(3599, 2, 1799, 1, 946);
}

/// 3953 = 59 * 67 is no strong probable prime to the base 2.
pub proof fn lemma_refuted_3953()
    ensures
        !strong_probable_prime(3953, 2),
{
    lemma2_to64();
    lemma_squaring_step(2, 1, 3953, 1);
    lemma_squaring_step(2, 3, 3953, 2);
    lemma_squaring_step(2, 7, 3953, 8);
    lemma_squaring_step(2, 15, 3953, 128);
    lemma_squaring_step(2, 30, 3953, 1144);
    lemma_squaring_step(2, 61, 3953, 293);
    lemma_squaring_step(2, 123, 3953, 1719);
    lemma_squaring_step(2, 247, 3953, 187);
    lemma_avoiding_first(3438, 3953);
    lemma_avoiding_step(3367, 3953, 2);
    lemma_avoiding_step(234, 3953, 3);
    lemma_avoiding_step(2737, 3953, 4);
    lemma_refuted_from(3953, 2, 247, 4, 2737);
}

/// 4189 = 59 * 71 is no strong probable prime to the base 2.
pub proof fn lemma_refuted_4189()
    ensures
        !strong_probable_prime(4189, 2),
{
    lemma2_to64();
    lemma_squaring_step(2, 1, 4189, 1);
    lemma_squaring_step(2, 2, 4189, 2);
    lemma_squaring_step(2, 4, 4189, 4);
    lemma_squaring_step(2, 8, 4189, 16);
    lemma_squaring_step(2, 16, 4189, 256);
    lemma_squaring_step(2, 32, 4189, 2701);
    lemma_squaring_step(2, 65, 4189, 2352);
    lemma_squaring_step(2, 130, 4189, 659);
    lemma_squaring_step(2, 261, 4189, 2814);
    lemma_squaring_step(2, 523, 4189, 2772);
    lemma_squaring_step(2, 1047, 4189, 2716);
    lemma_avoiding_first(2424, 4189);
    lemma_avoiding_step(3843, 4189, 2);
    lemma_refuted_from(4189, 2, 1047, 2, 3843);
}

/// 4307 = 59 * 73 is no strong probable prime to the base 2.
pub proof fn lemma_refuted_4307()
    ensures
        !strong_probable_prime(4307, 2),
{
    lemma2_to64();
    lemma_squaring_step(2, 1, 4307, 1);
    lemma_squaring_step(2, 2, 4307, 2);
    lemma_squaring_step(2, 4, 4307, 4);
    lemma_squaring_step(2, 8, 4307, 16);
    lemma_squaring_step(2, 16, 4307, 256);
    lemma_squaring_step(2, 33, 4307, 931);
    lemma_squaring_step(2, 67, 4307, 2108);
    lemma_squaring_step(2, 134, 4307, 1987);
    lemma_squaring_step(2, 269, 4307, 2957);
    lemma_squaring_step(2, 538, 4307, 1278);
    lemma_squaring_step(2, 1076, 4307, 931);
    lemma_squaring_step(2, 2153, 4307, 1054);
    lemma_avoiding_first(3727, 4307);
    lemma_refuted_from(4307, 2, 2153, 1, 3727);
}

/// 4661 = 59 * 79 is no strong probable prime to the base 2.
pub proof fn lemma_refuted_4661()
    ensures
        !strong_probable_prime(4661, 2),
{
    lemma2_to64();
    lemma_squaring_step(2, 1, 4661, 1);
    lemma_squaring_step(2, 2, 4661, 2);
    lemma_squaring_step(2, 4, 4661, 4);
    lemma_squaring_step(2, 9, 4661, 16);
    lemma_squaring_step(2, 18, 4661, 512);
    lemma_squaring_step(2, 36, 4661, 1128);
    lemma_squaring_step(2, 72, 4661, 4592);
    lemma_squaring_step(2, 145, 4661, 100);
    lemma_squaring_step(2, 291, 4661, 1356);
    lemma_squaring_step(2, 582, 4661, 4604);
    lemma_squaring_step(2, 1165, 4661, 3249);
    lemma_avoiding_first(3502, 4661);
    lemma_avoiding_step(2333, 4661, 2);
    lemma_refuted_from(4661, 2, 1165, 2, 2333);
}

/// 4897 = 59 * 83 is no strong probable prime to the base 2.
pub proof fn lemma_refuted_4897()
    ensures
        !strong_probable_prime(4897, 2),
{
    lemma2_to64();
    lemma_squaring_step(2, 1, 4897, 1);
    lemma_squaring_step(2, 2, 4897, 2);
    lemma_squaring_step(2, 4, 4897, 4);
    lemma_squaring_step(2, 9, 4897, 16);
    lemma_squaring_step(2, 19, 4897, 512);
    lemma_squaring_step(2, 38, 4897, 309);
    lemma_squaring_step(2, 76, 4897, 2438);
    lemma_squaring_step(2, 153, 4897, 3783);
    lemma_avoiding_first(1972, 4897);
    lemma_avoiding_step(3368, 4897, 2);
    lemma_avoiding_step(4181, 4897, 3);
    lemma_avoiding_step(2347, 4897, 4);
    lemma_avoiding_step(4110, 4897, 5);
    lemma_refuted_from(4897, 2, 153, 5, 4110);
}

/// 5251 = 59 * 89 is no strong probable prime to the base 2.
pub proof fn lemma_refuted_5251()
    ensures
        !strong_probable_prime(5251, 2),
{
    lemma2_to64();
    lemma_squaring_step(2, 1, 5251, 1);
    lemma_squaring_step(2, 2, 5251, 2);
    lemma_squaring_step(2, 5, 5251, 4);
    lemma_squaring_step(2, 10, 5251, 32);
    lemma_squaring_step(2, 20, 5251, 1024);
    lemma_squaring_step(2, 41, 5251, 3627);
    lemma_squaring_step(2, 82, 5251, 2748);
    lemma_squaring_step(2, 164, 5251, 566);
    lemma_squaring_step(2, 328, 5251, 45);
    lemma_squaring_step(2, 656, 5251, 2025);
    lemma_squaring_step(2, 1312, 5251, 4845);
    lemma_squaring_step(2, 2625, 5251, 2055);
    lemma_avoiding_first(2442, 5251);
    lemma_refuted_from(5251, 2, 2625, 1, 2442);
}

/// 5723 = 59 * 97 is no strong probable prime to the base 2.
pub proof fn lemma_refuted_5723()
    ensures
        !strong_probable_prime(5723, 2),
{
    lemma2_to64();
    lemma_squaring_step(2, 1, 5723, 1);
    lemma_squaring_step(2, 2, 5723, 2);
    lemma_squaring_step(2, 5, 5723, 4);
    lemma_squaring_step(2, 11, 5723, 32);
    lemma_squaring_step(2, 22, 5723, 2048);
    lemma_squaring_step(2, 44, 5723, 5068);
    lemma_squaring_step(2, 89, 5723, 5523);
    lemma_squaring_step(2, 178, 5723, 5601);
    lemma_squaring_step(2, 357, 5723, 3438);
    lemma_squaring_step(2, 715, 5723, 3698);
    lemma_squaring_step(2, 1430, 5723, 191);
    lemma_squaring_step(2, 2861, 5723, 2143);
    lemma_avoiding_first(5206, 5723);
    lemma_refuted_from(5723, 2, 2861, 1, 5206);
}

/// 5959 = 59 * 101 is no strong probable prime to the base 2.
pub proof fn lemma_refuted_5959()
    ensures
        !strong_probable_prime(5959, 2),
{
    lemma2_to64();
    lemma_squaring_step(2, 1, 5959, 1);
    lemma_squaring_step(2, 2, 5959, 2);
    lemma_squaring_step(2, 5, 5959, 4);
    lemma_squaring_step(2, 11, 5959, 32);
    lemma_squaring_step(2, 23, 5959, 2048);
    lemma_squaring_step(2, 46, 5959, 4295);
    lemma_squaring_step(2, 93, 5959, 3920);
    lemma_squaring_step(2, 186, 5959, 2237);
    lemma_squaring_step(2, 372, 5959, 4568);
    lemma_squaring_step(2, 744, 5959, 4165);
    lemma_squaring_step(2, 1489, 5959, 576);
    lemma_squaring_step(2, 2979, 5959, 2103);
    lemma_avoiding_first(2062, 5959);
    lemma_refuted_from(5959, 2, 2979, 1, 2062);
}

/// 6077 = 59 * 103 is no strong probable prime to the base 2.
pub proof fn lemma_refuted_6077()
    ensures
        !strong_probable_prime(6077, 2),
{
    lemma2_to64();
    lemma_squaring_step(2, 1, 6077, 1);
    lemma_squaring_step(2, 2, 6077, 2);
    lemma_squaring_step(2, 5, 6077, 4);
    lemma_squaring_step(2, 11, 6077, 32);
    lemma_squaring_step(2, 23, 6077, 2048);
    lemma_squaring_step(2, 47, 6077, 2348);
    lemma_squaring_step(2, 94, 6077, 2530);
    lemma_squaring_step(2, 189, 6077, 1819);
    lemma_squaring_step(2, 379, 6077, 5746);
    lemma_squaring_step(2, 759, 6077, 350);
    lemma_squaring_step(2, 1519, 6077, 1920);
    lemma_avoiding_first(407, 6077);
    lemma_avoiding_step(1399, 6077, 2);
    lemma_refuted_from(6077, 2, 1519, 2, 1399);
}

/// 6313 = 59 * 107 is no strong probable prime to the base 2.
pub proof fn lemma_refuted_6313()
    ensures
        !strong_probable_prime(6313, 2),
{
    lemma2_to64();
    lemma_squaring_step(2, 1, 6313, 1);
    lemma_squaring_step(2, 3, 6313, 2);
    lemma_squaring_step(2, 6, 6313, 8);
    lemma_squaring_step(2, 12, 6313, 64);
    lemma_squaring_step(2, 24, 6313, 4096);
    lemma_squaring_step(2, 49, 6313, 3575);
    lemma_squaring_step(2, 98, 6313, 6226);
    lemma_squaring_step(2, 197, 6313, 1256);
    lemma_squaring_step(2, 394, 6313, 4885);
    lemma_squaring_step(2, 789, 6313, 85);
    lemma_avoiding_first(625, 6313);
    lemma_avoiding_step(25, 6313, 2);
    lemma_avoiding_step(1824, 6313, 3);
    lemma_refuted_from(6313, 2, 789, 3, 1824);
}

/// 6431 = 59 * 109 is no strong probable prime to the base 2.
pub proof fn lemma_refuted_6431()
    ensures
        !strong_probable_prime(6431, 2),
{
    lemma2_to64();
    lemma_squaring_step(2, 1, 6431, 1);
    lemma_squaring_step(2, 3, 6431, 2);
    lemma_squaring_step(2, 6, 6431, 8);
    lemma_squaring_step(2, 12, 6431, 64);
    lemma_squaring_step(2, 25, 6431, 4096);
    lemma_squaring_step(2, 50, 6431, 3905);
    lemma_squaring_step(2, 100, 6431, 1124);
    lemma_squaring_step(2, 200, 6431, 2900);
    lemma_squaring_step(2, 401, 6431, 4683);
    lemma_squaring_step(2, 803, 6431, 1558);
    lemma_squaring_step(2, 1607, 6431, 5754);
    lemma_squaring_step(2, 3215, 6431, 3456);
    lemma_avoiding_first(3138, 6431);
    lemma_refuted_from(6431, 2, 3215, 1, 3138);
}

/// 6667 = 59 * 113 is no strong probable prime to the base 2.
pub proof fn lemma_refuted_6667()
    ensures
        !strong_probable_prime(6667, 2),
{
    lemma2_to64();
    lemma_squaring_step(2, 1, 6667, 1);
    lemma_squaring_step(2, 3, 6667, 2);
    lemma_squaring_step(2, 6, 6667, 8);
    lemma_squaring_step(2, 13, 6667, 64);
    lemma_squaring_step(2, 26, 6667, 1525);
    lemma_squaring_step(2, 52, 6667, 5509);
    lemma_squaring_step(2, 104, 6667, 897);
    lemma_squaring_step(2, 208, 6667, 4569);
    lemma_squaring_step(2, 416, 6667, 1384);
    lemma_squaring_step(2, 833, 6667, 2027);
    lemma_squaring_step(2, 1666, 6667, 3714);
    lemma_squaring_step(2, 3333, 6667, 6440);
    lemma_avoiding_first(3053, 6667);
    lemma_refuted_from(6667, 2, 3333, 1, 3053);
}

/// 7493 = 59 * 127 is no strong probable prime to the base 2.
pub proof fn lemma_refuted_7493()
    ensures
        !strong_probable_prime(7493, 2),
{
    lemma2_to64();
    lemma_squaring_step(2, 1, 7493, 1);
    lemma_squaring_step(2, 3, 7493, 2);
    lemma_squaring_step(2, 7, 7493, 8);
    lemma_squaring_step(2, 14, 7493, 128);
    lemma_squaring_step(2, 29, 7493, 1398);
    lemma_squaring_step(2, 58, 7493, 4955);
    lemma_squaring_step(2, 117, 7493, 4957);
    lemma_squaring_step(2, 234, 7493, 4604);
    lemma_squaring_step(2, 468, 7493, 6612);
    lemma_squaring_step(2, 936, 7493, 4382);
    lemma_squaring_step(2, 1873, 7493, 4858);
    lemma_avoiding_first(3685, 7493);
    lemma_avoiding_step(1921, 7493, 2);
    lemma_refuted_from(7493, 2, 1873, 2, 1921);
}

/// 7729 = 59 * 131 is no strong probable prime to the base 2.
pub proof fn lemma_refuted_7729()
    ensures
        !strong_probable_prime(7729, 2),
{
    lemma2_to64();
    lemma_squaring_step(2, 1, 7729, 1);
    lemma_squaring_step(2, 3, 7729, 2);
    lemma_squaring_step(2, 7, 7729, 8);
    lemma_squaring_step(2, 15, 7729, 128);
    lemma_squaring_step(2, 30, 7729, 1852);
    lemma_squaring_step(2, 60, 7729, 5957);
    lemma_squaring_step(2, 120, 7729, 2010);
    lemma_squaring_step(2, 241, 7729, 5562);
    lemma_squaring_step(2, 483, 7729, 1043);
    lemma_avoiding_first(6126, 7729);
    lemma_avoiding_step(3134, 7729, 2);
    lemma_avoiding_step(6037, 7729, 3);
    lemma_avoiding_step(3849, 7729, 4);
    lemma_refuted_from(7729, 2, 483, 4, 3849);
}

/// 8083 = 59 * 137 is no strong probable prime to the base 2.
pub proof fn lemma_refuted_8083()
    ensures
        !strong_probable_prime(8083, 2),
{
    lemma2_to64();
    lemma_squaring_step(2, 1, 8083, 1);
    lemma_squaring_step(2, 3, 8083, 2);
    lemma_squaring_step(2, 7, 8083, 8);
    lemma_squaring_step(2, 15, 8083, 128);
    lemma_squaring_step(2, 31, 8083, 436);
    lemma_squaring_step(2, 63, 8083, 291);
    lemma_squaring_step(2, 126, 8083, 7702);
    lemma_squaring_step(2, 252, 8083, 7750);
    lemma_squaring_step(2, 505, 8083, 5810);
    lemma_squaring_step(2, 1010, 8083, 2984);
    lemma_squaring_step(2, 2020, 8083, 4873);
    lemma_squaring_step(2, 4041, 8083, 6358);
    lemma_avoiding_first(2162, 8083);
    lemma_refuted_from(8083, 2, 4041, 1, 2162);
}

/// 8201 = 59 * 139 is no strong probable prime to the base 2.
pub proof fn lemma_refuted_8201()
    ensures
        !strong_probable_prime(8201, 2),
{
    lemma2_to64();
    lemma_squaring_step(2, 1, 8201, 1);
    lemma_squaring_step(2, 2, 8201, 2);
    lemma_squaring_step(2, 4, 8201, 4);
    lemma_squaring_step(2, 8, 8201, 16);
    lemma_squaring_step(2, 16, 8201, 256);
    lemma_squaring_step(2, 32, 8201, 8129);
    lemma_squaring_step(2, 64, 8201, 5184);
    lemma_squaring_step(2, 128, 8201, 7380);
    lemma_squaring_step(2, 256, 8201, 1559);
    lemma_squaring_step(2, 512, 8201, 2985);
    lemma_squaring_step(2, 1025, 8201, 3939);
    lemma_avoiding_first(1020, 8201);
    lemma_avoiding_step(205, 8201, 2);
    lemma_avoiding_step(7059, 8201, 3);
    lemma_refuted_from(8201, 2, 1025, 3, 7059);
}

/// 8791 = 59 * 149 is no strong probable prime to the base 2.
pub proof fn lemma_refuted_8791()
    ensures
        !strong_probable_prime(8791, 2),
{
    lemma2_to64();
    lemma_squaring_step(2, 1, 8791, 1);
    lemma_squaring_step(2, 2, 8791, 2);
    lemma_squaring_step(2, 4, 8791, 4);
    lemma_squaring_step(2, 8, 8791, 16);
    lemma_squaring_step(2, 17, 8791, 256);
    lemma_squaring_step(2, 34, 8791, 7998);
    lemma_squaring_step(2, 68, 8791, 4688);
    lemma_squaring_step(2, 137, 8791, 8635);
    lemma_squaring_step(2, 274, 8791, 4717);
    lemma_squaring_step(2, 549, 8791, 68);
    lemma_squaring_step(2, 1098, 8791, 457);
    lemma_squaring_step(2, 2197, 8791, 6656);
    lemma_squaring_step(2, 4395, 8791, 183);
    lemma_avoiding_first(5441, 8791);
    lemma_refuted_from(8791, 2, 4395, 1, 5441);
}

/// 8909 = 59 * 151 is no strong probable prime to the base 2.
pub proof fn lemma_refuted_8909()
    ensures
        !strong_probable_prime(8909, 2),
{
    lemma2_to64();
    lemma_squaring_step(2, 1, 8909, 1);
    lemma_squaring_step(2, 2, 8909, 2);
    lemma_squaring_step(2, 4, 8909, 4);
    lemma_squaring_step(2, 8, 8909, 16);
    lemma_squaring_step(2, 17, 8909, 256);
    lemma_squaring_step(2, 34, 8909, 6346);
    lemma_squaring_step(2, 69, 8909, 3036);
    lemma_squaring_step(2, 139, 8909, 1871);
    lemma_squaring_step(2, 278, 8909, 7717);
    lemma_squaring_step(2, 556, 8909, 4333);
    lemma_squaring_step(2, 1113, 8909, 3626);
    lemma_squaring_step(2, 2227, 8909, 5293);
    lemma_avoiding_first(1737, 8909);
    lemma_avoiding_step(2997, 8909, 2);
    lemma_refuted_from(8909, 2, 2227, 2, 2997);
}

/// 9263 = 59 * 157 is no strong probable prime to the base 2.
pub proof fn lemma_refuted_9263()
    ensures
        !strong_probable_prime(9263, 2),
{
    lemma2_to64();
    lemma_squaring_step(2, 1, 9263, 1);
    lemma_squaring_step(2, 2, 9263, 2);
    lemma_squaring_step(2, 4, 9263, 4);
    lemma_squaring_step(2, 9, 9263, 16);
    lemma_squaring_step(2, 18, 9263, 512);
    lemma_squaring_step(2, 36, 9263, 2780);
    lemma_squaring_step(2, 72, 9263, 3058);
    lemma_squaring_step(2, 144, 9263, 4997);
    lemma_squaring_step(2, 289, 9263, 6224);
    lemma_squaring_step(2, 578, 9263, 620);
    lemma_squaring_step(2, 1157, 9263, 4617);
    lemma_squaring_step(2, 2315, 9263, 5052);
    lemma_squaring_step(2, 4631, 9263, 6278);
    lemma_avoiding_first(7701, 9263);
    lemma_refuted_from(9263, 2, 4631, 1, 7701);
}

/// 9617 = 59 * 163 is no strong probable prime to the base 2.
pub proof fn lemma_refuted_9617()
    ensures
        !strong_probable_prime(9617, 2),
{
    lemma2_to64();
    lemma_squaring_step(2, 1, 9617, 1);
    lemma_squaring_step(2, 2, 9617, 2);
    lemma_squaring_step(2, 4, 9617, 4);
    lemma_squaring_step(2, 9, 9617, 16);
    lemma_squaring_step(2, 18, 9617, 512);
    lemma_squaring_step(2, 37, 9617, 2485);
    lemma_squaring_step(2, 75, 9617, 2222);
    lemma_squaring_step(2, 150, 9617, 7526);
    lemma_squaring_step(2, 300, 9617, 6163);
    lemma_squaring_step(2, 601, 9617, 5036);
    lemma_avoiding_first(6915, 9617);
    lemma_avoiding_step(8105, 9617, 2);
    lemma_avoiding_step(6617, 9617, 3);
    lemma_avoiding_step(2534, 9617, 4);
    lemma_refuted_from(9617, 2, 601, 4, 2534);
}

/// 9853 = 59 * 167 is no strong probable prime to the base 2.
pub proof fn lemma_refuted_9853()
    ensures
        !strong_probable_prime(9853, 2),
{
    lemma2_to64();
    lemma_squaring_step(2, 1, 9853, 1);
    lemma_squaring_step(2, 2, 9853, 2);
    lemma_squaring_step(2, 4, 9853, 4);
    lemma_squaring_step(2, 9, 9853, 16);
    lemma_squaring_step(2, 19, 9853, 512);
    lemma_squaring_step(2, 38, 9853, 2079);
    lemma_squaring_step(2, 76, 9853, 6627);
    lemma_squaring_step(2, 153, 9853, 2308);
    lemma_squaring_step(2, 307, 9853, 2635);
    lemma_squaring_step(2, 615, 9853, 3573);
    lemma_squaring_step(2, 1231, 9853, 3535);
    lemma_squaring_step(2, 2463, 9853, 5242);
    lemma_avoiding_first(815, 9853);
    lemma_avoiding_step(6947, 9853, 2);
    lemma_refuted_from(9853, 2, 2463, 2, 6947);
}

/// No product of 59 and a prime from 59 on, up to 10000, is a strong
/// probable prime to both of the bases 2 and 3.
pub proof fn lemma_products_of_59(q: nat)
    requires
        prime_from_37_to_270(q),
        q >= 59,
        59 * q <= 10000,
    ensures
        !strong_probable_prime(59 * q, 2) || !strong_probable_prime(59 * q, 3),
{
    if q == 59 {
        lemma_refuted_3481();
    } else if q == 61 {
        lemma_refuted_3599();
    } else if q == 67 {
        lemma_refuted_3953();
    } else if q == 71 {
        lemma_refuted_4189();
    } else if q == 73 {
        lemma_refuted_4307();
    } else if q == 79 {
        lemma_refuted_4661();
    } else if q == 83 {
        lemma_refuted_4897();
    } else if q == 89 {
        lemma_refuted_5251();
    } else if q == 97 {
        lemma_refuted_5723();
    } else if q == 101 {
        lemma_refuted_5959();
    } else if q == 103 {
        lemma_refuted_6077();
    } else if q == 107 {
        lemma_refuted_6313();
    } else if q == 109 {
        lemma_refuted_6431();
    } else if q == 113 {
        lemma_refuted_6667();
    } else if q == 127 {
        lemma_refuted_7493();
    } else if q == 131 {
        lemma_refuted_7729();
    } else if q == 137 {
        lemma_refuted_8083();
    } else if q == 139 {
        lemma_refuted_8201();
    } else if q == 149 {
        lemma_refuted_8791();
    } else if q == 151 {
        lemma_refuted_8909();
    } else if q == 157 {
        lemma_refuted_9263();
    } else if q == 163 {
        lemma_refuted_9617();
    } else if q == 167 {
        lemma_refuted_9853();
    }
}

} // verus!
