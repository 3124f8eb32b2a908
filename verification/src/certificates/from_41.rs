//! The products of 41 and a prime from 41 on, up to 10000.

use vstd::arithmetic::power2::lemma2_to64;
use vstd::prelude::*;

use crate::certificates::{
    lemma_avoiding_first, lemma_avoiding_step, lemma_refuted_from, lemma_squaring_step,
    prime_from_37_to_270,
};
use crate::primality::strong_probable_prime;

verus! {

/// 1681 = 41 * 41 is no strong probable prime to the base 2.
pub proof fn lemma_refuted_1681()
    ensures
        !strong_probable_prime(1681, 2),
{
    lemma2_to64();
    lemma_squaring_step(2, 1, 1681, 1);
    lemma_squaring_step(2, 3, 1681, 2);
    lemma_squaring_step(2, 6, 1681, 8);
    lemma_squaring_step(2, 13, 1681, 64);
    lemma_squaring_step(2, 26, 1681, 1468);
    lemma_squaring_step(2, 52, 1681, 1663);
    lemma_squaring_step(2, 105, 1681, 324);
    lemma_avoiding_first(1313, 1681);
    lemma_avoiding_step(657, 1681, 2);
    lemma_avoiding_step(1352, 1681, 3);
    lemma_avoiding_step(1508, 1681, 4);
    lemma_refuted_from(1681, 2, 105, 4, 1508);
}

/// 1763 = 41 * 43 is no strong probable prime to the base 2.
pub proof fn lemma_refuted_1763()
    ensures
        !strong_probable_prime(1763, 2),
{
    lemma2_to64();
    lemma_squaring_step(2, 1, 1763, 1);
    lemma_squaring_step(2, 3, 1763, 2);
    lemma_squaring_step(2, 6, 1763, 8);
    lemma_squaring_step(2, 13, 1763, 64);
    lemma_squaring_step(2, 27, 1763, 1140);
    lemma_squaring_step(2, 55, 1763, 538);
    lemma_squaring_step(2, 110, 1763, 624);
    lemma_squaring_step(2, 220, 1763, 1516);
    lemma_squaring_step(2, 440, 1763, 1067);
    lemma_squaring_step(2, 881, 1763, 1354);
    lemma_avoiding_first(1355, 1763);
    lemma_refuted_from(1763, 2, 881, 1, 1355);
}

/// 1927 = 41 * 47 is no strong probable prime to the base 2.
pub proof fn lemma_refuted_1927()
    ensures
        !strong_probable_prime(1927, 2),
{
    lemma2_to64();
    lemma_squaring_step(2, 1, 1927, 1);
    lemma_squaring_step(2, 3, 1927, 2);
    lemma_squaring_step(2, 7, 1927, 8);
    lemma_squaring_step(2, 15, 1927, 128);
    lemma_squaring_step(2, 30, 1927, 9);
    lemma_squaring_step(2, 60, 1927, 81);
    lemma_squaring_step(2, 120, 1927, 780);
    lemma_squaring_step(2, 240, 1927, 1395);
    lemma_squaring_step(2, 481, 1927, 1682);
    lemma_squaring_step(2, 963, 1927, 576);
    lemma_avoiding_first(664, 1927);
    lemma_refuted_from(1927, 2, 963, 1, 664);
}

/// 2173 = 41 * 53 is no strong probable prime to the base 2.
pub proof fn lemma_refuted_2173()
    ensures
        !strong_probable_prime(2173, 2),
{
    lemma2_to64();
    lemma_squaring_step(2, 1, 2173, 1);
    lemma_squaring_step(2, 2, 2173, 2);
    lemma_squaring_step(2, 4, 2173, 4);
    lemma_squaring_step(2, 8, 2173, 16);
    lemma_squaring_step(2, 16, 2173, 256);
    lemma_squaring_step(2, 33, 2173, 346);
    lemma_squaring_step(2, 67, 2173, 402);
    lemma_squaring_step(2, 135, 2173, 1604);
    lemma_squaring_step(2, 271, 2173, 2141);
    lemma_squaring_step(2, 543, 2173, 2048);
    lemma_avoiding_first(1089, 2173);
    lemma_avoiding_step(828, 2173, 2);
    lemma_refuted_from(2173, 2, 543, 2, 828);
}

/// 2419 = 41 * 59 is no strong probable prime to the base 2.
pub proof fn lemma_refuted_2419()
    ensures
        !strong_probable_prime(2419, 2),
{
    lemma2_to64();
    lemma_squaring_step(2, 1, 2419, 1);
    lemma_squaring_step(2, 2, 2419, 2);
    lemma_squaring_step(2, 4, 2419, 4);
    lemma_squaring_step(2, 9, 2419, 16);
    lemma_squaring_step(2, 18, 2419, 512);
    lemma_squaring_step(2, 37, 2419, 892);
    lemma_squaring_step(2, 75, 2419, 2045);
    lemma_squaring_step(2, 151, 2419, 1567);
    lemma_squaring_step(2, 302, 2419, 408);
    lemma_squaring_step(2, 604, 2419, 1972);
    lemma_squaring_step(2, 1209, 2419, 1451);
    lemma_avoiding_first(1742, 2419);
    lemma_refuted_from(2419, 2, 1209, 1, 1742);
}

/// 2501 = 41 * 61 is no strong probable prime to the base 2.
pub proof fn lemma_refuted_2501()
    ensures
        !strong_probable_prime(2501, 2),
{
    lemma2_to64();
    lemma_squaring_step(2, 1, 2501, 1);
    lemma_squaring_step(2, 2, 2501, 2);
    lemma_squaring_step(2, 4, 2501, 4);
    lemma_squaring_step(2, 9, 2501, 16);
    lemma_squaring_step(2, 19, 2501, 512);
    lemma_squaring_step(2, 39, 2501, 1579);
    lemma_squaring_step(2, 78, 2501, 1989);
    lemma_squaring_step(2, 156, 2501, 2040);
    lemma_squaring_step(2, 312, 2501, 2437);
    lemma_squaring_step(2, 625, 2501, 1595);
    lemma_avoiding_first(1844, 2501);
    lemma_avoiding_step(1016, 2501, 2);
    lemma_refuted_from(2501, 2, 625, 2, 1016);
}

/// 2747 = 41 * 67 is no strong probable prime to the base 2.
pub proof fn lemma_refuted_2747()
    ensures
        !strong_probable_prime(2747, 2),
{
    lemma2_to64();
    lemma_squaring_step(2, 1, 2747, 1);
    lemma_squaring_step(2, 2, 2747, 2);
    lemma_squaring_step(2, 5, 2747, 4);
    lemma_squaring_step(2, 10, 2747, 32);
    lemma_squaring_step(2, 21, 2747, 1024);
    lemma_squaring_step(2, 42, 2747, 1191);
    lemma_squaring_step(2, 85, 2747, 1029);
    lemma_squaring_step(2, 171, 2747, 2492);
    lemma_squaring_step(2, 343, 2747, 941);
    lemma_squaring_step(2, 686, 2747, 1894);
    lemma_squaring_step(2, 1373, 2747, 2401);
    lemma_avoiding_first(443, 2747);
    lemma_refuted_from(2747, 2, 1373, 1, 443);
}

/// 2911 = 41 * 71 is no strong probable prime to the base 2.
pub proof fn lemma_refuted_2911()
    ensures
        !strong_probable_prime(2911, 2),
{
    lemma2_to64();
    lemma_squaring_step(2, 1, 2911, 1);
    lemma_squaring_step(2, 2, 2911, 2);
    lemma_squaring_step(2, 5, 2911, 4);
    lemma_squaring_step(2, 11, 2911, 32);
    lemma_squaring_step(2, 22, 2911, 2048);
    lemma_squaring_step(2, 45, 2911, 2464);
    lemma_squaring_step(2, 90, 2911, 811);
    lemma_squaring_step(2, 181, 2911, 2746);
    lemma_squaring_step(2, 363, 2911, 2052);
    lemma_squaring_step(2, 727, 2911, 2796);
    lemma_squaring_step(2, 1455, 2911, 251);
    lemma_avoiding_first(829, 2911);
    lemma_refuted_from(2911, 2, 1455, 1, 829);
}

/// 2993 = 41 * 73 is no strong probable prime to the base 2.
pub proof fn lemma_refuted_2993()
    ensures
        !strong_probable_prime(2993, 2),
{
    lemma2_to64();
    lemma_squaring_step(2, 1, 2993, 1);
    lemma_squaring_step(2, 2, 2993, 2);
    lemma_squaring_step(2, 5, 2993, 4);
    lemma_squaring_step(2, 11, 2993, 32);
    lemma_squaring_step(2, 23, 2993, 2048);
    lemma_squaring_step(2, 46, 2993, 2222);
    lemma_squaring_step(2, 93, 2993, 1827);
    lemma_squaring_step(2, 187, 2993, 1468);
    lemma_avoiding_first(223, 2993);
    lemma_avoiding_step(2265, 2993, 2);
    lemma_avoiding_step(1419, 2993, 3);
    lemma_avoiding_step(128, 2993, 4);
    lemma_refuted_from(2993, 2, 187, 4, 128);
}

/// 3239 = 41 * 79 is no strong probable prime to the base 2.
pub proof fn lemma_refuted_3239()
    ensures
        !strong_probable_prime(3239, 2),
{
    lemma2_to64();
    lemma_squaring_step(2, 1, 3239, 1);
    lemma_squaring_step(2, 3, 3239, 2);
    lemma_squaring_step(2, 6, 3239, 8);
    lemma_squaring_step(2, 12, 3239, 64);
    lemma_squaring_step(2, 25, 3239, 857);
    lemma_squaring_step(2, 50, 3239, 1631);
    lemma_squaring_step(2, 101, 3239, 942);
    lemma_squaring_step(2, 202, 3239, 2995);
    lemma_squaring_step(2, 404, 3239, 1234);
    lemma_squaring_step(2, 809, 3239, 426);
    lemma_squaring_step(2, 1619, 3239, 184);
    lemma_avoiding_first(2932, 3239);
    lemma_refuted_from(3239, 2, 1619, 1, 2932);
}

/// 3403 = 41 * 83 is no strong probable prime to the base 2.
pub proof fn lemma_refuted_3403()
    ensures
        !strong_probable_prime(3403, 2),
{
    lemma2_to64();
    lemma_squaring_step(2, 1, 3403, 1);
    lemma_squaring_step(2, 3, 3403, 2);
    lemma_squaring_step(2, 6, 3403, 8);
    lemma_squaring_step(2, 13, 3403, 64);
    lemma_squaring_step(2, 26, 3403, 1386);
    lemma_squaring_step(2, 53, 3403, 1704);
    lemma_squaring_step(2, 106, 3403, 1714);
    lemma_squaring_step(2, 212, 3403, 1007);
    lemma_squaring_step(2, 425, 3403, 3358);
    lemma_squaring_step(2, 850, 3403, 647);
    lemma_squaring_step(2, 1701, 3403, 40);
    lemma_avoiding_first(3200, 3403);
    lemma_refuted_from(3403, 2, 1701, 1, 3200);
}

/// 3649 = 41 * 89 is no strong probable prime to the base 2.
pub proof fn lemma_refuted_3649()
    ensures
        !strong_probable_prime(3649, 2),
{
    lemma2_to64();
    lemma_squaring_step(2, 1, 3649, 1);
    lemma_squaring_step(2, 3, 3649, 2);
    lemma_squaring_step(2, 7, 3649, 8);
    lemma_squaring_step(2, 14, 3649, 128);
    lemma_squaring_step(2, 28, 3649, 1788);
    lemma_squaring_step(2, 57, 3649, 420);
    lemma_avoiding_first(2025, 3649);
    lemma_avoiding_step(3071, 3649, 2);
    lemma_avoiding_step(3503, 3649, 3);
    lemma_avoiding_step(256, 3649, 4);
    lemma_avoiding_step(1173, 3649, 5);
    lemma_avoiding_step(2496, 3649, 6);
    lemma_refuted_from(3649, 2, 57, 6, 2496);
}

/// 3977 = 41 * 97 is no strong probable prime to the base 2.
pub proof fn lemma_refuted_3977()
    ensures
        !strong_probable_prime(3977, 2),
{
    lemma2_to64();
    lemma_squaring_step(2, 1, 3977, 1);
    lemma_squaring_step(2, 3, 3977, 2);
    lemma_squaring_step(2, 7, 3977, 8);
    lemma_squaring_step(2, 15, 3977, 128);
    lemma_squaring_step(2, 31, 3977, 952);
    lemma_squaring_step(2, 62, 3977, 3073);
    lemma_squaring_step(2, 124, 3977, 1931);
    lemma_squaring_step(2, 248, 3977, 2312);
    lemma_squaring_step(2, 497, 3977, 256);
    lemma_avoiding_first(297, 3977);
    lemma_avoiding_step(722, 3977, 2);
    lemma_avoiding_step(3808, 3977, 3);
    lemma_refuted_from(3977, 2, 497, 3, 3808);
}

/// 4141 = 41 * 101 is no strong probable prime to the base 2.
pub proof fn lemma_refuted_4141()
    ensures
        !strong_probable_prime(4141, 2),
{
    lemma2_to64();
    lemma_squaring_step(2, 1, 4141, 1);
    lemma_squaring_step(2, 2, 4141, 2);
    lemma_squaring_step(2, 4, 4141, 4);
    lemma_squaring_step(2, 8, 4141, 16);
    lemma_squaring_step(2, 16, 4141, 256);
    lemma_squaring_step(2, 32, 4141, 3421);
    lemma_squaring_step(2, 64, 4141, 775);
    lemma_squaring_step(2, 129, 4141, 180);
    lemma_squaring_step(2, 258, 4141, 2685);
    lemma_squaring_step(2, 517, 4141, 3885);
    lemma_squaring_step(2, 1035, 4141, 2701);
    lemma_avoiding_first(3238, 4141);
    lemma_avoiding_step(2059, 4141, 2);
    lemma_refuted_from(4141, 2, 1035, 2, 2059);
}

/// 4223 = 41 * 103 is no strong probable prime to the base 2.
pub proof fn lemma_refuted_4223()
    ensures
        !strong_probable_prime(4223, 2),
{
    lemma2_to64();
    lemma_squaring_step(2, 1, 4223, 1);
    lemma_squaring_step(2, 2, 4223, 2);
    lemma_squaring_step(2, 4, 4223, 4);
    lemma_squaring_step(2, 8, 4223, 16);
    lemma_squaring_step(2, 16, 4223, 256);
    lemma_squaring_step(2, 32, 4223, 2191);
    lemma_squaring_step(2, 65, 4223, 3153);
    lemma_squaring_step(2, 131, 4223, 934);
    lemma_squaring_step(2, 263, 4223, 613);
    lemma_squaring_step(2, 527, 4223, 4067);
    lemma_squaring_step(2, 1055, 4223, 2219);
    lemma_squaring_step(2, 2111, 4223, 4109);
    lemma_avoiding_first(654, 4223);
    lemma_refuted_from(4223, 2, 2111, 1, 654);
}

/// 4387 = 41 * 107 is no strong probable prime to the base 2.
pub proof fn lemma_refuted_4387()
    ensures
        !strong_probable_prime(4387, 2),
{
    lemma2_to64();
    lemma_squaring_step(2, 1, 4387, 1);
    lemma_squaring_step(2, 2, 4387, 2);
    lemma_squaring_step(2, 4, 4387, 4);
    lemma_squaring_step(2, 8, 4387, 16);
    lemma_squaring_step(2, 17, 4387, 256);
    lemma_squaring_step(2, 34, 4387, 3849);
    lemma_squaring_step(2, 68, 4387, 4289);
    lemma_squaring_step(2, 137, 4387, 830);
    lemma_squaring_step(2, 274, 4387, 282);
    lemma_squaring_step(2, 548, 4387, 558);
    lemma_squaring_step(2, 1096, 4387, 4274);
    lemma_squaring_step(2, 2193, 4387, 3995);
    lemma_avoiding_first(238, 4387);
    lemma_refuted_from(4387, 2, 2193, 1, 238);
}

/// 4469 = 41 * 109 is no strong probable prime to the base 2.
pub proof fn lemma_refuted_4469()
    ensures
        !strong_probable_prime(4469, 2),
{
    lemma2_to64();
    lemma_squaring_step(2, 1, 4469, 1);
    lemma_squaring_step(2, 2, 4469, 2);
    lemma_squaring_step(2, 4, 4469, 4);
    lemma_squaring_step(2, 8, 4469, 16);
    lemma_squaring_step(2, 17, 4469, 256);
    lemma_squaring_step(2, 34, 4469, 1471);
    lemma_squaring_step(2, 69, 4469, 845);
    lemma_squaring_step(2, 139, 4469, 2439);
    lemma_squaring_step(2, 279, 4469, 964);
    lemma_squaring_step(2, 558, 4469, 3957);
    lemma_squaring_step(2, 1117, 4469, 2942);
    lemma_avoiding_first(2075, 4469);
    lemma_avoiding_step(2291, 4469, 2);
    lemma_refuted_from(4469, 2, 1117, 2, 2291);
}

/// 4633 = 41 * 113 is no strong probable prime to the base 2.
pub proof fn lemma_refuted_4633()
    ensures
        !strong_probable_prime(4633, 2),
{
    lemma2_to64();
    lemma_squaring_step(2, 1, 4633, 1);
    lemma_squaring_step(2, 2, 4633, 2);
    lemma_squaring_step(2, 4, 4633, 4);
    lemma_squaring_step(2, 9, 4633, 16);
    lemma_squaring_step(2, 18, 4633, 512);
    lemma_squaring_step(2, 36, 4633, 2696);
    lemma_squaring_step(2, 72, 4633, 3872);
    lemma_squaring_step(2, 144, 4633, 4629);
    lemma_squaring_step(2, 289, 4633, 16);
    lemma_squaring_step(2, 579, 4633, 512);
    lemma_avoiding_first(4569, 4633);
    lemma_avoiding_step(1589, 4633, 2);
    lemma_avoiding_step(759, 4633, 3);
    lemma_refuted_from(4633, 2, 579, 3, 759);
}

/// 5207 = 41 * 127 is no strong probable prime to the base 2.
pub proof fn lemma_refuted_5207()
    ensures
        !strong_probable_prime(5207, 2),
{
    lemma2_to64();
    lemma_squaring_step(2, 1, 5207, 1);
    lemma_squaring_step(2, 2, 5207, 2);
    lemma_squaring_step(2, 5, 5207, 4);
    lemma_squaring_step(2, 10, 5207, 32);
    lemma_squaring_step(2, 20, 5207, 1024);
    lemma_squaring_step(2, 40, 5207, 1969);
    lemma_squaring_step(2, 81, 5207, 2953);
    lemma_squaring_step(2, 162, 5207, 2175);
    lemma_squaring_step(2, 325, 5207, 2669);
    lemma_squaring_step(2, 650, 5207, 770);
    lemma_squaring_step(2, 1301, 5207, 4509);
    lemma_squaring_step(2, 2603, 5207, 699);
    lemma_avoiding_first(3493, 5207);
    lemma_refuted_from(5207, 2, 2603, 1, 3493);
}

/// 5371 = 41 * 131 is no strong probable prime to the base 2.
pub proof fn lemma_refuted_5371()
    ensures
        !strong_probable_prime(5371, 2),
{
    lemma2_to64();
    lemma_squaring_step(2, 1, 5371, 1);
    lemma_squaring_step(2, 2, 5371, 2);
    lemma_squaring_step(2, 5, 5371, 4);
    lemma_squaring_step(2, 10, 5371, 32);
    lemma_squaring_step(2, 20, 5371, 1024);
    lemma_squaring_step(2, 41, 5371, 1231);
    lemma_squaring_step(2, 83, 5371, 1478);
    lemma_squaring_step(2, 167, 5371, 2345);
    lemma_squaring_step(2, 335, 5371, 3613);
    lemma_squaring_step(2, 671, 5371, 4478);
    lemma_squaring_step(2, 1342, 5371, 5082);
    lemma_squaring_step(2, 2685, 5371, 2956);
    lemma_avoiding_first(4009, 5371);
    lemma_refuted_from(5371, 2, 2685, 1, 4009);
}

/// 5617 = 41 * 137 is no strong probable prime to the base 2.
pub proof fn lemma_refuted_5617()
    ensures
        !strong_probable_prime(5617, 2),
{
    lemma2_to64();
    lemma_squaring_step(2, 1, 5617, 1);
    lemma_squaring_step(2, 2, 5617, 2);
    lemma_squaring_step(2, 5, 5617, 4);
    lemma_squaring_step(2, 10, 5617, 32);
    lemma_squaring_step(2, 21, 5617, 1024);
    lemma_squaring_step(2, 43, 5617, 2011);
    lemma_squaring_step(2, 87, 5617, 5379);
    lemma_squaring_step(2, 175, 5617, 948);
    lemma_squaring_step(2, 351, 5617, 5585);
    lemma_avoiding_first(1896, 5617);
    lemma_avoiding_step(5141, 5617, 2);
    lemma_avoiding_step(4022, 5617, 3);
    lemma_avoiding_step(2048, 5617, 4);
    lemma_refuted_from(5617, 2, 351, 4, 2048);
}

/// 5699 = 41 * 139 is no strong probable prime to the base 2.
pub proof fn lemma_refuted_5699()
    ensures
        !strong_probable_prime(5699, 2),
{
    lemma2_to64();
    lemma_squaring_step(2, 1, 5699, 1);
    lemma_squaring_step(2, 2, 5699, 2);
    lemma_squaring_step(2, 5, 5699, 4);
    lemma_squaring_step(2, 11, 5699, 32);
    lemma_squaring_step(2, 22, 5699, 2048);
    lemma_squaring_step(2, 44, 5699, 5539);
    lemma_squaring_step(2, 89, 5699, 2804);
    lemma_squaring_step(2, 178, 5699, 1291);
    lemma_squaring_step(2, 356, 5699, 2573);
    lemma_squaring_step(2, 712, 5699, 3790);
    lemma_squaring_step(2, 1424, 5699, 2620);
    lemma_squaring_step(2, 2849, 5699, 2804);
    lemma_avoiding_first(1291, 5699);
    lemma_refuted_from(5699, 2, 2849, 1, 1291);
}

/// 6109 = 41 * 149 is no strong probable prime to the base 2.
pub proof fn lemma_refuted_6109()
    ensures
        !strong_probable_prime(6109, 2),
{
    lemma2_to64();
    lemma_squaring_step(2, 1, 6109, 1);
    lemma_squaring_step(2, 2, 6109, 2);
    lemma_squaring_step(2, 5, 6109, 4);
    lemma_squaring_step(2, 11, 6109, 32);
    lemma_squaring_step(2, 23, 6109, 2048);
    lemma_squaring_step(2, 47, 6109, 951);
    lemma_squaring_step(2, 95, 6109, 538);
    lemma_squaring_step(2, 190, 6109, 4642);
    lemma_squaring_step(2, 381, 6109, 1721);
    lemma_squaring_step(2, 763, 6109, 4061);
    lemma_squaring_step(2, 1527, 6109, 951);
    lemma_avoiding_first(2321, 6109);
    lemma_avoiding_step(538, 6109, 2);
    lemma_refuted_from(6109, 2, 1527, 2, 538);
}

/// 6191 = 41 * 151 is no strong probable prime to the base 2.
pub proof fn lemma_refuted_6191()
    ensures
        !strong_probable_prime(6191, 2),
{
    lemma2_to64();
    lemma_squaring_step(2, 1, 6191, 1);
    lemma_squaring_step(2, 3, 6191, 2);
    lemma_squaring_step(2, 6, 6191, 8);
    lemma_squaring_step(2, 12, 6191, 64);
    lemma_squaring_step(2, 24, 6191, 4096);
    lemma_squaring_step(2, 48, 6191, 5797);
    lemma_squaring_step(2, 96, 6191, 461);
    lemma_squaring_step(2, 193, 6191, 2027);
    lemma_squaring_step(2, 386, 6191, 2001);
    lemma_squaring_step(2, 773, 6191, 4615);
    lemma_squaring_step(2, 1547, 6191, 2370);
    lemma_squaring_step(2, 3095, 6191, 3326);
    lemma_avoiding_first(4109, 6191);
    lemma_refuted_from(6191, 2, 3095, 1, 4109);
}

/// 6437 = 41 * 157 is no strong probable prime to the base 2.
pub proof fn lemma_refuted_6437()
    ensures
        !strong_probable_prime(6437, 2),
{
    lemma2_to64();
    lemma_squaring_step(2, 1, 6437, 1);
    lemma_squaring_step(2, 3, 6437, 2);
    lemma_squaring_step(2, 6, 6437, 8);
    lemma_squaring_step(2, 12, 6437, 64);
    lemma_squaring_step(2, 25, 6437, 4096);
    lemma_squaring_step(2, 50, 6437, 4788);
    lemma_squaring_step(2, 100, 6437, 2787);
    lemma_squaring_step(2, 201, 6437, 4347);
    lemma_squaring_step(2, 402, 6437, 1191);
    lemma_squaring_step(2, 804, 6437, 2341);
    lemma_squaring_step(2, 1609, 6437, 2394);
    lemma_avoiding_first(2696, 6437);
    lemma_avoiding_step(4612, 6437, 2);
    lemma_refuted_from(6437, 2, 1609, 2, 4612);
}

/// 6683 = 41 * 163 is no strong probable prime to the base 2.
pub proof fn lemma_refuted_6683()
    ensures
        !strong_probable_prime(6683, 2),
{
    lemma2_to64();
    lemma_squaring_step(2, 1, 6683, 1);
    lemma_squaring_step(2, 3, 6683, 2);
    lemma_squaring_step(2, 6, 6683, 8);
    lemma_squaring_step(2, 13, 6683, 64);
    lemma_squaring_step(2, 26, 6683, 1509);
    lemma_squaring_step(2, 52, 6683, 4861);
    lemma_squaring_step(2, 104, 6683, 4916);
    lemma_squaring_step(2, 208, 6683, 1328);
    lemma_squaring_step(2, 417, 6683, 5955);
    lemma_squaring_step(2, 835, 6683, 4054);
    lemma_squaring_step(2, 1670, 6683, 2838);
    lemma_squaring_step(2, 3341, 6683, 1229);
    lemma_avoiding_first(166, 6683);
    lemma_refuted_from(6683, 2, 3341, 1, 166);
}

/// 6847 = 41 * 167 is no strong probable prime to the base 2.
pub proof fn lemma_refuted_6847()
    ensures
        !strong_probable_prime(6847, 2),
{
    lemma2_to64();
    lemma_squaring_step(2, 1, 6847, 1);
    lemma_squaring_step(2, 3, 6847, 2);
    lemma_squaring_step(2, 6, 6847, 8);
    lemma_squaring_step(2, 13, 6847, 64);
    lemma_squaring_step(2, 26, 6847, 1345);
    lemma_squaring_step(2, 53, 6847, 1417);
    lemma_squaring_step(2, 106, 6847, 3436);
    lemma_squaring_step(2, 213, 6847, 1868);
    lemma_squaring_step(2, 427, 6847, 1755);
    lemma_squaring_step(2, 855, 6847, 4597);
    lemma_squaring_step(2, 1711, 6847, 5134);
    lemma_squaring_step(2, 3423, 6847, 859);
    lemma_avoiding_first(3657, 6847);
    lemma_refuted_from(6847, 2, 3423, 1, 3657);
}

/// 7093 = 41 * 173 is no strong probable prime to the base 2.
pub proof fn lemma_refuted_7093()
    ensures
        !strong_probable_prime(7093, 2),
{
    lemma2_to64();
    lemma_squaring_step(2, 1, 7093, 1);
    lemma_squaring_step(2, 3, 7093, 2);
    lemma_squaring_step(2, 6, 7093, 8);
    lemma_squaring_step(2, 13, 7093, 64);
    lemma_squaring_step(2, 27, 7093, 1099);
    lemma_squaring_step(2, 55, 7093, 3982);
    lemma_squaring_step(2, 110, 7093, 6938);
    lemma_squaring_step(2, 221, 7093, 2746);
    lemma_squaring_step(2, 443, 7093, 1314);
    lemma_squaring_step(2, 886, 7093, 5994);
    lemma_squaring_step(2, 1773, 7093, 1991);
    lemma_avoiding_first(6378, 7093);
    lemma_avoiding_step(5281, 7093, 2);
    lemma_refuted_from(7093, 2, 1773, 2, 5281);
}

/// 7339 = 41 * 179 is no strong probable prime to the base 2.
pub proof fn lemma_refuted_7339()
    ensures
        !strong_probable_prime(7339, 2),
{
    lemma2_to64();
    lemma_squaring_step(2, 1, 7339, 1);
    lemma_squaring_step(2, 3, 7339, 2);
    lemma_squaring_step(2, 7, 7339, 8);
    lemma_squaring_step(2, 14, 7339, 128);
    lemma_squaring_step(2, 28, 7339, 1706);
    lemma_squaring_step(2, 57, 7339, 4192);
    lemma_squaring_step(2, 114, 7339, 6596);
    lemma_squaring_step(2, 229, 7339, 1624);
    lemma_squaring_step(2, 458, 7339, 5350);
    lemma_squaring_step(2, 917, 7339, 400);
    lemma_squaring_step(2, 1834, 7339, 4423);
    lemma_squaring_step(2, 3669, 7339, 4494);
    lemma_avoiding_first(5555, 7339);
    lemma_refuted_from(7339, 2, 3669, 1, 5555);
}

/// 7421 = 41 * 181 is no strong probable prime to the base 2.
pub proof fn lemma_refuted_7421()
    ensures
        !strong_probable_prime(7421, 2),
{
    lemma2_to64();
    lemma_squaring_step(2, 1, 7421, 1);
    lemma_squaring_step(2, 3, 7421, 2);
    lemma_squaring_step(2, 7, 7421, 8);
    lemma_squaring_step(2, 14, 7421, 128);
    lemma_squaring_step(2, 28, 7421, 1542);
    lemma_squaring_step(2, 57, 7421, 3044);
    lemma_squaring_step(2, 115, 7421, 1635);
    lemma_squaring_step(2, 231, 7421, 3330);
    lemma_squaring_step(2, 463, 7421, 3852);
    lemma_squaring_step(2, 927, 7421, 6650);
    lemma_squaring_step(2, 1855, 7421, 1522);
    lemma_avoiding_first(5206, 7421);
    lemma_avoiding_step(2264, 7421, 2);
    lemma_refuted_from(7421, 2, 1855, 2, 2264);
}

/// 7831 = 41 * 191 is no strong probable prime to the base 2.
pub proof fn lemma_refuted_7831()
    ensures
        !strong_probable_prime(7831, 2),
{
    lemma2_to64();
    lemma_squaring_step(2, 1, 7831, 1);
    lemma_squaring_step(2, 3, 7831, 2);
    lemma_squaring_step(2, 7, 7831, 8);
    lemma_squaring_step(2, 15, 7831, 128);
    lemma_squaring_step(2, 30, 7831, 1444);
    lemma_squaring_step(2, 61, 7831, 2090);
    lemma_squaring_step(2, 122, 7831, 4635);
    lemma_squaring_step(2, 244, 7831, 2792);
    lemma_squaring_step(2, 489, 7831, 3419);
    lemma_squaring_step(2, 978, 7831, 3587);
    lemma_squaring_step(2, 1957, 7831, 236);
    lemma_squaring_step(2, 3915, 7831, 1758);
    lemma_avoiding_first(2469, 7831);
    lemma_refuted_from(7831, 2, 3915, 1, 2469);
}

/// 7913 = 41 * 193 is no strong probable prime to the base 2.
pub proof fn lemma_refuted_7913()
    ensures
        !strong_probable_prime(7913, 2),
{
    lemma2_to64();
    lemma_squaring_step(2, 1, 7913, 1);
    lemma_squaring_step(2, 3, 7913, 2);
    lemma_squaring_step(2, 7, 7913, 8);
    lemma_squaring_step(2, 15, 7913, 128);
    lemma_squaring_step(2, 30, 7913, 1116);
    lemma_squaring_step(2, 61, 7913, 3115);
    lemma_squaring_step(2, 123, 7913, 3774);
    lemma_squaring_step(2, 247, 7913, 7265);
    lemma_squaring_step(2, 494, 7913, 1030);
    lemma_squaring_step(2, 989, 7913, 558);
    lemma_avoiding_first(4446, 7913);
    lemma_avoiding_step(2450, 7913, 2);
    lemma_avoiding_step(5514, 7913, 3);
    lemma_refuted_from(7913, 2, 989, 3, 5514);
}

/// 8077 = 41 * 197 is no strong probable prime to the base 2.
pub proof fn lemma_refuted_8077()
    ensures
        !strong_probable_prime(8077, 2),
{
    lemma2_to64();
    lemma_squaring_step(2, 1, 8077, 1);
    lemma_squaring_step(2, 3, 8077, 2);
    lemma_squaring_step(2, 7, 8077, 8);
    lemma_squaring_step(2, 15, 8077, 128);
    lemma_squaring_step(2, 31, 8077, 460);
    lemma_squaring_step(2, 63, 8077, 3196);
    lemma_squaring_step(2, 126, 8077, 2099);
    lemma_squaring_step(2, 252, 8077, 3836);
    lemma_squaring_step(2, 504, 8077, 6679);
    lemma_squaring_step(2, 1009, 8077, 7847);
    lemma_squaring_step(2, 2019, 8077, 799);
    lemma_avoiding_first(646, 8077);
    lemma_avoiding_step(636, 8077, 2);
    lemma_refuted_from(8077, 2, 2019, 2, 636);
}

/// 8159 = 41 * 199 is no strong probable prime to the base 2.
pub proof fn lemma_refuted_8159()
    ensures
        !strong_probable_prime(8159, 2),
{
    lemma2_to64();
    lemma_squaring_step(2, 1, 8159, 1);
    lemma_squaring_step(2, 3, 8159, 2);
    lemma_squaring_step(2, 7, 8159, 8);
    lemma_squaring_step(2, 15, 8159, 128);
    lemma_squaring_step(2, 31, 8159, 132);
    lemma_squaring_step(2, 63, 8159, 2212);
    lemma_squaring_step(2, 127, 8159, 3247);
    lemma_squaring_step(2, 254, 8159, 3162);
    lemma_squaring_step(2, 509, 8159, 3469);
    lemma_squaring_step(2, 1019, 8159, 7031);
    lemma_squaring_step(2, 2039, 8159, 7319);
    lemma_squaring_step(2, 4079, 8159, 7852);
    lemma_avoiding_first(841, 8159);
    lemma_refuted_from(8159, 2, 4079, 1, 841);
}

/// 8651 = 41 * 211 is no strong probable prime to the base 2.
pub proof fn lemma_refuted_8651()
    ensures
        !strong_probable_prime(8651, 2),
{
    lemma2_to64();
    lemma_squaring_step(2, 1, 8651, 1);
    lemma_squaring_step(2, 2, 8651, 2);
    lemma_squaring_step(2, 4, 8651, 4);
    lemma_squaring_step(2, 8, 8651, 16);
    lemma_squaring_step(2, 16, 8651, 256);
    lemma_squaring_step(2, 33, 8651, 4979);
    lemma_squaring_step(2, 67, 8651, 2001);
    lemma_squaring_step(2, 135, 8651, 5827);
    lemma_squaring_step(2, 270, 8651, 6159);
    lemma_squaring_step(2, 540, 8651, 7297);
    lemma_squaring_step(2, 1081, 8651, 7955);
    lemma_squaring_step(2, 2162, 8651, 8571);
    lemma_squaring_step(2, 4325, 8651, 6400);
    lemma_avoiding_first(3681, 8651);
    lemma_refuted_from(8651, 2, 4325, 1, 3681);
}

/// 9143 = 41 * 223 is no strong probable prime to the base 2.
pub proof fn lemma_refuted_9143()
    ensures
        !strong_probable_prime(9143, 2),
{
    lemma2_to64();
    lemma_squaring_step(2, 1, 9143, 1);
    lemma_squaring_step(2, 2, 9143, 2);
    lemma_squaring_step(2, 4, 9143, 4);
    lemma_squaring_step(2, 8, 9143, 16);
    lemma_squaring_step(2, 17, 9143, 256);
    lemma_squaring_step(2, 35, 9143, 3070);
    lemma_squaring_step(2, 71, 9143, 6077);
    lemma_squaring_step(2, 142, 9143, 2704);
    lemma_squaring_step(2, 285, 9143, 6359);
    lemma_squaring_step(2, 571, 9143, 3927);
    lemma_squaring_step(2, 1142, 9143, 3319);
    lemma_squaring_step(2, 2285, 9143, 7589);
    lemma_squaring_step(2, 4571, 9143, 2328);
    lemma_avoiding_first(4713, 9143);
    lemma_refuted_from(9143, 2, 4571, 1, 4713);
}

/// 9307 = 41 * 227 is no strong probable prime to the base 2.
pub proof fn lemma_refuted_9307()
    ensures
        !strong_probable_prime(9307, 2),
{
    lemma2_to64();
    lemma_squaring_step(2, 1, 9307, 1);
    lemma_squaring_step(2, 2, 9307, 2);
    lemma_squaring_step(2, 4, 9307, 4);
    lemma_squaring_step(2, 9, 9307, 16);
    lemma_squaring_step(2, 18, 9307, 512);
    lemma_squaring_step(2, 36, 9307, 1548);
    lemma_squaring_step(2, 72, 9307, 4405);
    lemma_squaring_step(2, 145, 9307, 8237);
    lemma_squaring_step(2, 290, 9307, 278);
    lemma_squaring_step(2, 581, 9307, 2828);
    lemma_squaring_step(2, 1163, 9307, 5742);
    lemma_squaring_step(2, 2326, 9307, 1033);
    lemma_squaring_step(2, 4653, 9307, 6091);
    lemma_avoiding_first(5158, 9307);
    lemma_refuted_from(9307, 2, 4653, 1, 5158);
}

/// 9389 = 41 * 229 is no strong probable prime to the base 2.
pub proof fn lemma_refuted_9389()
    ensures
        !strong_probable_prime(9389, 2),
{
    lemma2_to64();
    lemma_squaring_step(2, 1, 9389, 1);
    lemma_squaring_step(2, 2, 9389, 2);
    lemma_squaring_step(2, 4, 9389, 4);
    lemma_squaring_step(2, 9, 9389, 16);
    lemma_squaring_step(2, 18, 9389, 512);
    lemma_squaring_step(2, 36, 9389, 8641);
    lemma_squaring_step(2, 73, 9389, 5553);
    lemma_squaring_step(2, 146, 9389, 4666);
    lemma_squaring_step(2, 293, 9389, 7854);
    lemma_squaring_step(2, 586, 9389, 8561);
    lemma_squaring_step(2, 1173, 9389, 187);
    lemma_squaring_step(2, 2347, 9389, 4215);
    lemma_avoiding_first(8717, 9389);
    lemma_avoiding_step(4474, 9389, 2);
    lemma_refuted_from(9389, 2, 2347, 2, 4474);
}

/// 9553 = 41 * 233 is no strong probable prime to the base 2.
pub proof fn lemma_refuted_9553()
    ensures
        !strong_probable_prime(9553, 2),
{
    lemma2_to64();
    lemma_squaring_step(2, 1, 9553, 1);
    lemma_squaring_step(2, 2, 9553, 2);
    lemma_squaring_step(2, 4, 9553, 4);
    lemma_squaring_step(2, 9, 9553, 16);
    lemma_squaring_step(2, 18, 9553, 512);
    lemma_squaring_step(2, 37, 9553, 4213);
    lemma_squaring_step(2, 74, 9553, 9343);
    lemma_squaring_step(2, 149, 9553, 5888);
    lemma_squaring_step(2, 298, 9553, 1414);
    lemma_squaring_step(2, 597, 9553, 2819);
    lemma_avoiding_first(8464, 9553);
    lemma_avoiding_step(92, 9553, 2);
    lemma_avoiding_step(2362, 9553, 3);
    lemma_avoiding_step(6883, 9553, 4);
    lemma_refuted_from(9553, 2, 597, 4, 6883);
}

/// 9799 = 41 * 239 is no strong probable prime to the base 2.
pub proof fn lemma_refuted_9799()
    ensures
        !strong_probable_prime(9799, 2),
{
    lemma2_to64();
    lemma_squaring_step(2, 1, 9799, 1);
    lemma_squaring_step(2, 2, 9799, 2);
    lemma_squaring_step(2, 4, 9799, 4);
    lemma_squaring_step(2, 9, 9799, 16);
    lemma_squaring_step(2, 19, 9799, 512);
    lemma_squaring_step(2, 38, 9799, 4941);
    lemma_squaring_step(2, 76, 9799, 4172);
    lemma_squaring_step(2, 153, 9799, 2560);
    lemma_squaring_step(2, 306, 9799, 5937);
    lemma_squaring_step(2, 612, 9799, 966);
    lemma_squaring_step(2, 1224, 9799, 2251);
    lemma_squaring_step(2, 2449, 9799, 918);
    lemma_squaring_step(2, 4899, 9799, 20);
    lemma_avoiding_first(800, 9799);
    lemma_refuted_from(9799, 2, 4899, 1, 800);
}

/// 9881 = 41 * 241 is no strong probable prime to the base 2.
pub proof fn lemma_refuted_9881()
    ensures
        !strong_probable_prime(9881, 2),
{
    lemma2_to64();
    lemma_squaring_step(2, 1, 9881, 1);
    lemma_squaring_step(2, 2, 9881, 2);
    lemma_squaring_step(2, 4, 9881, 4);
    lemma_squaring_step(2, 9, 9881, 16);
    lemma_squaring_step(2, 19, 9881, 512);
    lemma_squaring_step(2, 38, 9881, 595);
    lemma_squaring_step(2, 77, 9881, 8190);
    lemma_squaring_step(2, 154, 9881, 7744);
    lemma_squaring_step(2, 308, 9881, 1747);
    lemma_squaring_step(2, 617, 9881, 8661);
    lemma_squaring_step(2, 1235, 9881, 2619);
    lemma_avoiding_first(1190, 9881);
    lemma_avoiding_step(5001, 9881, 2);
    lemma_avoiding_step(3494, 9881, 3);
    lemma_refuted_from(9881, 2, 1235, 3, 3494);
}

/// No product of 41 and a prime from 41 on, up to 10000, is a strong
/// probable prime to both of the bases 2 and 3.
pub proof fn lemma_products_of_41(q: nat)
    requires
        prime_from_37_to_270(q),
        q >= 41,
        41 * q <= 10000,
    ensures
        !strong_probable_prime(41 * q, 2) || !strong_probable_prime(41 * q, 3),
{
    if q == 41 {
        lemma_refuted_1681();
    } else if q == 43 {
        lemma_refuted_1763();
    } else if q == 47 {
        lemma_refuted_1927();
    } else if q == 53 {
        lemma_refuted_2173();
    } else if q == 59 {
        lemma_refuted_2419();
    } else if q == 61 {
        lemma_refuted_2501();
    } else if q == 67 {
        lemma_refuted_2747();
    } else if q == 71 {
        lemma_refuted_2911();
    } else if q == 73 {
        lemma_refuted_2993();
    } else if q == 79 {
        lemma_refuted_3239();
    } else if q == 83 {
        lemma_refuted_3403();
    } else if q == 89 {
        lemma_refuted_3649();
    } else if q == 97 {
        lemma_refuted_3977();
    } else if q == 101 {
        lemma_refuted_4141();
    } else if q == 103 {
        lemma_refuted_4223();
    } else if q == 107 {
        lemma_refuted_4387();
    } else if q == 109 {
        lemma_refuted_4469();
    } else if q == 113 {
        lemma_refuted_4633();
    } else if q == 127 {
        lemma_refuted_5207();
    } else if q == 131 {
        lemma_refuted_5371();
    } else if q == 137 {
        lemma_refuted_5617();
    } else if q == 139 {
        lemma_refuted_5699();
    } else if q == 149 {
        lemma_refuted_6109();
    } else if q == 151 {
        lemma_refuted_6191();
    } else if q == 157 {
        lemma_refuted_6437();
    } else if q == 163 {
        lemma_refuted_6683();
    } else if q == 167 {
        lemma_refuted_6847();
    } else if q == 173 {
        lemma_refuted_7093();
    } else if q == 179 {
        lemma_refuted_7339();
    } else if q == 181 {
        lemma_refuted_7421();
    } else if q == 191 {
        lemma_refuted_7831();
    } else if q == 193 {
        lemma_refuted_7913();
    } else if q == 197 {
        lemma_refuted_8077();
    } else if q == 199 {
        lemma_refuted_8159();
    } else if q == 211 {
        lemma_refuted_8651();
    } else if q == 223 {
        lemma_refuted_9143();
    } else if q == 227 {
        lemma_refuted_9307();
    } else if q == 229 {
        lemma_refuted_9389();
    } else if q == 233 {
        lemma_refuted_9553();
    } else if q == 239 {
        lemma_refuted_9799();
    } else if q == 241 {
        lemma_refuted_9881();
    }
}

} // verus!
