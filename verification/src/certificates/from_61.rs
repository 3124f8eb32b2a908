//! The products of 61 and a prime from 61 on, up to 10000.

use vstd::arithmetic::power2::lemma2_to64;
use vstd::prelude::*;

use crate::certificates::{
    lemma_avoiding_first, lemma_avoiding_step, lemma_refuted_from, lemma_squaring_step,
    prime_from_37_to_270,
};
use crate::primality::strong_probable_prime;

verus! {

/// 3721 = 61 * 61 is no strong probable prime to the base 2.
pub proof fn lemma_refuted_3721()
    ensures
        !strong_probable_prime(3721, 2),
{
    lemma2_to64();
    lemma_squaring_step(2, 1, 3721, 1);
    lemma_squaring_step(2, 3, 3721, 2);
    lemma_squaring_step(2, 7, 3721, 8);
    lemma_squaring_step(2, 14, 3721, 128);
    lemma_squaring_step(2, 29, 3721, 1500);
    lemma_squaring_step(2, 58, 3721, 1311);
    lemma_squaring_step(2, 116, 3721, 3340);
    lemma_squaring_step(2, 232, 3721, 42);
    lemma_squaring_step(2, 465, 3721, 1764);
    lemma_avoiding_first(1099, 3721);
    lemma_avoiding_step(3171, 3721, 2);
    lemma_avoiding_step(1880, 3721, 3);
    lemma_refuted_from(3721, 2, 465, 3, 1880);
}

/// 4087 = 61 * 67 is no strong probable prime to the base 2.
pub proof fn lemma_refuted_4087()
    ensures
        !strong_probable_prime(4087, 2),
{
    lemma2_to64();
    lemma_squaring_step(2, 1, 4087, 1);
    lemma_squaring_step(2, 3, 4087, 2);
    lemma_squaring_step(2, 7, 4087, 8);
    lemma_squaring_step(2, 15, 4087, 128);
    lemma_squaring_step(2, 31, 4087, 72);
    lemma_squaring_step(2, 63, 4087, 2194);
    lemma_squaring_step(2, 127, 4087, 2387);
    lemma_squaring_step(2, 255, 4087, 982);
    lemma_squaring_step(2, 510, 4087, 3671);
    lemma_squaring_step(2, 1021, 4087, 1402);
    lemma_squaring_step(2, 2043, 4087, 3601);
    lemma_avoiding_first(2387, 4087);
    lemma_refuted_from(4087, 2, 2043, 1, 2387);
}

/// 4331 = 61 * 71 is no strong probable prime to the base 2.
pub proof fn lemma_refuted_4331()
    ensures
        !strong_probable_prime(4331, 2),
{
    lemma2_to64();
    lemma_squaring_step(2, 1, 4331, 1);
    lemma_squaring_step(2, 2, 4331, 2);
    lemma_squaring_step(2, 4, 4331, 4);
    lemma_squaring_step(2, 8, 4331, 16);
    lemma_squaring_step(2, 16, 4331, 256);
    lemma_squaring_step(2, 33, 4331, 571);
    lemma_squaring_step(2, 67, 4331, 2432);
    lemma_squaring_step(2, 135, 4331, 1287);
    lemma_squaring_step(2, 270, 4331, 3854);
    lemma_squaring_step(2, 541, 4331, 2317);
    lemma_squaring_step(2, 1082, 4331, 429);
    lemma_squaring_step(2, 2165, 4331, 2139);
    lemma_avoiding_first(3570, 4331);
    lemma_refuted_from(4331, 2, 2165, 1, 3570);
}

/// 4453 = 61 * 73 is no strong probable prime to the base 2.
pub proof fn lemma_refuted_4453()
    ensures
        !strong_probable_prime(4453, 2),
{
    lemma2_to64();
    lemma_squaring_step(2, 1, 4453, 1);
    lemma_squaring_step(2, 2, 4453, 2);
    lemma_squaring_step(2, 4, 4453, 4);
    lemma_squaring_step(2, 8, 4453, 16);
    lemma_squaring_step(2, 17, 4453, 256);
    lemma_squaring_step(2, 34, 4453, 1935);
    lemma_squaring_step(2, 69, 4453, 3705);
    lemma_squaring_step(2, 139, 4453, 1305);
    lemma_squaring_step(2, 278, 4453, 3958);
    lemma_squaring_step(2, 556, 4453, 110);
    lemma_squaring_step(2, 1113, 4453, 3194);
    lemma_avoiding_first(1833, 4453);
    lemma_avoiding_step(4079, 4453, 2);
    lemma_refuted_from(4453, 2, 1113, 2, 4079);
}

/// 4819 = 61 * 79 is no strong probable prime to the base 2.
pub proof fn lemma_refuted_4819()
    ensures
        !strong_probable_prime(4819, 2),
{
    lemma2_to64();
    lemma_squaring_step(2, 1, 4819, 1);
    lemma_squaring_step(2, 2, 4819, 2);
    lemma_squaring_step(2, 4, 4819, 4);
    lemma_squaring_step(2, 9, 4819, 16);
    lemma_squaring_step(2, 18, 4819, 512);
    lemma_squaring_step(2, 37, 4819, 1918);
    lemma_squaring_step(2, 75, 4819, 3654);
    lemma_squaring_step(2, 150, 4819, 1353);
    lemma_squaring_step(2, 301, 4819, 4208);
    lemma_squaring_step(2, 602, 4819, 4516);
    lemma_squaring_step(2, 1204, 4819, 248);
    lemma_squaring_step(2, 2409, 4819, 3676);
    lemma_avoiding_first(1000, 4819);
    lemma_refuted_from(4819, 2, 2409, 1, 1000);
}

/// 5063 = 61 * 83 is no strong probable prime to the base 2.
pub proof fn lemma_refuted_5063()
    ensures
        !strong_probable_prime(5063, 2),
{
    lemma2_to64();
    lemma_squaring_step(2, 1, 5063, 1);
    lemma_squaring_step(2, 2, 5063, 2);
    lemma_squaring_step(2, 4, 5063, 4);
    lemma_squaring_step(2, 9, 5063, 16);
    lemma_squaring_step(2, 19, 5063, 512);
    lemma_squaring_step(2, 39, 5063, 2799);
    lemma_squaring_step(2, 79, 5063, 3880);
    lemma_squaring_step(2, 158, 5063, 4202);
    lemma_squaring_step(2, 316, 5063, 2123);
    lemma_squaring_step(2, 632, 5063, 1059);
    lemma_squaring_step(2, 1265, 5063, 2558);
    lemma_squaring_step(2, 2531, 5063, 3936);
    lemma_avoiding_first(3695, 5063);
    lemma_refuted_from(5063, 2, 2531, 1, 3695);
}

/// 5429 = 61 * 89 is no strong probable prime to the base 2.
pub proof fn lemma_refuted_5429()
    ensures
        !strong_probable_prime(5429, 2),
{
    lemma2_to64();
    lemma_squaring_step(2, 1, 5429, 1);
    lemma_squaring_step(2, 2, 5429, 2);
    lemma_squaring_step(2, 5, 5429, 4);
    lemma_squaring_step(2, 10, 5429, 32);
    lemma_squaring_step(2, 21, 5429, 1024);
    lemma_squaring_step(2, 42, 5429, 1558);
    lemma_squaring_step(2, 84, 5429, 601);
    lemma_squaring_step(2, 169, 5429, 2887);
    lemma_squaring_step(2, 339, 5429, 2508);
    lemma_squaring_step(2, 678, 5429, 1135);
    lemma_squaring_step(2, 1357, 5429, 1552);
    lemma_avoiding_first(2659, 5429);
    lemma_avoiding_step(1885, 5429, 2);
    lemma_refuted_from(5429, 2, 1357, 2, 1885);
}

/// 5917 = 61 * 97 is no strong probable prime to the base 2.
pub proof fn lemma_refuted_5917()
    ensures
        !strong_probable_prime(5917, 2),
{
    lemma2_to64();
    lemma_squaring_step(2, 1, 5917, 1);
    lemma_squaring_step(2, 2, 5917, 2);
    lemma_squaring_step(2, 5, 5917, 4);
    lemma_squaring_step(2, 11, 5917, 32);
    lemma_squaring_step(2, 23, 5917, 2048);
    lemma_squaring_step(2, 46, 5917, 4219);
    lemma_squaring_step(2, 92, 5917, 1625);
    lemma_squaring_step(2, 184, 5917, 1643);
    lemma_squaring_step(2, 369, 5917, 1297);
    lemma_squaring_step(2, 739, 5917, 3562);
    lemma_squaring_step(2, 1479, 5917, 3592);
    lemma_avoiding_first(1003, 5917);
    lemma_avoiding_step(891, 5917, 2);
    lemma_refuted_from(5917, 2, 1479, 2, 891);
}

/// 6161 = 61 * 101 is no strong probable prime to the base 2.
pub proof fn lemma_refuted_6161()
    ensures
        !strong_probable_prime(6161, 2),
{
    lemma2_to64();
    lemma_squaring_step(2, 1, 6161, 1);
    lemma_squaring_step(2, 3, 6161, 2);
    lemma_squaring_step(2, 6, 6161, 8);
    lemma_squaring_step(2, 12, 6161, 64);
    lemma_squaring_step(2, 24, 6161, 4096);
    lemma_squaring_step(2, 48, 6161, 813);
    lemma_squaring_step(2, 96, 6161, 1742);
    lemma_squaring_step(2, 192, 6161, 3352);
    lemma_squaring_step(2, 385, 6161, 4401);
    lemma_avoiding_first(2609, 6161);
    lemma_avoiding_step(440, 6161, 2);
    lemma_avoiding_step(4955, 6161, 3);
    lemma_avoiding_step(3395, 6161, 4);
    lemma_refuted_from(6161, 2, 385, 4, 3395);
}

/// 6283 = 61 * 103 is no strong probable prime to the base 2.
pub proof fn lemma_refuted_6283()
    ensures
        !strong_probable_prime(6283, 2),
{
    lemma2_to64();
    lemma_squaring_step(2, 1, 6283, 1);
    lemma_squaring_step(2, 3, 6283, 2);
    lemma_squaring_step(2, 6, 6283, 8);
    lemma_squaring_step(2, 12, 6283, 64);
    lemma_squaring_step(2, 24, 6283, 4096);
    lemma_squaring_step(2, 49, 6283, 1606);
    lemma_squaring_step(2, 98, 6283, 129);
    lemma_squaring_step(2, 196, 6283, 4075);
    lemma_squaring_step(2, 392, 6283, 5939);
    lemma_squaring_step(2, 785, 6283, 5242);
    lemma_squaring_step(2, 1570, 6283, 6010);
    lemma_squaring_step(2, 3141, 6283, 5416);
    lemma_avoiding_first(1741, 6283);
    lemma_refuted_from(6283, 2, 3141, 1, 1741);
}

/// 6527 = 61 * 107 is no strong probable prime to the base 2.
pub proof fn lemma_refuted_6527()
    ensures
        !strong_probable_prime(6527, 2),
{
    lemma2_to64();
    lemma_squaring_step(2, 1, 6527, 1);
    lemma_squaring_step(2, 3, 6527, 2);
    lemma_squaring_step(2, 6, 6527, 8);
    lemma_squaring_step(2, 12, 6527, 64);
    lemma_squaring_step(2, 25, 6527, 4096);
    lemma_squaring_step(2, 50, 6527, 5652);
    lemma_squaring_step(2, 101, 6527, 1966);
    lemma_squaring_step(2, 203, 6527, 2344);
    lemma_squaring_step(2, 407, 6527, 3731);
    lemma_squaring_step(2, 815, 6527, 3067);
    lemma_squaring_step(2, 1631, 6527, 2164);
    lemma_squaring_step(2, 3263, 6527, 6074);
    lemma_avoiding_first(5744, 6527);
    lemma_refuted_from(6527, 2, 3263, 1, 5744);
}

/// 6649 = 61 * 109 is no strong probable prime to the base 2.
pub proof fn lemma_refuted_6649()
    ensures
        !strong_probable_prime(6649, 2),
{
    lemma2_to64();
    lemma_squaring_step(2, 1, 6649, 1);
    lemma_squaring_step(2, 3, 6649, 2);
    lemma_squaring_step(2, 6, 6649, 8);
    lemma_squaring_step(2, 12, 6649, 64);
    lemma_squaring_step(2, 25, 6649, 4096);
    lemma_squaring_step(2, 51, 6649, 3578);
    lemma_squaring_step(2, 103, 6649, 5518);
    lemma_squaring_step(2, 207, 6649, 5106);
    lemma_squaring_step(2, 415, 6649, 1014);
    lemma_squaring_step(2, 831, 6649, 1851);
    lemma_avoiding_first(935, 6649);
    lemma_avoiding_step(1699, 6649, 2);
    lemma_avoiding_step(3932, 6649, 3);
    lemma_refuted_from(6649, 2, 831, 3, 3932);
}

/// 6893 = 61 * 113 is no strong probable prime to the base 2.
pub proof fn lemma_refuted_6893()
    ensures
        !strong_probable_prime(6893, 2),
{
    lemma2_to64();
    lemma_squaring_step(2, 1, 6893, 1);
    lemma_squaring_step(2, 3, 6893, 2);
    lemma_squaring_step(2, 6, 6893, 8);
    lemma_squaring_step(2, 13, 6893, 64);
    lemma_squaring_step(2, 26, 6893, 1299);
    lemma_squaring_step(2, 53, 6893, 5509);
    lemma_squaring_step(2, 107, 6893, 5297);
    lemma_squaring_step(2, 215, 6893, 505);
    lemma_squaring_step(2, 430, 6893, 6861);
    lemma_squaring_step(2, 861, 6893, 1024);
    lemma_squaring_step(2, 1723, 6893, 1680);
    lemma_avoiding_first(4411, 6893);
    lemma_avoiding_step(6326, 6893, 2);
    lemma_refuted_from(6893, 2, 1723, 2, 6326);
}

/// 7747 = 61 * 127 is no strong probable prime to the base 2.
pub proof fn lemma_refuted_7747()
    ensures
        !strong_probable_prime(7747, 2),
{
    lemma2_to64();
    lemma_squaring_step(2, 1, 7747, 1);
    lemma_squaring_step(2, 3, 7747, 2);
    lemma_squaring_step(2, 7, 7747, 8);
    lemma_squaring_step(2, 15, 7747, 128);
    lemma_squaring_step(2, 30, 7747, 1780);
    lemma_squaring_step(2, 60, 7747, 7624);
    lemma_squaring_step(2, 121, 7747, 7382);
    lemma_squaring_step(2, 242, 7747, 3052);
    lemma_squaring_step(2, 484, 7747, 2810);
    lemma_squaring_step(2, 968, 7747, 1907);
    lemma_squaring_step(2, 1936, 7747, 3306);
    lemma_squaring_step(2, 3873, 7747, 6366);
    lemma_avoiding_first(2798, 7747);
    lemma_refuted_from(7747, 2, 3873, 1, 2798);
}

/// 7991 = 61 * 131 is no strong probable prime to the base 2.
pub proof fn lemma_refuted_7991()
    ensures
        !strong_probable_prime(7991, 2),
{
    lemma2_to64();
    lemma_squaring_step(2, 1, 7991, 1);
    lemma_squaring_step(2, 3, 7991, 2);
    lemma_squaring_step(2, 7, 7991, 8);
    lemma_squaring_step(2, 15, 7991, 128);
    lemma_squaring_step(2, 31, 7991, 804);
    lemma_squaring_step(2, 62, 7991, 6281);
    lemma_squaring_step(2, 124, 7991, 7385);
    lemma_squaring_step(2, 249, 7991, 7641);
    lemma_squaring_step(2, 499, 7991, 5270);
    lemma_squaring_step(2, 998, 7991, 359);
    lemma_squaring_step(2, 1997, 7991, 1025);
    lemma_squaring_step(2, 3995, 7991, 7608);
    lemma_avoiding_first(5702, 7991);
    lemma_refuted_from(7991, 2, 3995, 1, 5702);
}

/// 8357 = 61 * 137 is no strong probable prime to the base 2.
pub proof fn lemma_refuted_8357()
    ensures
        !strong_probable_prime(8357, 2),
{
    lemma2_to64();
    lemma_squaring_step(2, 1, 8357, 1);
    lemma_squaring_step(2, 2, 8357, 2);
    lemma_squaring_step(2, 4, 8357, 4);
    lemma_squaring_step(2, 8, 8357, 16);
    lemma_squaring_step(2, 16, 8357, 256);
    lemma_squaring_step(2, 32, 8357, 7037);
    lemma_squaring_step(2, 65, 8357, 4144);
    lemma_squaring_step(2, 130, 8357, 6559);
    lemma_squaring_step(2, 261, 8357, 7002);
    lemma_squaring_step(2, 522, 8357, 3327);
    lemma_squaring_step(2, 1044, 8357, 4261);
    lemma_squaring_step(2, 2089, 8357, 4717);
    lemma_avoiding_first(7064, 8357);
    lemma_avoiding_step(7510, 8357, 2);
    lemma_refuted_from(8357, 2, 2089, 2, 7510);
}

/// 8479 = 61 * 139 is no strong probable prime to the base 2.
pub proof fn lemma_refuted_8479()
    ensures
        !strong_probable_prime(8479, 2),
{
    lemma2_to64();
    lemma_squaring_step(2, 1, 8479, 1);
    lemma_squaring_step(2, 2, 8479, 2);
    lemma_squaring_step(2, 4, 8479, 4);
    lemma_squaring_step(2, 8, 8479, 16);
    lemma_squaring_step(2, 16, 8479, 256);
    lemma_squaring_step(2, 33, 8479, 6183);
    lemma_squaring_step(2, 66, 8479, 3835);
    lemma_squaring_step(2, 132, 8479, 4639);
    lemma_squaring_step(2, 264, 8479, 619);
    lemma_squaring_step(2, 529, 8479, 1606);
    lemma_squaring_step(2, 1059, 8479, 3240);
    lemma_squaring_step(2, 2119, 8479, 1196);
    lemma_squaring_step(2, 4239, 8479, 3409);
    lemma_avoiding_first(1623, 8479);
    lemma_refuted_from(8479, 2, 4239, 1, 1623);
}

/// 9089 = 61 * 149 is no strong probable prime to the base 2.
pub proof fn lemma_refuted_9089()
    ensures
        !strong_probable_prime(9089, 2),
{
    lemma2_to64();
    lemma_squaring_step(2, 1, 9089, 1);
    lemma_squaring_step(2, 2, 9089, 2);
    lemma_squaring_step(2, 4, 9089, 4);
    lemma_squaring_step(2, 8, 9089, 16);
    lemma_squaring_step(2, 17, 9089, 256);
    lemma_squaring_step(2, 35, 9089, 3826);
    lemma_squaring_step(2, 71, 9089, 883);
    lemma_avoiding_first(452, 9089);
    lemma_avoiding_step(6339, 9089, 2);
    lemma_avoiding_step(4312, 9089, 3);
    lemma_avoiding_step(2699, 9089, 4);
    lemma_avoiding_step(4966, 9089, 5);
    lemma_avoiding_step(2689, 9089, 6);
    lemma_avoiding_step(5159, 9089, 7);
    lemma_refuted_from(9089, 2, 71, 7, 5159);
}

/// 9211 = 61 * 151 is no strong probable prime to the base 2.
pub proof fn lemma_refuted_9211()
    ensures
        !strong_probable_prime(9211, 2),
{
    lemma2_to64();
    lemma_squaring_step(2, 1, 9211, 1);
    lemma_squaring_step(2, 2, 9211, 2);
    lemma_squaring_step(2, 4, 9211, 4);
    lemma_squaring_step(2, 8, 9211, 16);
    lemma_squaring_step(2, 17, 9211, 256);
    lemma_squaring_step(2, 35, 9211, 2118);
    lemma_squaring_step(2, 71, 9211, 334);
    lemma_squaring_step(2, 143, 9211, 2048);
    lemma_squaring_step(2, 287, 9211, 6598);
    lemma_squaring_step(2, 575, 9211, 4836);
    lemma_squaring_step(2, 1151, 9211, 334);
    lemma_squaring_step(2, 2302, 9211, 2048);
    lemma_squaring_step(2, 4605, 9211, 3299);
    lemma_avoiding_first(1209, 9211);
    lemma_refuted_from(9211, 2, 4605, 1, 1209);
}

/// 9577 = 61 * 157 is no strong probable prime to the base 2.
pub proof fn lemma_refuted_9577()
    ensures
        !strong_probable_prime(9577, 2),
{
    lemma2_to64();
    lemma_squaring_step(2, 1, 9577, 1);
    lemma_squaring_step(2, 2, 9577, 2);
    lemma_squaring_step(2, 4, 9577, 4);
    lemma_squaring_step(2, 9, 9577, 16);
    lemma_squaring_step(2, 18, 9577, 512);
    lemma_squaring_step(2, 37, 9577, 3565);
    lemma_squaring_step(2, 74, 9577, 1092);
    lemma_squaring_step(2, 149, 9577, 4916);
    lemma_squaring_step(2, 299, 9577, 8570);
    lemma_squaring_step(2, 598, 9577, 7351);
    lemma_squaring_step(2, 1197, 9577, 3767);
    lemma_avoiding_first(644, 9577);
    lemma_avoiding_step(2359, 9577, 2);
    lemma_avoiding_step(3927, 9577, 3);
    lemma_refuted_from(9577, 2, 1197, 3, 3927);
}

/// 9943 = 61 * 163 is no strong probable prime to the base 2.
pub proof fn lemma_refuted_9943()
    ensures
        !strong_probable_prime(9943, 2),
{
    lemma2_to64();
    lemma_squaring_step(2, 1, 9943, 1);
    lemma_squaring_step(2, 2, 9943, 2);
    lemma_squaring_step(2, 4, 9943, 4);
    lemma_squaring_step(2, 9, 9943, 16);
    lemma_squaring_step(2, 19, 9943, 512);
    lemma_squaring_step(2, 38, 9943, 7252);
    lemma_squaring_step(2, 77, 9943, 2977);
    lemma_squaring_step(2, 155, 9943, 6632);
    lemma_squaring_step(2, 310, 9943, 1127);
    lemma_squaring_step(2, 621, 9943, 7368);
    lemma_squaring_step(2, 1242, 9943, 7231);
    lemma_squaring_step(2, 2485, 9943, 7067);
    lemma_squaring_step(2, 4971, 9943, 7543);
    lemma_avoiding_first(6006, 9943);
    lemma_refuted_from(9943, 2, 4971, 1, 6006);
}

/// No product of 61 and a prime from 61 on, up to 10000, is a strong
/// probable prime to both of the bases 2 and 3.
pub proof fn lemma_products_of_61(q: nat)
    requires
        prime_from_37_to_270(q),
        q >= 61,
        61 * q <= 10000,
    ensures
        !strong_probable_prime(61 * q, 2) || !strong_probable_prime(61 * q, 3),
{
    if q == 61 {
        lemma_refuted_3721();
    } else if q == 67 {
        lemma_refuted_4087();
    } else if q == 71 {
        lemma_refuted_4331();
    } else if q == 73 {
        lemma_refuted_4453();
    } else if q == 79 {
        lemma_refuted_4819();
    } else if q == 83 {
        lemma_refuted_5063();
    } else if q == 89 {
        lemma_refuted_5429();
    } else if q == 97 {
        lemma_refuted_5917();
    } else if q == 101 {
        lemma_refuted_6161();
    } else if q == 103 {
        lemma_refuted_6283();
    } else if q == 107 {
        lemma_refuted_6527();
    } else if q == 109 {
        lemma_refuted_6649();
    } else if q == 113 {
        lemma_refuted_6893();
    } else if q == 127 {
        lemma_refuted_7747();
    } else if q == 131 {
        lemma_refuted_7991();
    } else if q == 137 {
        lemma_refuted_8357();
    } else if q == 139 {
        lemma_refuted_8479();
    } else if q == 149 {
        lemma_refuted_9089();
    } else if q == 151 {
        lemma_refuted_9211();
    } else if q == 157 {
        lemma_refuted_9577();
    } else if q == 163 {
        lemma_refuted_9943();
    }
}

} // verus!
