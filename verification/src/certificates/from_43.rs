//! The products of 43 and a prime from 43 on, up to 10000.

use vstd::arithmetic::power2::lemma2_to64;
use vstd::prelude::*;

use crate::certificates::{
    lemma_avoiding_first, lemma_avoiding_step, lemma_refuted_from, lemma_squaring_step,
    prime_from_37_to_270,
};
use crate::primality::strong_probable_prime;

verus! {

/// 1849 = 43 * 43 is no strong probable prime to the base 2.
pub proof fn lemma_refuted_1849()
    ensures
        !strong_probable_prime(1849, 2),
{
    lemma2_to64();
    lemma_squaring_step(2, 1, 1849, 1);
    lemma_squaring_step(2, 3, 1849, 2);
    lemma_squaring_step(2, 7, 1849, 8);
    lemma_squaring_step(2, 14, 1849, 128);
    lemma_squaring_step(2, 28, 1849, 1592);
    lemma_squaring_step(2, 57, 1849, 1334);
    lemma_squaring_step(2, 115, 1849, 1636);
    lemma_squaring_step(2, 231, 1849, 137);
    lemma_avoiding_first(1463, 1849);
    lemma_avoiding_step(732, 1849, 2);
    lemma_avoiding_step(558, 1849, 3);
    lemma_refuted_from(1849, 2, 231, 3, 558);
}

/// 2021 = 43 * 47 is no strong probable prime to the base 2.
pub proof fn lemma_refuted_2021()
    ensures
        !strong_probable_prime(2021, 2),
{
    lemma2_to64();
    lemma_squaring_step(2, 1, 2021, 1);
    lemma_squaring_step(2, 3, 2021, 2);
    lemma_squaring_step(2, 7, 2021, 8);
    lemma_squaring_step(2, 15, 2021, 128);
    lemma_squaring_step(2, 31, 2021, 432);
    lemma_squaring_step(2, 63, 2021, 1384);
    lemma_squaring_step(2, 126, 2021, 1117);
    lemma_squaring_step(2, 252, 2021, 732);
    lemma_squaring_step(2, 505, 2021, 259);
    lemma_avoiding_first(1939, 2021);
    lemma_avoiding_step(776, 2021, 2);
    lemma_refuted_from(2021, 2, 505, 2, 776);
}

/// 2279 = 43 * 53 is no strong probable prime to the base 2.
pub proof fn lemma_refuted_2279()
    ensures
        !strong_probable_prime(2279, 2),
{
    lemma2_to64();
    lemma_squaring_step(2, 1, 2279, 1);
    lemma_squaring_step(2, 2, 2279, 2);
    lemma_squaring_step(2, 4, 2279, 4);
    lemma_squaring_step(2, 8, 2279, 16);
    lemma_squaring_step(2, 17, 2279, 256);
    lemma_squaring_step(2, 35, 2279, 1169);
    lemma_squaring_step(2, 71, 2279, 601);
    lemma_squaring_step(2, 142, 2279, 2238);
    lemma_squaring_step(2, 284, 2279, 1681);
    lemma_squaring_step(2, 569, 2279, 2080);
    lemma_squaring_step(2, 1139, 2279, 1716);
    lemma_avoiding_first(376, 2279);
    lemma_refuted_from(2279, 2, 1139, 1, 376);
}

/// 2537 = 43 * 59 is no strong probable prime to the base 2.
pub proof fn lemma_refuted_2537()
    ensures
        !strong_probable_prime(2537, 2),
{
    lemma2_to64();
    lemma_squaring_step(2, 1, 2537, 1);
    lemma_squaring_step(2, 2, 2537, 2);
    lemma_squaring_step(2, 4, 2537, 4);
    lemma_squaring_step(2, 9, 2537, 16);
    lemma_squaring_step(2, 19, 2537, 512);
    lemma_squaring_step(2, 39, 2537, 1666);
    lemma_squaring_step(2, 79, 2537, 156);
    lemma_squaring_step(2, 158, 2537, 469);
    lemma_squaring_step(2, 317, 2537, 1779);
    lemma_avoiding_first(2363, 2537);
    lemma_avoiding_step(2467, 2537, 2);
    lemma_avoiding_step(2404, 2537, 3);
    lemma_refuted_from(2537, 2, 317, 3, 2404);
}

/// 2623 = 43 * 61 is no strong probable prime to the base 2.
pub proof fn lemma_refuted_2623()
    ensures
        !strong_probable_prime(2623, 2),
{
    lemma2_to64();
    lemma_squaring_step(2, 1, 2623, 1);
    lemma_squaring_step(2, 2, 2623, 2);
    lemma_squaring_step(2, 5, 2623, 4);
    lemma_squaring_step(2, 10, 2623, 32);
    lemma_squaring_step(2, 20, 2623, 1024);
    lemma_squaring_step(2, 40, 2623, 1999);
    lemma_squaring_step(2, 81, 2623, 1172);
    lemma_squaring_step(2, 163, 2623, 887);
    lemma_squaring_step(2, 327, 2623, 2361);
    lemma_squaring_step(2, 655, 2623, 892);
    lemma_squaring_step(2, 1311, 2623, 1790);
    lemma_avoiding_first(211, 2623);
    lemma_refuted_from(2623, 2, 1311, 1, 211);
}

/// 2881 = 43 * 67 is no strong probable prime to the base 2.
pub proof fn lemma_refuted_2881()
    ensures
        !strong_probable_prime(2881, 2),
{
    lemma2_to64();
    lemma_squaring_step(2, 1, 2881, 1);
    lemma_squaring_step(2, 2, 2881, 2);
    lemma_squaring_step(2, 5, 2881, 4);
    lemma_squaring_step(2, 11, 2881, 32);
    lemma_squaring_step(2, 22, 2881, 2048);
    lemma_squaring_step(2, 45, 2881, 2449);
    lemma_avoiding_first(484, 2881);
    lemma_avoiding_step(2300, 2881, 2);
    lemma_avoiding_step(293, 2881, 3);
    lemma_avoiding_step(1000, 2881, 4);
    lemma_avoiding_step(1354, 2881, 5);
    lemma_avoiding_step(1599, 2881, 6);
    lemma_refuted_from(2881, 2, 45, 6, 1599);
}

/// 3053 = 43 * 71 is no strong probable prime to the base 2.
pub proof fn lemma_refuted_3053()
    ensures
        !strong_probable_prime(3053, 2),
{
    lemma2_to64();
    lemma_squaring_step(2, 1, 3053, 1);
    lemma_squaring_step(2, 2, 3053, 2);
    lemma_squaring_step(2, 5, 3053, 4);
    lemma_squaring_step(2, 11, 3053, 32);
    lemma_squaring_step(2, 23, 3053, 2048);
    lemma_squaring_step(2, 47, 3053, 2017);
    lemma_squaring_step(2, 95, 3053, 333);
    lemma_squaring_step(2, 190, 3053, 1962);
    lemma_squaring_step(2, 381, 3053, 2664);
    lemma_squaring_step(2, 763, 3053, 395);
    lemma_avoiding_first(2581, 3053);
    lemma_avoiding_step(644, 3053, 2);
    lemma_refuted_from(3053, 2, 763, 2, 644);
}

/// 3139 = 43 * 73 is no strong probable prime to the base 2.
pub proof fn lemma_refuted_3139()
    ensures
        !strong_probable_prime(3139, 2),
{
    lemma2_to64();
    lemma_squaring_step(2, 1, 3139, 1);
    lemma_squaring_step(2, 3, 3139, 2);
    lemma_squaring_step(2, 6, 3139, 8);
    lemma_squaring_step(2, 12, 3139, 64);
    lemma_squaring_step(2, 24, 3139, 957);
    lemma_squaring_step(2, 49, 3139, 2400);
    lemma_squaring_step(2, 98, 3139, 3009);
    lemma_squaring_step(2, 196, 3139, 1205);
    lemma_squaring_step(2, 392, 3139, 1807);
    lemma_squaring_step(2, 784, 3139, 689);
    lemma_squaring_step(2, 1569, 3139, 732);
    lemma_avoiding_first(1249, 3139);
    lemma_refuted_from(3139, 2, 1569, 1, 1249);
}

/// 3397 = 43 * 79 is no strong probable prime to the base 2.
pub proof fn lemma_refuted_3397()
    ensures
        !strong_probable_prime(3397, 2),
{
    lemma2_to64();
    lemma_squaring_step(2, 1, 3397, 1);
    lemma_squaring_step(2, 3, 3397, 2);
    lemma_squaring_step(2, 6, 3397, 8);
    lemma_squaring_step(2, 13, 3397, 64);
    lemma_squaring_step(2, 26, 3397, 1398);
    lemma_squaring_step(2, 53, 3397, 1129);
    lemma_squaring_step(2, 106, 3397, 1532);
    lemma_squaring_step(2, 212, 3397, 3094);
    lemma_squaring_step(2, 424, 3397, 90);
    lemma_squaring_step(2, 849, 3397, 1306);
    lemma_avoiding_first(2467, 3397);
    lemma_avoiding_step(684, 3397, 2);
    lemma_refuted_from(3397, 2, 849, 2, 684);
}

/// 3569 = 43 * 83 is no strong probable prime to the base 2.
pub proof fn lemma_refuted_3569()
    ensures
        !strong_probable_prime(3569, 2),
{
    lemma2_to64();
    lemma_squaring_step(2, 1, 3569, 1);
    lemma_squaring_step(2, 3, 3569, 2);
    lemma_squaring_step(2, 6, 3569, 8);
    lemma_squaring_step(2, 13, 3569, 64);
    lemma_squaring_step(2, 27, 3569, 1054);
    lemma_squaring_step(2, 55, 3569, 1914);
    lemma_squaring_step(2, 111, 3569, 3204);
    lemma_squaring_step(2, 223, 3569, 2344);
    lemma_avoiding_first(3246, 3569);
    lemma_avoiding_step(1497, 3569, 2);
    lemma_avoiding_step(2892, 3569, 3);
    lemma_avoiding_step(3290, 3569, 4);
    lemma_refuted_from(3569, 2, 223, 4, 3290);
}

/// 3827 = 43 * 89 is no strong probable prime to the base 2.
pub proof fn lemma_refuted_3827()
    ensures
        !strong_probable_prime(3827, 2),
{
    lemma2_to64();
    lemma_squaring_step(2, 1, 3827, 1);
    lemma_squaring_step(2, 3, 3827, 2);
    lemma_squaring_step(2, 7, 3827, 8);
    lemma_squaring_step(2, 14, 3827, 128);
    lemma_squaring_step(2, 29, 3827, 1076);
    lemma_squaring_step(2, 59, 3827, 217);
    lemma_squaring_step(2, 119, 3827, 2330);
    lemma_squaring_step(2, 239, 3827, 601);
    lemma_squaring_step(2, 478, 3827, 2926);
    lemma_squaring_step(2, 956, 3827, 477);
    lemma_squaring_step(2, 1913, 3827, 1736);
    lemma_avoiding_first(3694, 3827);
    lemma_refuted_from(3827, 2, 1913, 1, 3694);
}

/// 4171 = 43 * 97 is no strong probable prime to the base 2.
pub proof fn lemma_refuted_4171()
    ensures
        !strong_probable_prime(4171, 2),
{
    lemma2_to64();
    lemma_squaring_step(2, 1, 4171, 1);
    lemma_squaring_step(2, 2, 4171, 2);
    lemma_squaring_step(2, 4, 4171, 4);
    lemma_squaring_step(2, 8, 4171, 16);
    lemma_squaring_step(2, 16, 4171, 256);
    lemma_squaring_step(2, 32, 4171, 2971);
    lemma_squaring_step(2, 65, 4171, 1005);
    lemma_squaring_step(2, 130, 4171, 1286);
    lemma_squaring_step(2, 260, 4171, 2080);
    lemma_squaring_step(2, 521, 4171, 1073);
    lemma_squaring_step(2, 1042, 4171, 266);
    lemma_squaring_step(2, 2085, 4171, 4020);
    lemma_avoiding_first(3892, 4171);
    lemma_refuted_from(4171, 2, 2085, 1, 3892);
}

/// 4343 = 43 * 101 is no strong probable prime to the base 2.
pub proof fn lemma_refuted_4343()
    ensures
        !strong_probable_prime(4343, 2),
{
    lemma2_to64();
    lemma_squaring_step(2, 1, 4343, 1);
    lemma_squaring_step(2, 2, 4343, 2);
    lemma_squaring_step(2, 4, 4343, 4);
    lemma_squaring_step(2, 8, 4343, 16);
    lemma_squaring_step(2, 16, 4343, 256);
    lemma_squaring_step(2, 33, 4343, 391);
    lemma_squaring_step(2, 67, 4343, 1752);
    lemma_squaring_step(2, 135, 4343, 2349);
    lemma_squaring_step(2, 271, 4343, 39);
    lemma_squaring_step(2, 542, 4343, 3042);
    lemma_squaring_step(2, 1085, 4343, 3174);
    lemma_squaring_step(2, 2171, 4343, 1375);
    lemma_avoiding_first(2840, 4343);
    lemma_refuted_from(4343, 2, 2171, 1, 2840);
}

/// 4429 = 43 * 103 is no strong probable prime to the base 2.
pub proof fn lemma_refuted_4429()
    ensures
        !strong_probable_prime(4429, 2),
{
    lemma2_to64();
    lemma_squaring_step(2, 1, 4429, 1);
    lemma_squaring_step(2, 2, 4429, 2);
    lemma_squaring_step(2, 4, 4429, 4);
    lemma_squaring_step(2, 8, 4429, 16);
    lemma_squaring_step(2, 17, 4429, 256);
    lemma_squaring_step(2, 34, 4429, 2631);
    lemma_squaring_step(2, 69, 4429, 4063);
    lemma_squaring_step(2, 138, 4429, 2172);
    lemma_squaring_step(2, 276, 4429, 699);
    lemma_squaring_step(2, 553, 4429, 1411);
    lemma_squaring_step(2, 1107, 4429, 171);
    lemma_avoiding_first(4089, 4429);
    lemma_avoiding_step(905, 4429, 2);
    lemma_refuted_from(4429, 2, 1107, 2, 905);
}

/// 4601 = 43 * 107 is no strong probable prime to the base 2.
pub proof fn lemma_refuted_4601()
    ensures
        !strong_probable_prime(4601, 2),
{
    lemma2_to64();
    lemma_squaring_step(2, 1, 4601, 1);
    lemma_squaring_step(2, 2, 4601, 2);
    lemma_squaring_step(2, 4, 4601, 4);
    lemma_squaring_step(2, 8, 4601, 16);
    lemma_squaring_step(2, 17, 4601, 256);
    lemma_squaring_step(2, 35, 4601, 2244);
    lemma_squaring_step(2, 71, 4601, 4084);
    lemma_squaring_step(2, 143, 4601, 862);
    lemma_squaring_step(2, 287, 4601, 4566);
    lemma_squaring_step(2, 575, 4601, 2450);
    lemma_avoiding_first(2295, 4601);
    lemma_avoiding_step(2068, 4601, 2);
    lemma_avoiding_step(991, 4601, 3);
    lemma_refuted_from(4601, 2, 575, 3, 991);
}

/// 4687 = 43 * 109 is no strong probable prime to the base 2.
pub proof fn lemma_refuted_4687()
    ensures
        !strong_probable_prime(4687, 2),
{
    lemma2_to64();
    lemma_squaring_step(2, 1, 4687, 1);
    lemma_squaring_step(2, 2, 4687, 2);
    lemma_squaring_step(2, 4, 4687, 4);
    lemma_squaring_step(2, 9, 4687, 16);
    lemma_squaring_step(2, 18, 4687, 512);
    lemma_squaring_step(2, 36, 4687, 4359);
    lemma_squaring_step(2, 73, 4687, 4470);
    lemma_squaring_step(2, 146, 4687, 438);
    lemma_squaring_step(2, 292, 4687, 4364);
    lemma_squaring_step(2, 585, 4687, 1215);
    lemma_squaring_step(2, 1171, 4687, 4327);
    lemma_squaring_step(2, 2343, 4687, 1415);
    lemma_avoiding_first(1752, 4687);
    lemma_refuted_from(4687, 2, 2343, 1, 1752);
}

/// 4859 = 43 * 113 is no strong probable prime to the base 2.
pub proof fn lemma_refuted_4859()
    ensures
        !strong_probable_prime(4859, 2),
{
    lemma2_to64();
    lemma_squaring_step(2, 1, 4859, 1);
    lemma_squaring_step(2, 2, 4859, 2);
    lemma_squaring_step(2, 4, 4859, 4);
    lemma_squaring_step(2, 9, 4859, 16);
    lemma_squaring_step(2, 18, 4859, 512);
    lemma_squaring_step(2, 37, 4859, 4617);
    lemma_squaring_step(2, 75, 4859, 512);
    lemma_squaring_step(2, 151, 4859, 4375);
    lemma_squaring_step(2, 303, 4859, 2048);
    lemma_squaring_step(2, 607, 4859, 1974);
    lemma_squaring_step(2, 1214, 4859, 4375);
    lemma_squaring_step(2, 2429, 4859, 1024);
    lemma_avoiding_first(2923, 4859);
    lemma_refuted_from(4859, 2, 2429, 1, 2923);
}

/// 5461 = 43 * 127 is no strong probable prime to the base 2.
pub proof fn lemma_refuted_5461()
    ensures
        !strong_probable_prime(5461, 2),
{
    lemma2_to64();
    lemma_squaring_step(2, 1, 5461, 1);
    lemma_squaring_step(2, 2, 5461, 2);
    lemma_squaring_step(2, 5, 5461, 4);
    lemma_squaring_step(2, 10, 5461, 32);
    lemma_squaring_step(2, 21, 5461, 1024);
    lemma_squaring_step(2, 42, 5461, 128);
    lemma_squaring_step(2, 85, 5461, 1);
    lemma_squaring_step(2, 170, 5461, 2);
    lemma_squaring_step(2, 341, 5461, 4);
    lemma_squaring_step(2, 682, 5461, 32);
    lemma_squaring_step(2, 1365, 5461, 1024);
    lemma_avoiding_first(1, 5461);
    lemma_avoiding_step(128, 5461, 2);
    lemma_refuted_from(5461, 2, 1365, 2, 128);
}

/// 5633 = 43 * 131 is no strong probable prime to the base 2.
pub proof fn lemma_refuted_5633()
    ensures
        !strong_probable_prime(5633, 2),
{
    lemma2_to64();
    lemma_squaring_step(2, 1, 5633, 1);
    lemma_squaring_step(2, 2, 5633, 2);
    lemma_squaring_step(2, 5, 5633, 4);
    lemma_squaring_step(2, 11, 5633, 32);
    lemma_avoiding_first(1337, 5633);
    lemma_avoiding_step(3782, 5633, 2);
    lemma_avoiding_step(2983, 5633, 3);
    lemma_avoiding_step(1466, 5633, 4);
    lemma_avoiding_step(2363, 5633, 5);
    lemma_avoiding_step(5348, 5633, 6);
    lemma_avoiding_step(3702, 5633, 7);
    lemma_avoiding_step(3352, 5633, 8);
    lemma_avoiding_step(2048, 5633, 9);
    lemma_refuted_from(5633, 2, 11, 9, 2048);
}

/// 5891 = 43 * 137 is no strong probable prime to the base 2.
pub proof fn lemma_refuted_5891()
    ensures
        !strong_probable_prime(5891, 2),
{
    lemma2_to64();
    lemma_squaring_step(2, 1, 5891, 1);
    lemma_squaring_step(2, 2, 5891, 2);
    lemma_squaring_step(2, 5, 5891, 4);
    lemma_squaring_step(2, 11, 5891, 32);
    lemma_squaring_step(2, 23, 5891, 2048);
    lemma_squaring_step(2, 46, 5891, 5715);
    lemma_squaring_step(2, 92, 5891, 1521);
    lemma_squaring_step(2, 184, 5891, 4169);
    lemma_squaring_step(2, 368, 5891, 2111);
    lemma_squaring_step(2, 736, 5891, 2725);
    lemma_squaring_step(2, 1472, 5891, 2965);
    lemma_squaring_step(2, 2945, 5891, 1853);
    lemma_avoiding_first(4203, 5891);
    lemma_refuted_from(5891, 2, 2945, 1, 4203);
}

/// 5977 = 43 * 139 is no strong probable prime to the base 2.
pub proof fn lemma_refuted_5977()
    ensures
        !strong_probable_prime(5977, 2),
{
    lemma2_to64();
    lemma_squaring_step(2, 1, 5977, 1);
    lemma_squaring_step(2, 2, 5977, 2);
    lemma_squaring_step(2, 5, 5977, 4);
    lemma_squaring_step(2, 11, 5977, 32);
    lemma_squaring_step(2, 23, 5977, 2048);
    lemma_squaring_step(2, 46, 5977, 2877);
    lemma_squaring_step(2, 93, 5977, 4961);
    lemma_squaring_step(2, 186, 5977, 2447);
    lemma_squaring_step(2, 373, 5977, 4832);
    lemma_squaring_step(2, 747, 5977, 4124);
    lemma_avoiding_first(1053, 5977);
    lemma_avoiding_step(508, 5977, 2);
    lemma_avoiding_step(5622, 5977, 3);
    lemma_refuted_from(5977, 2, 747, 3, 5622);
}

/// 6407 = 43 * 149 is no strong probable prime to the base 2.
pub proof fn lemma_refuted_6407()
    ensures
        !strong_probable_prime(6407, 2),
{
    lemma2_to64();
    lemma_squaring_step(2, 1, 6407, 1);
    lemma_squaring_step(2, 3, 6407, 2);
    lemma_squaring_step(2, 6, 6407, 8);
    lemma_squaring_step(2, 12, 6407, 64);
    lemma_squaring_step(2, 25, 6407, 4096);
    lemma_squaring_step(2, 50, 6407, 973);
    lemma_squaring_step(2, 100, 6407, 4900);
    lemma_squaring_step(2, 200, 6407, 2971);
    lemma_squaring_step(2, 400, 6407, 4402);
    lemma_squaring_step(2, 800, 6407, 2836);
    lemma_squaring_step(2, 1601, 6407, 2111);
    lemma_squaring_step(2, 3203, 6407, 505);
    lemma_avoiding_first(3897, 6407);
    lemma_refuted_from(6407, 2, 3203, 1, 3897);
}

/// 6493 = 43 * 151 is no strong probable prime to the base 2.
pub proof fn lemma_refuted_6493()
    ensures
        !strong_probable_prime(6493, 2),
{
    lemma2_to64();
    lemma_squaring_step(2, 1, 6493, 1);
    lemma_squaring_step(2, 3, 6493, 2);
    lemma_squaring_step(2, 6, 6493, 8);
    lemma_squaring_step(2, 12, 6493, 64);
    lemma_squaring_step(2, 25, 6493, 4096);
    lemma_squaring_step(2, 50, 6493, 5101);
    lemma_squaring_step(2, 101, 6493, 2750);
    lemma_squaring_step(2, 202, 6493, 2803);
    lemma_squaring_step(2, 405, 6493, 279);
    lemma_squaring_step(2, 811, 6493, 6343);
    lemma_squaring_step(2, 1623, 6493, 6042);
    lemma_avoiding_first(3537, 6493);
    lemma_avoiding_step(4236, 6493, 2);
    lemma_refuted_from(6493, 2, 1623, 2, 4236);
}

/// 6751 = 43 * 157 is no strong probable prime to the base 2.
pub proof fn lemma_refuted_6751()
    ensures
        !strong_probable_prime(6751, 2),
{
    lemma2_to64();
    lemma_squaring_step(2, 1, 6751, 1);
    lemma_squaring_step(2, 3, 6751, 2);
    lemma_squaring_step(2, 6, 6751, 8);
    lemma_squaring_step(2, 13, 6751, 64);
    lemma_squaring_step(2, 26, 6751, 1441);
    lemma_squaring_step(2, 52, 6751, 3924);
    lemma_squaring_step(2, 105, 6751, 5496);
    lemma_squaring_step(2, 210, 6751, 4084);
    lemma_squaring_step(2, 421, 6751, 4086);
    lemma_squaring_step(2, 843, 6751, 346);
    lemma_squaring_step(2, 1687, 6751, 3147);
    lemma_squaring_step(2, 3375, 6751, 6535);
    lemma_avoiding_first(5549, 6751);
    lemma_refuted_from(6751, 2, 3375, 1, 5549);
}

/// 7009 = 43 * 163 is no strong probable prime to the base 2.
pub proof fn lemma_refuted_7009()
    ensures
        !strong_probable_prime(7009, 2),
{
    lemma2_to64();
    lemma_squaring_step(2, 1, 7009, 1);
    lemma_squaring_step(2, 3, 7009, 2);
    lemma_squaring_step(2, 6, 7009, 8);
    lemma_squaring_step(2, 13, 7009, 64);
    lemma_squaring_step(2, 27, 7009, 1183);
    lemma_squaring_step(2, 54, 7009, 2387);
    lemma_squaring_step(2, 109, 7009, 6461);
    lemma_squaring_step(2, 219, 7009, 4843);
    lemma_avoiding_first(2940, 7009);
    lemma_avoiding_step(3573, 7009, 2);
    lemma_avoiding_step(2836, 7009, 3);
    lemma_avoiding_step(2897, 7009, 4);
    lemma_avoiding_step(5070, 7009, 5);
    lemma_refuted_from(7009, 2, 219, 5, 5070);
}

/// 7181 = 43 * 167 is no strong probable prime to the base 2.
pub proof fn lemma_refuted_7181()
    ensures
        !strong_probable_prime(7181, 2),
{
    lemma2_to64();
    lemma_squaring_step(2, 1, 7181, 1);
    lemma_squaring_step(2, 3, 7181, 2);
    lemma_squaring_step(2, 7, 7181, 8);
    lemma_squaring_step(2, 14, 7181, 128);
    lemma_squaring_step(2, 28, 7181, 2022);
    lemma_squaring_step(2, 56, 7181, 2495);
    lemma_squaring_step(2, 112, 7181, 6279);
    lemma_squaring_step(2, 224, 7181, 2151);
    lemma_squaring_step(2, 448, 7181, 2237);
    lemma_squaring_step(2, 897, 7181, 6193);
    lemma_squaring_step(2, 1795, 7181, 6237);
    lemma_avoiding_first(5310, 7181);
    lemma_avoiding_step(1384, 7181, 2);
    lemma_refuted_from(7181, 2, 1795, 2, 1384);
}

/// 7439 = 43 * 173 is no strong probable prime to the base 2.
pub proof fn lemma_refuted_7439()
    ensures
        !strong_probable_prime(7439, 2),
{
    lemma2_to64();
    lemma_squaring_step(2, 1, 7439, 1);
    lemma_squaring_step(2, 3, 7439, 2);
    lemma_squaring_step(2, 7, 7439, 8);
    lemma_squaring_step(2, 14, 7439, 128);
    lemma_squaring_step(2, 29, 7439, 1506);
    lemma_squaring_step(2, 58, 7439, 5721);
    lemma_squaring_step(2, 116, 7439, 5680);
    lemma_squaring_step(2, 232, 7439, 6896);
    lemma_squaring_step(2, 464, 7439, 4728);
    lemma_squaring_step(2, 929, 7439, 7228);
    lemma_squaring_step(2, 1859, 7439, 7213);
    lemma_squaring_step(2, 3719, 7439, 5445);
    lemma_avoiding_first(7220, 7439);
    lemma_refuted_from(7439, 2, 3719, 1, 7220);
}

/// 7697 = 43 * 179 is no strong probable prime to the base 2.
pub proof fn lemma_refuted_7697()
    ensures
        !strong_probable_prime(7697, 2),
{
    lemma2_to64();
    lemma_squaring_step(2, 1, 7697, 1);
    lemma_squaring_step(2, 3, 7697, 2);
    lemma_squaring_step(2, 7, 7697, 8);
    lemma_squaring_step(2, 15, 7697, 128);
    lemma_squaring_step(2, 30, 7697, 1980);
    lemma_squaring_step(2, 60, 7697, 2627);
    lemma_squaring_step(2, 120, 7697, 4617);
    lemma_squaring_step(2, 240, 7697, 3696);
    lemma_squaring_step(2, 481, 7697, 5938);
    lemma_avoiding_first(1086, 7697);
    lemma_avoiding_step(5869, 7697, 2);
    lemma_avoiding_step(4894, 7697, 3);
    lemma_avoiding_step(7471, 7697, 4);
    lemma_refuted_from(7697, 2, 481, 4, 7471);
}

/// 7783 = 43 * 181 is no strong probable prime to the base 2.
pub proof fn lemma_refuted_7783()
    ensures
        !strong_probable_prime(7783, 2),
{
    lemma2_to64();
    lemma_squaring_step(2, 1, 7783, 1);
    lemma_squaring_step(2, 3, 7783, 2);
    lemma_squaring_step(2, 7, 7783, 8);
    lemma_squaring_step(2, 15, 7783, 128);
    lemma_squaring_step(2, 30, 7783, 1636);
    lemma_squaring_step(2, 60, 7783, 6927);
    lemma_squaring_step(2, 121, 7783, 1134);
    lemma_squaring_step(2, 243, 7783, 3522);
    lemma_squaring_step(2, 486, 7783, 4547);
    lemma_squaring_step(2, 972, 7783, 3561);
    lemma_squaring_step(2, 1945, 7783, 2214);
    lemma_squaring_step(2, 3891, 7783, 4795);
    lemma_avoiding_first(2086, 7783);
    lemma_refuted_from(7783, 2, 3891, 1, 2086);
}

/// 8213 = 43 * 191 is no strong probable prime to the base 2.
pub proof fn lemma_refuted_8213()
    ensures
        !strong_probable_prime(8213, 2),
{
    lemma2_to64();
    lemma_squaring_step(2, 1, 8213, 1);
    lemma_squaring_step(2, 2, 8213, 2);
    lemma_squaring_step(2, 4, 8213, 4);
    lemma_squaring_step(2, 8, 8213, 16);
    lemma_squaring_step(2, 16, 8213, 256);
    lemma_squaring_step(2, 32, 8213, 8045);
    lemma_squaring_step(2, 64, 8213, 3585);
    lemma_squaring_step(2, 128, 8213, 7093);
    lemma_squaring_step(2, 256, 8213, 6024);
    lemma_squaring_step(2, 513, 8213, 3542);
    lemma_squaring_step(2, 1026, 8213, 813);
    lemma_squaring_step(2, 2053, 8213, 3929);
    lemma_avoiding_first(6466, 8213);
    lemma_avoiding_step(1415, 8213, 2);
    lemma_refuted_from(8213, 2, 2053, 2, 1415);
}

/// 8299 = 43 * 193 is no strong probable prime to the base 2.
pub proof fn lemma_refuted_8299()
    ensures
        !strong_probable_prime(8299, 2),
{
    lemma2_to64();
    lemma_squaring_step(2, 1, 8299, 1);
    lemma_squaring_step(2, 2, 8299, 2);
    lemma_squaring_step(2, 4, 8299, 4);
    lemma_squaring_step(2, 8, 8299, 16);
    lemma_squaring_step(2, 16, 8299, 256);
    lemma_squaring_step(2, 32, 8299, 7443);
    lemma_squaring_step(2, 64, 8299, 2424);
    lemma_squaring_step(2, 129, 8299, 84);
    lemma_squaring_step(2, 259, 8299, 5813);
    lemma_squaring_step(2, 518, 8299, 3181);
    lemma_squaring_step(2, 1037, 8299, 2280);
    lemma_squaring_step(2, 2074, 8299, 6452);
    lemma_squaring_step(2, 4149, 8299, 520);
    lemma_avoiding_first(1365, 8299);
    lemma_refuted_from(8299, 2, 4149, 1, 1365);
}

/// 8471 = 43 * 197 is no strong probable prime to the base 2.
pub proof fn lemma_refuted_8471()
    ensures
        !strong_probable_prime(8471, 2),
{
    lemma2_to64();
    lemma_squaring_step(2, 1, 8471, 1);
    lemma_squaring_step(2, 2, 8471, 2);
    lemma_squaring_step(2, 4, 8471, 4);
    lemma_squaring_step(2, 8, 8471, 16);
    lemma_squaring_step(2, 16, 8471, 256);
    lemma_squaring_step(2, 33, 8471, 6239);
    lemma_squaring_step(2, 66, 8471, 1752);
    lemma_squaring_step(2, 132, 8471, 3002);
    lemma_squaring_step(2, 264, 8471, 7331);
    lemma_squaring_step(2, 529, 8471, 3537);
    lemma_squaring_step(2, 1058, 8471, 5875);
    lemma_squaring_step(2, 2117, 8471, 4771);
    lemma_squaring_step(2, 4235, 8471, 1728);
    lemma_avoiding_first(8384, 8471);
    lemma_refuted_from(8471, 2, 4235, 1, 8384);
}

/// 8557 = 43 * 199 is no strong probable prime to the base 2.
pub proof fn lemma_refuted_8557()
    ensures
        !strong_probable_prime(8557, 2),
{
    lemma2_to64();
    lemma_squaring_step(2, 1, 8557, 1);
    lemma_squaring_step(2, 2, 8557, 2);
    lemma_squaring_step(2, 4, 8557, 4);
    lemma_squaring_step(2, 8, 8557, 16);
    lemma_squaring_step(2, 16, 8557, 256);
    lemma_squaring_step(2, 33, 8557, 5637);
    lemma_squaring_step(2, 66, 8557, 7256);
    lemma_squaring_step(2, 133, 8557, 6872);
    lemma_squaring_step(2, 267, 8557, 5159);
    lemma_squaring_step(2, 534, 8557, 6022);
    lemma_squaring_step(2, 1069, 8557, 8475);
    lemma_squaring_step(2, 2139, 8557, 4891);
    lemma_avoiding_first(7652, 8557);
    lemma_avoiding_step(1575, 8557, 2);
    lemma_refuted_from(8557, 2, 2139, 2, 1575);
}

/// 9073 = 43 * 211 is no strong probable prime to the base 2.
pub proof fn lemma_refuted_9073()
    ensures
        !strong_probable_prime(9073, 2),
{
    lemma2_to64();
    lemma_squaring_step(2, 1, 9073, 1);
    lemma_squaring_step(2, 2, 9073, 2);
    lemma_squaring_step(2, 4, 9073, 4);
    lemma_squaring_step(2, 8, 9073, 16);
    lemma_squaring_step(2, 17, 9073, 256);
    lemma_squaring_step(2, 35, 9073, 4050);
    lemma_squaring_step(2, 70, 9073, 6105);
    lemma_squaring_step(2, 141, 9073, 8214);
    lemma_squaring_step(2, 283, 9073, 5936);
    lemma_squaring_step(2, 567, 9073, 2201);
    lemma_avoiding_first(7784, 9073);
    lemma_avoiding_step(8300, 9073, 2);
    lemma_avoiding_step(7440, 9073, 3);
    lemma_avoiding_step(7911, 9073, 4);
    lemma_refuted_from(9073, 2, 567, 4, 7911);
}

/// 9589 = 43 * 223 is no strong probable prime to the base 2.
pub proof fn lemma_refuted_9589()
    ensures
        !strong_probable_prime(9589, 2),
{
    lemma2_to64();
    lemma_squaring_step(2, 1, 9589, 1);
    lemma_squaring_step(2, 2, 9589, 2);
    lemma_squaring_step(2, 4, 9589, 4);
    lemma_squaring_step(2, 9, 9589, 16);
    lemma_squaring_step(2, 18, 9589, 512);
    lemma_squaring_step(2, 37, 9589, 3241);
    lemma_squaring_step(2, 74, 9589, 8252);
    lemma_squaring_step(2, 149, 9589, 4015);
    lemma_squaring_step(2, 299, 9589, 2232);
    lemma_squaring_step(2, 599, 9589, 677);
    lemma_squaring_step(2, 1198, 9589, 5703);
    lemma_squaring_step(2, 2397, 9589, 7910);
    lemma_avoiding_first(4966, 9589);
    lemma_avoiding_step(9339, 9589, 2);
    lemma_refuted_from(9589, 2, 2397, 2, 9339);
}

/// 9761 = 43 * 227 is no strong probable prime to the base 2.
pub proof fn lemma_refuted_9761()
    ensures
        !strong_probable_prime(9761, 2),
{
    lemma2_to64();
    lemma_squaring_step(2, 1, 9761, 1);
    lemma_squaring_step(2, 2, 9761, 2);
    lemma_squaring_step(2, 4, 9761, 4);
    lemma_squaring_step(2, 9, 9761, 16);
    lemma_squaring_step(2, 19, 9761, 512);
    lemma_squaring_step(2, 38, 9761, 6955);
    lemma_squaring_step(2, 76, 9761, 6270);
    lemma_squaring_step(2, 152, 9761, 5353);
    lemma_squaring_step(2, 305, 9761, 6074);
    lemma_avoiding_first(8727, 9761);
    lemma_avoiding_step(8702, 9761, 2);
    lemma_avoiding_step(9593, 9761, 3);
    lemma_avoiding_step(2836, 9761, 4);
    lemma_avoiding_step(3553, 9761, 5);
    lemma_refuted_from(9761, 2, 305, 5, 3553);
}

/// 9847 = 43 * 229 is no strong probable prime to the base 2.
pub proof fn lemma_refuted_9847()
    ensures
        !strong_probable_prime(9847, 2),
{
    lemma2_to64();
    lemma_squaring_step(2, 1, 9847, 1);
    lemma_squaring_step(2, 2, 9847, 2);
    lemma_squaring_step(2, 4, 9847, 4);
    lemma_squaring_step(2, 9, 9847, 16);
    lemma_squaring_step(2, 19, 9847, 512);
    lemma_squaring_step(2, 38, 9847, 2397);
    lemma_squaring_step(2, 76, 9847, 4808);
    lemma_squaring_step(2, 153, 9847, 5955);
    lemma_squaring_step(2, 307, 9847, 5956);
    lemma_squaring_step(2, 615, 9847, 237);
    lemma_squaring_step(2, 1230, 9847, 4021);
    lemma_squaring_step(2, 2461, 9847, 9514);
    lemma_squaring_step(2, 4923, 9847, 5144);
    lemma_avoiding_first(3694, 9847);
    lemma_refuted_from(9847, 2, 4923, 1, 3694);
}

/// No product of 43 and a prime from 43 on, up to 10000, is a strong
/// probable prime to both of the bases 2 and 3.
pub proof fn lemma_products_of_43(q: nat)
    requires
        prime_from_37_to_270(q),
        q >= 43,
        43 * q <= 10000,
    ensures
        !strong_probable_prime(43 * q, 2) || !strong_probable_prime(43 * q, 3),
{
    if q == 43 {
        lemma_refuted_1849();
    } else if q == 47 {
        lemma_refuted_2021();
    } else if q == 53 {
        lemma_refuted_2279();
    } else if q == 59 {
        lemma_refuted_2537();
    } else if q == 61 {
        lemma_refuted_2623();
    } else if q == 67 {
        lemma_refuted_2881();
    } else if q == 71 {
        lemma_refuted_3053();
    } else if q == 73 {
        lemma_refuted_3139();
    } else if q == 79 {
        lemma_refuted_3397();
    } else if q == 83 {
        lemma_refuted_3569();
    } else if q == 89 {
        lemma_refuted_3827();
    } else if q == 97 {
        lemma_refuted_4171();
    } else if q == 101 {
        lemma_refuted_4343();
    } else if q == 103 {
        lemma_refuted_4429();
    } else if q == 107 {
        lemma_refuted_4601();
    } else if q == 109 {
        lemma_refuted_4687();
    } else if q == 113 {
        lemma_refuted_4859();
    } else if q == 127 {
        lemma_refuted_5461();
    } else if q == 131 {
        lemma_refuted_5633();
    } else if q == 137 {
        lemma_refuted_5891();
    } else if q == 139 {
        lemma_refuted_5977();
    } else if q == 149 {
        lemma_refuted_6407();
    } else if q == 151 {
        lemma_refuted_6493();
    } else if q == 157 {
        lemma_refuted_6751();
    } else if q == 163 {
        lemma_refuted_7009();
    } else if q == 167 {
        lemma_refuted_7181();
    } else if q == 173 {
        lemma_refuted_7439();
    } else if q == 179 {
        lemma_refuted_7697();
    } else if q == 181 {
        lemma_refuted_7783();
    } else if q == 191 {
        lemma_refuted_8213();
    } else if q == 193 {
        lemma_refuted_8299();
    } else if q == 197 {
        lemma_refuted_8471();
    } else if q == 199 {
        lemma_refuted_8557();
    } else if q == 211 {
        lemma_refuted_9073();
    } else if q == 223 {
        lemma_refuted_9589();
    } else if q == 227 {
        lemma_refuted_9761();
    } else if q == 229 {
        lemma_refuted_9847();
    }
}

} // verus!
