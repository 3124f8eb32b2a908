//! The products of 71 and a prime from 71 on, up to 10000.

use vstd::arithmetic::power2::lemma2_to64;
use vstd::prelude::*;

use crate::certificates::{
    lemma_avoiding_first, lemma_avoiding_step, lemma_refuted_from, lemma_squaring_step,
    prime_from_37_to_270,
};
use crate::primality::strong_probable_prime;

verus! {

/// 5041 = 71 * 71 is no strong probable prime to the base 2.
pub proof fn lemma_refuted_5041()
    ensures
        !strong_probable_prime(5041, 2),
{
    lemma2_to64();
    lemma_squaring_step(2, 1, 5041, 1);
    lemma_squaring_step(2, 2, 5041, 2);
    lemma_squaring_step(2, 4, 5041, 4);
    lemma_squaring_step(2, 9, 5041, 16);
    lemma_squaring_step(2, 19, 5041, 512);
    lemma_squaring_step(2, 39, 5041, 24);
    lemma_squaring_step(2, 78, 5041, 1152);
    lemma_squaring_step(2, 157, 5041, 1321);
    lemma_squaring_step(2, 315, 5041, 1710);
    lemma_avoiding_first(72, 5041);
    lemma_avoiding_step(2557, 5041, 2);
    lemma_avoiding_step(1279, 5041, 3);
    lemma_avoiding_step(640, 5041, 4);
    lemma_refuted_from(5041, 2, 315, 4, 640);
}

/// 5183 = 71 * 73 is no strong probable prime to the base 2.
pub proof fn lemma_refuted_5183()
    ensures
        !strong_probable_prime(5183, 2),
{
    lemma2_to64();
    lemma_squaring_step(2, 1, 5183, 1);
    lemma_squaring_step(2, 2, 5183, 2);
    lemma_squaring_step(2, 5, 5183, 4);
    lemma_squaring_step(2, 10, 5183, 32);
    lemma_squaring_step(2, 20, 5183, 1024);
    lemma_squaring_step(2, 40, 5183, 1610);
    lemma_squaring_step(2, 80, 5183, 600);
    lemma_squaring_step(2, 161, 5183, 2373);
    lemma_squaring_step(2, 323, 5183, 4782);
    lemma_squaring_step(2, 647, 5183, 256);
    lemma_squaring_step(2, 1295, 5183, 1497);
    lemma_squaring_step(2, 2591, 5183, 3906);
    lemma_avoiding_first(1351, 5183);
    lemma_refuted_from(5183, 2, 2591, 1, 1351);
}

/// 5609 = 71 * 79 is no strong probable prime to the base 2.
pub proof fn lemma_refuted_5609()
    ensures
        !strong_probable_prime(5609, 2),
{
    lemma2_to64();
    lemma_squaring_step(2, 1, 5609, 1);
    lemma_squaring_step(2, 2, 5609, 2);
    lemma_squaring_step(2, 5, 5609, 4);
    lemma_squaring_step(2, 10, 5609, 32);
    lemma_squaring_step(2, 21, 5609, 1024);
    lemma_squaring_step(2, 43, 5609, 4995);
    lemma_squaring_step(2, 87, 5609, 2386);
    lemma_squaring_step(2, 175, 5609, 5331);
    lemma_squaring_step(2, 350, 5609, 3125);
    lemma_squaring_step(2, 701, 5609, 356);
    lemma_avoiding_first(2217, 5609);
    lemma_avoiding_step(5471, 5609, 2);
    lemma_avoiding_step(1067, 5609, 3);
    lemma_refuted_from(5609, 2, 701, 3, 1067);
}

/// 5893 = 71 * 83 is no strong probable prime to the base 2.
pub proof fn lemma_refuted_5893()
    ensures
        !strong_probable_prime(5893, 2),
{
    lemma2_to64();
    lemma_squaring_step(2, 1, 5893, 1);
    lemma_squaring_step(2, 2, 5893, 2);
    lemma_squaring_step(2, 5, 5893, 4);
    lemma_squaring_step(2, 11, 5893, 32);
    lemma_squaring_step(2, 23, 5893, 2048);
    lemma_squaring_step(2, 46, 5893, 2869);
    lemma_squaring_step(2, 92, 5893, 4533);
    lemma_squaring_step(2, 184, 5893, 5091);
    lemma_squaring_step(2, 368, 5893, 867);
    lemma_squaring_step(2, 736, 5893, 3278);
    lemma_squaring_step(2, 1473, 5893, 2345);
    lemma_avoiding_first(2123, 5893);
    lemma_avoiding_step(1712, 5893, 2);
    lemma_refuted_from(5893, 2, 1473, 2, 1712);
}

/// 6319 = 71 * 89 is no strong probable prime to the base 2.
pub proof fn lemma_refuted_6319()
    ensures
        !strong_probable_prime(6319, 2),
{
    lemma2_to64();
    lemma_squaring_step(2, 1, 6319, 1);
    lemma_squaring_step(2, 3, 6319, 2);
    lemma_squaring_step(2, 6, 6319, 8);
    lemma_squaring_step(2, 12, 6319, 64);
    lemma_squaring_step(2, 24, 6319, 4096);
    lemma_squaring_step(2, 49, 6319, 271);
    lemma_squaring_step(2, 98, 6319, 1545);
    lemma_squaring_step(2, 197, 6319, 4762);
    lemma_squaring_step(2, 394, 6319, 1825);
    lemma_squaring_step(2, 789, 6319, 512);
    lemma_squaring_step(2, 1579, 6319, 6130);
    lemma_squaring_step(2, 3159, 6319, 1933);
    lemma_avoiding_first(3920, 6319);
    lemma_refuted_from(6319, 2, 3159, 1, 3920);
}

/// 6887 = 71 * 97 is no strong probable prime to the base 2.
pub proof fn lemma_refuted_6887()
    ensures
        !strong_probable_prime(6887, 2),
{
    lemma2_to64();
    lemma_squaring_step(2, 1, 6887, 1);
    lemma_squaring_step(2, 3, 6887, 2);
    lemma_squaring_step(2, 6, 6887, 8);
    lemma_squaring_step(2, 13, 6887, 64);
    lemma_squaring_step(2, 26, 6887, 1305);
    lemma_squaring_step(2, 53, 6887, 1936);
    lemma_squaring_step(2, 107, 6887, 3136);
    lemma_squaring_step(2, 215, 6887, 6607);
    lemma_squaring_step(2, 430, 6887, 5286);
    lemma_squaring_step(2, 860, 6887, 1237);
    lemma_squaring_step(2, 1721, 6887, 1255);
    lemma_squaring_step(2, 3443, 6887, 2691);
    lemma_avoiding_first(6488, 6887);
    lemma_refuted_from(6887, 2, 3443, 1, 6488);
}

/// 7171 = 71 * 101 is no strong probable prime to the base 2.
pub proof fn lemma_refuted_7171()
    ensures
        !strong_probable_prime(7171, 2),
{
    lemma2_to64();
    lemma_squaring_step(2, 1, 7171, 1);
    lemma_squaring_step(2, 3, 7171, 2);
    lemma_squaring_step(2, 7, 7171, 8);
    lemma_squaring_step(2, 14, 7171, 128);
    lemma_squaring_step(2, 28, 7171, 2042);
    lemma_squaring_step(2, 56, 7171, 3413);
    lemma_squaring_step(2, 112, 7171, 2865);
    lemma_squaring_step(2, 224, 7171, 4601);
    lemma_squaring_step(2, 448, 7171, 409);
    lemma_squaring_step(2, 896, 7171, 2348);
    lemma_squaring_step(2, 1792, 7171, 5776);
    lemma_squaring_step(2, 3585, 7171, 2684);
    lemma_avoiding_first(1173, 7171);
    lemma_refuted_from(7171, 2, 3585, 1, 1173);
}

/// 7313 = 71 * 103 is no strong probable prime to the base 2.
pub proof fn lemma_refuted_7313()
    ensures
        !strong_probable_prime(7313, 2),
{
    lemma2_to64();
    lemma_squaring_step(2, 1, 7313, 1);
    lemma_squaring_step(2, 3, 7313, 2);
    lemma_squaring_step(2, 7, 7313, 8);
    lemma_squaring_step(2, 14, 7313, 128);
    lemma_squaring_step(2, 28, 7313, 1758);
    lemma_squaring_step(2, 57, 7313, 4478);
    lemma_squaring_step(2, 114, 7313, 476);
    lemma_squaring_step(2, 228, 7313, 7186);
    lemma_squaring_step(2, 457, 7313, 1503);
    lemma_avoiding_first(6890, 7313);
    lemma_avoiding_step(7072, 7313, 2);
    lemma_avoiding_step(1294, 7313, 3);
    lemma_avoiding_step(5897, 7313, 4);
    lemma_refuted_from(7313, 2, 457, 4, 5897);
}

/// 7597 = 71 * 107 is no strong probable prime to the base 2.
pub proof fn lemma_refuted_7597()
    ensures
        !strong_probable_prime(7597, 2),
{
    lemma2_to64();
    lemma_squaring_step(2, 1, 7597, 1);
    lemma_squaring_step(2, 3, 7597, 2);
    lemma_squaring_step(2, 7, 7597, 8);
    lemma_squaring_step(2, 14, 7597, 128);
    lemma_squaring_step(2, 29, 7597, 1190);
    lemma_squaring_step(2, 59, 7597, 6116);
    lemma_squaring_step(2, 118, 7597, 3253);
    lemma_squaring_step(2, 237, 7597, 6985);
    lemma_squaring_step(2, 474, 7597, 4582);
    lemma_squaring_step(2, 949, 7597, 4213);
    lemma_squaring_step(2, 1899, 7597, 5554);
    lemma_avoiding_first(6402, 7597);
    lemma_avoiding_step(6192, 7597, 2);
    lemma_refuted_from(7597, 2, 1899, 2, 6192);
}

/// 7739 = 71 * 109 is no strong probable prime to the base 2.
pub proof fn lemma_refuted_7739()
    ensures
        !strong_probable_prime(7739, 2),
{
    lemma2_to64();
    lemma_squaring_step(2, 1, 7739, 1);
    lemma_squaring_step(2, 3, 7739, 2);
    lemma_squaring_step(2, 7, 7739, 8);
    lemma_squaring_step(2, 15, 7739, 128);
    lemma_squaring_step(2, 30, 7739, 1812);
    lemma_squaring_step(2, 60, 7739, 2008);
    lemma_squaring_step(2, 120, 7739, 45);
    lemma_squaring_step(2, 241, 7739, 2025);
    lemma_squaring_step(2, 483, 7739, 5649);
    lemma_squaring_step(2, 967, 7739, 6608);
    lemma_squaring_step(2, 1934, 7739, 4452);
    lemma_squaring_step(2, 3869, 7739, 725);
    lemma_avoiding_first(6485, 7739);
    lemma_refuted_from(7739, 2, 3869, 1, 6485);
}

/// 8023 = 71 * 113 is no strong probable prime to the base 2.
pub proof fn lemma_refuted_8023()
    ensures
        !strong_probable_prime(8023, 2),
{
    lemma2_to64();
    lemma_squaring_step(2, 1, 8023, 1);
    lemma_squaring_step(2, 3, 8023, 2);
    lemma_squaring_step(2, 7, 8023, 8);
    lemma_squaring_step(2, 15, 8023, 128);
    lemma_squaring_step(2, 31, 8023, 676);
    lemma_squaring_step(2, 62, 8023, 7353);
    lemma_squaring_step(2, 125, 8023, 7635);
    lemma_squaring_step(2, 250, 8023, 4237);
    lemma_squaring_step(2, 501, 8023, 4718);
    lemma_squaring_step(2, 1002, 8023, 7444);
    lemma_squaring_step(2, 2005, 8023, 6298);
    lemma_squaring_step(2, 4011, 8023, 6207);
    lemma_avoiding_first(806, 8023);
    lemma_refuted_from(8023, 2, 4011, 1, 806);
}

/// 9017 = 71 * 127 is no strong probable prime to the base 2.
pub proof fn lemma_refuted_9017()
    ensures
        !strong_probable_prime(9017, 2),
{
    lemma2_to64();
    lemma_squaring_step(2, 1, 9017, 1);
    lemma_squaring_step(2, 2, 9017, 2);
    lemma_squaring_step(2, 4, 9017, 4);
    lemma_squaring_step(2, 8, 9017, 16);
    lemma_squaring_step(2, 17, 9017, 256);
    lemma_squaring_step(2, 35, 9017, 4834);
    lemma_squaring_step(2, 70, 9017, 1);
    lemma_squaring_step(2, 140, 9017, 1);
    lemma_squaring_step(2, 281, 9017, 1);
    lemma_squaring_step(2, 563, 9017, 2);
    lemma_squaring_step(2, 1127, 9017, 8);
    lemma_avoiding_first(8383, 9017);
    lemma_avoiding_step(7367, 9017, 2);
    lemma_avoiding_step(128, 9017, 3);
    lemma_refuted_from(9017, 2, 1127, 3, 128);
}

/// 9301 = 71 * 131 is no strong probable prime to the base 2.
pub proof fn lemma_refuted_9301()
    ensures
        !strong_probable_prime(9301, 2),
{
    lemma2_to64();
    lemma_squaring_step(2, 1, 9301, 1);
    lemma_squaring_step(2, 2, 9301, 2);
    lemma_squaring_step(2, 4, 9301, 4);
    lemma_squaring_step(2, 9, 9301, 16);
    lemma_squaring_step(2, 18, 9301, 512);
    lemma_squaring_step(2, 36, 9301, 1716);
    lemma_squaring_step(2, 72, 9301, 5540);
    lemma_squaring_step(2, 145, 9301, 7601);
    lemma_squaring_step(2, 290, 9301, 4079);
    lemma_squaring_step(2, 581, 9301, 8053);
    lemma_squaring_step(2, 1162, 9301, 8474);
    lemma_squaring_step(2, 2325, 9301, 4956);
    lemma_avoiding_first(7972, 9301);
    lemma_avoiding_step(5291, 9301, 2);
    lemma_refuted_from(9301, 2, 2325, 2, 5291);
}

/// 9727 = 71 * 137 is no strong probable prime to the base 2.
pub proof fn lemma_refuted_9727()
    ensures
        !strong_probable_prime(9727, 2),
{
    lemma2_to64();
    lemma_squaring_step(2, 1, 9727, 1);
    lemma_squaring_step(2, 2, 9727, 2);
    lemma_squaring_step(2, 4, 9727, 4);
    lemma_squaring_step(2, 9, 9727, 16);
    lemma_squaring_step(2, 18, 9727, 512);
    lemma_squaring_step(2, 37, 9727, 9242);
    lemma_squaring_step(2, 75, 9727, 3554);
    lemma_squaring_step(2, 151, 9727, 813);
    lemma_squaring_step(2, 303, 9727, 8793);
    lemma_squaring_step(2, 607, 9727, 3579);
    lemma_squaring_step(2, 1215, 9727, 7291);
    lemma_squaring_step(2, 2431, 9727, 1252);
    lemma_squaring_step(2, 4863, 9727, 2914);
    lemma_avoiding_first(9177, 9727);
    lemma_refuted_from(9727, 2, 4863, 1, 9177);
}

/// 9869 = 71 * 139 is no strong probable prime to the base 2.
pub proof fn lemma_refuted_9869()
    ensures
        !strong_probable_prime(9869, 2),
{
    lemma2_to64();
    lemma_squaring_step(2, 1, 9869, 1);
    lemma_squaring_step(2, 2, 9869, 2);
    lemma_squaring_step(2, 4, 9869, 4);
    lemma_squaring_step(2, 9, 9869, 16);
    lemma_squaring_step(2, 19, 9869, 512);
    lemma_squaring_step(2, 38, 9869, 1231);
    lemma_squaring_step(2, 77, 9869, 5404);
    lemma_squaring_step(2, 154, 9869, 1690);
    lemma_squaring_step(2, 308, 9869, 3959);
    lemma_squaring_step(2, 616, 9869, 1709);
    lemma_squaring_step(2, 1233, 9869, 9326);
    lemma_squaring_step(2, 2467, 9869, 7427);
    lemma_avoiding_first(9124, 9869);
    lemma_avoiding_step(4976, 9869, 2);
    lemma_refuted_from(9869, 2, 2467, 2, 4976);
}

/// No product of 71 and a prime from 71 on, up to 10000, is a strong
/// probable prime to both of the bases 2 and 3.
pub proof fn lemma_products_of_71(q: nat)
    requires
        prime_from_37_to_270(q),
        q >= 71,
        71 * q <= 10000,
    ensures
        !strong_probable_prime(71 * q, 2) || !strong_probable_prime(71 * q, 3),
{
    if q == 71 {
        lemma_refuted_5041();
    } else if q == 73 {
        lemma_refuted_5183();
    } else if q == 79 {
        lemma_refuted_5609();
    } else if q == 83 {
        lemma_refuted_5893();
    } else if q == 89 {
        lemma_refuted_6319();
    } else if q == 97 {
        lemma_refuted_6887();
    } else if q == 101 {
        lemma_refuted_7171();
    } else if q == 103 {
        lemma_refuted_7313();
    } else if q == 107 {
        lemma_refuted_7597();
    } else if q == 109 {
        lemma_refuted_7739();
    } else if q == 113 {
        lemma_refuted_8023();
    } else if q == 127 {
        lemma_refuted_9017();
    } else if q == 131 {
        lemma_refuted_9301();
    } else if q == 137 {
        lemma_refuted_9727();
    } else if q == 139 {
        lemma_refuted_9869();
    }
}

} // verus!
