//! The products of 67 and a prime from 67 on, up to 10000.

use vstd::arithmetic::power2::lemma2_to64;
use vstd::prelude::*;

use crate::certificates::{
    lemma_avoiding_first, lemma_avoiding_step, lemma_refuted_from, lemma_squaring_step,
    prime_from_37_to_270,
};
use crate::primality::strong_probable_prime;

verus! {

/// 4489 = 67 * 67 is no strong probable prime to the base 2.
pub proof fn lemma_refuted_4489()
    ensures
        !strong_probable_prime(4489, 2),
{
    lemma2_to64();
    lemma_squaring_step(2, 1, 4489, 1);
    lemma_squaring_step(2, 2, 4489, 2);
    lemma_squaring_step(2, 4, 4489, 4);
    lemma_squaring_step(2, 8, 4489, 16);
    lemma_squaring_step(2, 17, 4489, 256);
    lemma_squaring_step(2, 35, 4489, 891);
    lemma_squaring_step(2, 70, 4489, 3145);
    lemma_squaring_step(2, 140, 4489, 1758);
    lemma_squaring_step(2, 280, 4489, 2132);
    lemma_squaring_step(2, 561, 4489, 2556);
    lemma_avoiding_first(336, 4489);
    lemma_avoiding_step(2413, 4489, 2);
    lemma_avoiding_step(3282, 4489, 3);
    lemma_refuted_from(4489, 2, 561, 3, 3282);
}

/// 4757 = 67 * 71 is no strong probable prime to the base 2.
pub proof fn lemma_refuted_4757()
    ensures
        !strong_probable_prime(4757, 2),
{
    lemma2_to64();
    lemma_squaring_step(2, 1, 4757, 1);
    lemma_squaring_step(2, 2, 4757, 2);
    lemma_squaring_step(2, 4, 4757, 4);
    lemma_squaring_step(2, 9, 4757, 16);
    lemma_squaring_step(2, 18, 4757, 512);
    lemma_squaring_step(2, 37, 4757, 509);
    lemma_squaring_step(2, 74, 4757, 4406);
    lemma_squaring_step(2, 148, 4757, 4276);
    lemma_squaring_step(2, 297, 4757, 3025);
    lemma_squaring_step(2, 594, 4757, 1071);
    lemma_squaring_step(2, 1189, 4757, 604);
    lemma_avoiding_first(2148, 4757);
    lemma_avoiding_step(1811, 4757, 2);
    lemma_refuted_from(4757, 2, 1189, 2, 1811);
}

/// 4891 = 67 * 73 is no strong probable prime to the base 2.
pub proof fn lemma_refuted_4891()
    ensures
        !strong_probable_prime(4891, 2),
{
    lemma2_to64();
    lemma_squaring_step(2, 1, 4891, 1);
    lemma_squaring_step(2, 2, 4891, 2);
    lemma_squaring_step(2, 4, 4891, 4);
    lemma_squaring_step(2, 9, 4891, 16);
    lemma_squaring_step(2, 19, 4891, 512);
    lemma_squaring_step(2, 38, 4891, 951);
    lemma_squaring_step(2, 76, 4891, 4457);
    lemma_squaring_step(2, 152, 4891, 2498);
    lemma_squaring_step(2, 305, 4891, 3979);
    lemma_squaring_step(2, 611, 4891, 548);
    lemma_squaring_step(2, 1222, 4891, 3906);
    lemma_squaring_step(2, 2445, 4891, 1807);
    lemma_avoiding_first(1013, 4891);
    lemma_refuted_from(4891, 2, 2445, 1, 1013);
}

/// 5293 = 67 * 79 is no strong probable prime to the base 2.
pub proof fn lemma_refuted_5293()
    ensures
        !strong_probable_prime(5293, 2),
{
    lemma2_to64();
    lemma_squaring_step(2, 1, 5293, 1);
    lemma_squaring_step(2, 2, 5293, 2);
    lemma_squaring_step(2, 5, 5293, 4);
    lemma_squaring_step(2, 10, 5293, 32);
    lemma_squaring_step(2, 20, 5293, 1024);
    lemma_squaring_step(2, 41, 5293, 562);
    lemma_squaring_step(2, 82, 5293, 1821);
    lemma_squaring_step(2, 165, 5293, 2623);
    lemma_squaring_step(2, 330, 5293, 3751);
    lemma_squaring_step(2, 661, 5293, 1207);
    lemma_squaring_step(2, 1323, 5293, 2548);
    lemma_avoiding_first(5156, 5293);
    lemma_avoiding_step(879, 5293, 2);
    lemma_refuted_from(5293, 2, 1323, 2, 879);
}

/// 5561 = 67 * 83 is no strong probable prime to the base 2.
pub proof fn lemma_refuted_5561()
    ensures
        !strong_probable_prime(5561, 2),
{
    lemma2_to64();
    lemma_squaring_step(2, 1, 5561, 1);
    lemma_squaring_step(2, 2, 5561, 2);
    lemma_squaring_step(2, 5, 5561, 4);
    lemma_squaring_step(2, 10, 5561, 32);
    lemma_squaring_step(2, 21, 5561, 1024);
    lemma_squaring_step(2, 43, 5561, 655);
    lemma_squaring_step(2, 86, 5561, 1656);
    lemma_squaring_step(2, 173, 5561, 763);
    lemma_squaring_step(2, 347, 5561, 2089);
    lemma_squaring_step(2, 695, 5561, 2633);
    lemma_avoiding_first(2668, 5561);
    lemma_avoiding_step(4840, 5561, 2);
    lemma_avoiding_step(1805, 5561, 3);
    lemma_refuted_from(5561, 2, 695, 3, 1805);
}

/// 5963 = 67 * 89 is no strong probable prime to the base 2.
pub proof fn lemma_refuted_5963()
    ensures
        !strong_probable_prime(5963, 2),
{
    lemma2_to64();
    lemma_squaring_step(2, 1, 5963, 1);
    lemma_squaring_step(2, 2, 5963, 2);
    lemma_squaring_step(2, 5, 5963, 4);
    lemma_squaring_step(2, 11, 5963, 32);
    lemma_squaring_step(2, 23, 5963, 2048);
    lemma_squaring_step(2, 46, 5963, 4630);
    lemma_squaring_step(2, 93, 5963, 5878);
    lemma_squaring_step(2, 186, 5963, 2524);
    lemma_squaring_step(2, 372, 5963, 2092);
    lemma_squaring_step(2, 745, 5963, 5585);
    lemma_squaring_step(2, 1490, 5963, 5507);
    lemma_squaring_step(2, 2981, 5963, 5194);
    lemma_avoiding_first(2048, 5963);
    lemma_refuted_from(5963, 2, 2981, 1, 2048);
}

/// 6499 = 67 * 97 is no strong probable prime to the base 2.
pub proof fn lemma_refuted_6499()
    ensures
        !strong_probable_prime(6499, 2),
{
    lemma2_to64();
    lemma_squaring_step(2, 1, 6499, 1);
    lemma_squaring_step(2, 3, 6499, 2);
    lemma_squaring_step(2, 6, 6499, 8);
    lemma_squaring_step(2, 12, 6499, 64);
    lemma_squaring_step(2, 25, 6499, 4096);
    lemma_squaring_step(2, 50, 6499, 95);
    lemma_squaring_step(2, 101, 6499, 2526);
    lemma_squaring_step(2, 203, 6499, 3815);
    lemma_squaring_step(2, 406, 6499, 5928);
    lemma_squaring_step(2, 812, 6499, 1091);
    lemma_squaring_step(2, 1624, 6499, 964);
    lemma_squaring_step(2, 3249, 6499, 6438);
    lemma_avoiding_first(943, 6499);
    lemma_refuted_from(6499, 2, 3249, 1, 943);
}

/// 6767 = 67 * 101 is no strong probable prime to the base 2.
pub proof fn lemma_refuted_6767()
    ensures
        !strong_probable_prime(6767, 2),
{
    lemma2_to64();
    lemma_squaring_step(2, 1, 6767, 1);
    lemma_squaring_step(2, 3, 6767, 2);
    lemma_squaring_step(2, 6, 6767, 8);
    lemma_squaring_step(2, 13, 6767, 64);
    lemma_squaring_step(2, 26, 6767, 1425);
    lemma_squaring_step(2, 52, 6767, 525);
    lemma_squaring_step(2, 105, 6767, 4945);
    lemma_squaring_step(2, 211, 6767, 941);
    lemma_squaring_step(2, 422, 6767, 4775);
    lemma_squaring_step(2, 845, 6767, 2602);
    lemma_squaring_step(2, 1691, 6767, 41);
    lemma_squaring_step(2, 3383, 6767, 3362);
    lemma_avoiding_first(4308, 6767);
    lemma_refuted_from(6767, 2, 3383, 1, 4308);
}

/// 6901 = 67 * 103 is no strong probable prime to the base 2.
pub proof fn lemma_refuted_6901()
    ensures
        !strong_probable_prime(6901, 2),
{
    lemma2_to64();
    lemma_squaring_step(2, 1, 6901, 1);
    lemma_squaring_step(2, 3, 6901, 2);
    lemma_squaring_step(2, 6, 6901, 8);
    lemma_squaring_step(2, 13, 6901, 64);
    lemma_squaring_step(2, 26, 6901, 1291);
    lemma_squaring_step(2, 53, 6901, 3540);
    lemma_squaring_step(2, 107, 6901, 5669);
    lemma_squaring_step(2, 215, 6901, 6109);
    lemma_squaring_step(2, 431, 6901, 5447);
    lemma_squaring_step(2, 862, 6901, 4820);
    lemma_squaring_step(2, 1725, 6901, 3634);
    lemma_avoiding_first(4864, 6901);
    lemma_avoiding_step(1785, 6901, 2);
    lemma_refuted_from(6901, 2, 1725, 2, 1785);
}

/// 7169 = 67 * 107 is no strong probable prime to the base 2.
pub proof fn lemma_refuted_7169()
    ensures
        !strong_probable_prime(7169, 2),
{
    lemma2_to64();
    lemma_squaring_step(2, 1, 7169, 1);
    lemma_squaring_step(2, 3, 7169, 2);
    lemma_squaring_step(2, 7, 7169, 8);
    lemma_avoiding_first(5185, 7169);
    lemma_avoiding_step(421, 7169, 2);
    lemma_avoiding_step(973, 7169, 3);
    lemma_avoiding_step(1863, 7169, 4);
    lemma_avoiding_step(458, 7169, 5);
    lemma_avoiding_step(920, 7169, 6);
    lemma_avoiding_step(6626, 7169, 7);
    lemma_avoiding_step(6589, 7169, 8);
    lemma_avoiding_step(2046, 7169, 9);
    lemma_avoiding_step(128, 7169, 10);
    lemma_refuted_from(7169, 2, 7, 10, 128);
}

/// 7303 = 67 * 109 is no strong probable prime to the base 2.
pub proof fn lemma_refuted_7303()
    ensures
        !strong_probable_prime(7303, 2),
{
    lemma2_to64();
    lemma_squaring_step(2, 1, 7303, 1);
    lemma_squaring_step(2, 3, 7303, 2);
    lemma_squaring_step(2, 7, 7303, 8);
    lemma_squaring_step(2, 14, 7303, 128);
    lemma_squaring_step(2, 28, 7303, 1778);
    lemma_squaring_step(2, 57, 7303, 6388);
    lemma_squaring_step(2, 114, 7303, 2063);
    lemma_squaring_step(2, 228, 7303, 5623);
    lemma_squaring_step(2, 456, 7303, 3442);
    lemma_squaring_step(2, 912, 7303, 1898);
    lemma_squaring_step(2, 1825, 7303, 2025);
    lemma_squaring_step(2, 3651, 7303, 7284);
    lemma_avoiding_first(722, 7303);
    lemma_refuted_from(7303, 2, 3651, 1, 722);
}

/// 7571 = 67 * 113 is no strong probable prime to the base 2.
pub proof fn lemma_refuted_7571()
    ensures
        !strong_probable_prime(7571, 2),
{
    lemma2_to64();
    lemma_squaring_step(2, 1, 7571, 1);
    lemma_squaring_step(2, 3, 7571, 2);
    lemma_squaring_step(2, 7, 7571, 8);
    lemma_squaring_step(2, 14, 7571, 128);
    lemma_squaring_step(2, 29, 7571, 1242);
    lemma_squaring_step(2, 59, 7571, 3731);
    lemma_squaring_step(2, 118, 7571, 2155);
    lemma_squaring_step(2, 236, 7571, 3002);
    lemma_squaring_step(2, 473, 7571, 2514);
    lemma_squaring_step(2, 946, 7571, 4393);
    lemma_squaring_step(2, 1892, 7571, 7541);
    lemma_squaring_step(2, 3785, 7571, 900);
    lemma_avoiding_first(7377, 7571);
    lemma_refuted_from(7571, 2, 3785, 1, 7377);
}

/// 8509 = 67 * 127 is no strong probable prime to the base 2.
pub proof fn lemma_refuted_8509()
    ensures
        !strong_probable_prime(8509, 2),
{
    lemma2_to64();
    lemma_squaring_step(2, 1, 8509, 1);
    lemma_squaring_step(2, 2, 8509, 2);
    lemma_squaring_step(2, 4, 8509, 4);
    lemma_squaring_step(2, 8, 8509, 16);
    lemma_squaring_step(2, 16, 8509, 256);
    lemma_squaring_step(2, 33, 8509, 5973);
    lemma_squaring_step(2, 66, 8509, 5493);
    lemma_squaring_step(2, 132, 8509, 135);
    lemma_squaring_step(2, 265, 8509, 1207);
    lemma_squaring_step(2, 531, 8509, 3620);
    lemma_squaring_step(2, 1063, 8509, 1080);
    lemma_squaring_step(2, 2127, 8509, 1334);
    lemma_avoiding_first(159, 8509);
    lemma_avoiding_step(2350, 8509, 2);
    lemma_refuted_from(8509, 2, 2127, 2, 2350);
}

/// 8777 = 67 * 131 is no strong probable prime to the base 2.
pub proof fn lemma_refuted_8777()
    ensures
        !strong_probable_prime(8777, 2),
{
    lemma2_to64();
    lemma_squaring_step(2, 1, 8777, 1);
    lemma_squaring_step(2, 2, 8777, 2);
    lemma_squaring_step(2, 4, 8777, 4);
    lemma_squaring_step(2, 8, 8777, 16);
    lemma_squaring_step(2, 17, 8777, 256);
    lemma_squaring_step(2, 34, 8777, 8194);
    lemma_squaring_step(2, 68, 8777, 6363);
    lemma_squaring_step(2, 137, 8777, 8245);
    lemma_squaring_step(2, 274, 8777, 4320);
    lemma_squaring_step(2, 548, 8777, 2498);
    lemma_squaring_step(2, 1097, 8777, 8334);
    lemma_avoiding_first(5661, 8777);
    lemma_avoiding_step(3628, 8777, 2);
    lemma_avoiding_step(6310, 8777, 3);
    lemma_refuted_from(8777, 2, 1097, 3, 6310);
}

/// 9179 = 67 * 137 is no strong probable prime to the base 2.
pub proof fn lemma_refuted_9179()
    ensures
        !strong_probable_prime(9179, 2),
{
    lemma2_to64();
    lemma_squaring_step(2, 1, 9179, 1);
    lemma_squaring_step(2, 2, 9179, 2);
    lemma_squaring_step(2, 4, 9179, 4);
    lemma_squaring_step(2, 8, 9179, 16);
    lemma_squaring_step(2, 17, 9179, 256);
    lemma_squaring_step(2, 35, 9179, 2566);
    lemma_squaring_step(2, 71, 9179, 6026);
    lemma_squaring_step(2, 143, 9179, 1104);
    lemma_squaring_step(2, 286, 9179, 5197);
    lemma_squaring_step(2, 573, 9179, 4191);
    lemma_squaring_step(2, 1147, 9179, 929);
    lemma_squaring_step(2, 2294, 9179, 430);
    lemma_squaring_step(2, 4589, 9179, 1320);
    lemma_avoiding_first(5959, 9179);
    lemma_refuted_from(9179, 2, 4589, 1, 5959);
}

/// 9313 = 67 * 139 is no strong probable prime to the base 2.
pub proof fn lemma_refuted_9313()
    ensures
        !strong_probable_prime(9313, 2),
{
    lemma2_to64();
    lemma_squaring_step(2, 1, 9313, 1);
    lemma_squaring_step(2, 2, 9313, 2);
    lemma_squaring_step(2, 4, 9313, 4);
    lemma_squaring_step(2, 9, 9313, 16);
    lemma_squaring_step(2, 18, 9313, 512);
    lemma_squaring_step(2, 36, 9313, 1380);
    lemma_squaring_step(2, 72, 9313, 4548);
    lemma_squaring_step(2, 145, 9313, 131);
    lemma_squaring_step(2, 291, 9313, 6383);
    lemma_avoiding_first(7563, 9313);
    lemma_avoiding_step(7075, 9313, 2);
    lemma_avoiding_step(7863, 9313, 3);
    lemma_avoiding_step(8524, 9313, 4);
    lemma_avoiding_step(5941, 9313, 5);
    lemma_refuted_from(9313, 2, 291, 5, 5941);
}

/// 9983 = 67 * 149 is no strong probable prime to the base 2.
pub proof fn lemma_refuted_9983()
    ensures
        !strong_probable_prime(9983, 2),
{
    lemma2_to64();
    lemma_squaring_step(2, 1, 9983, 1);
    lemma_squaring_step(2, 2, 9983, 2);
    lemma_squaring_step(2, 4, 9983, 4);
    lemma_squaring_step(2, 9, 9983, 16);
    lemma_squaring_step(2, 19, 9983, 512);
    lemma_squaring_step(2, 38, 9983, 5172);
    lemma_squaring_step(2, 77, 9983, 5127);
    lemma_squaring_step(2, 155, 9983, 1780);
    lemma_squaring_step(2, 311, 9983, 7578);
    lemma_squaring_step(2, 623, 9983, 7736);
    lemma_squaring_step(2, 1247, 9983, 5205);
    lemma_squaring_step(2, 2495, 9983, 6309);
    lemma_squaring_step(2, 4991, 9983, 2520);
    lemma_avoiding_first(2424, 9983);
    lemma_refuted_from(9983, 2, 4991, 1, 2424);
}

/// No product of 67 and a prime from 67 on, up to 10000, is a strong
/// probable prime to both of the bases 2 and 3.
pub proof fn lemma_products_of_67(q: nat)
    requires
        prime_from_37_to_270(q),
        q >= 67,
        67 * q <= 10000,
    ensures
        !strong_probable_prime(67 * q, 2) || !strong_probable_prime(67 * q, 3),
{
    if q == 67 {
        lemma_refuted_4489();
    } else if q == 71 {
        lemma_refuted_4757();
    } else if q == 73 {
        lemma_refuted_4891();
    } else if q == 79 {
        lemma_refuted_5293();
    } else if q == 83 {
        lemma_refuted_5561();
    } else if q == 89 {
        lemma_refuted_5963();
    } else if q == 97 {
        lemma_refuted_6499();
    } else if q == 101 {
        lemma_refuted_6767();
    } else if q == 103 {
        lemma_refuted_6901();
    } else if q == 107 {
        lemma_refuted_7169();
    } else if q == 109 {
        lemma_refuted_7303();
    } else if q == 113 {
        lemma_refuted_7571();
    } else if q == 127 {
        lemma_refuted_8509();
    } else if q == 131 {
        lemma_refuted_8777();
    } else if q == 137 {
        lemma_refuted_9179();
    } else if q == 139 {
        lemma_refuted_9313();
    } else if q == 149 {
        lemma_refuted_9983();
    }
}

} // verus!
