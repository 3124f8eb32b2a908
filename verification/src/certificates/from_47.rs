//! The products of 47 and a prime from 47 on, up to 10000.

use vstd::arithmetic::power2::lemma2_to64;
use vstd::prelude::*;

use crate::certificates::{
    lemma_avoiding_first, lemma_avoiding_step, lemma_refuted_from, lemma_squaring_step,
    prime_from_37_to_270,
};
use crate::primality::strong_probable_prime;

verus! {

/// 2209 = 47 * 47 is no strong probable prime to the base 2.
pub proof fn lemma_refuted_2209()
    ensures
        !strong_probable_prime(2209, 2),
{
    lemma2_to64();
    lemma_squaring_step(2, 1, 2209, 1);
    lemma_squaring_step(2, 2, 2209, 2);
    lemma_squaring_step(2, 4, 2209, 4);
    lemma_squaring_step(2, 8, 2209, 16);
    lemma_squaring_step(2, 17, 2209, 256);
    lemma_squaring_step(2, 34, 2209, 741);
    lemma_squaring_step(2, 69, 2209, 1249);
    lemma_avoiding_first(1035, 2209);
    lemma_avoiding_step(518, 2209, 2);
    lemma_avoiding_step(1364, 2209, 3);
    lemma_avoiding_step(1787, 2209, 4);
    lemma_avoiding_step(894, 2209, 5);
    lemma_refuted_from(2209, 2, 69, 5, 894);
}

/// 2491 = 47 * 53 is no strong probable prime to the base 2.
pub proof fn lemma_refuted_2491()
    ensures
        !strong_probable_prime(2491, 2),
{
    lemma2_to64();
    lemma_squaring_step(2, 1, 2491, 1);
    lemma_squaring_step(2, 2, 2491, 2);
    lemma_squaring_step(2, 4, 2491, 4);
    lemma_squaring_step(2, 9, 2491, 16);
    lemma_squaring_step(2, 19, 2491, 512);
    lemma_squaring_step(2, 38, 2491, 1178);
    lemma_squaring_step(2, 77, 2491, 197);
    lemma_squaring_step(2, 155, 2491, 397);
    lemma_squaring_step(2, 311, 2491, 1352);
    lemma_squaring_step(2, 622, 2491, 1511);
    lemma_squaring_step(2, 1245, 2491, 1365);
    lemma_avoiding_first(2405, 2491);
    lemma_refuted_from(2491, 2, 1245, 1, 2405);
}

/// 2773 = 47 * 59 is no strong probable prime to the base 2.
pub proof fn lemma_refuted_2773()
    ensures
        !strong_probable_prime(2773, 2),
{
    lemma2_to64();
    lemma_squaring_step(2, 1, 2773, 1);
    lemma_squaring_step(2, 2, 2773, 2);
    lemma_squaring_step(2, 5, 2773, 4);
    lemma_squaring_step(2, 10, 2773, 32);
    lemma_squaring_step(2, 21, 2773, 1024);
    lemma_squaring_step(2, 43, 2773, 764);
    lemma_squaring_step(2, 86, 2773, 2732);
    lemma_squaring_step(2, 173, 2773, 1681);
    lemma_squaring_step(2, 346, 2773, 148);
    lemma_squaring_step(2, 693, 2773, 2493);
    lemma_avoiding_first(1192, 2773);
    lemma_avoiding_step(1512, 2773, 2);
    lemma_refuted_from(2773, 2, 693, 2, 1512);
}

/// 2867 = 47 * 61 is no strong probable prime to the base 2.
pub proof fn lemma_refuted_2867()
    ensures
        !strong_probable_prime(2867, 2),
{
    lemma2_to64();
    lemma_squaring_step(2, 1, 2867, 1);
    lemma_squaring_step(2, 2, 2867, 2);
    lemma_squaring_step(2, 5, 2867, 4);
    lemma_squaring_step(2, 11, 2867, 32);
    lemma_squaring_step(2, 22, 2867, 2048);
    lemma_squaring_step(2, 44, 2867, 2750);
    lemma_squaring_step(2, 89, 2867, 2221);
    lemma_squaring_step(2, 179, 2867, 335);
    lemma_squaring_step(2, 358, 2867, 824);
    lemma_squaring_step(2, 716, 2867, 2364);
    lemma_squaring_step(2, 1433, 2867, 713);
    lemma_avoiding_first(1820, 2867);
    lemma_refuted_from(2867, 2, 1433, 1, 1820);
}

/// 3149 = 47 * 67 is no strong probable prime to the base 2.
pub proof fn lemma_refuted_3149()
    ensures
        !strong_probable_prime(3149, 2),
{
    lemma2_to64();
    lemma_squaring_step(2, 1, 3149, 1);
    lemma_squaring_step(2, 3, 3149, 2);
    lemma_squaring_step(2, 6, 3149, 8);
    lemma_squaring_step(2, 12, 3149, 64);
    lemma_squaring_step(2, 24, 3149, 947);
    lemma_squaring_step(2, 49, 3149, 2493);
    lemma_squaring_step(2, 98, 3149, 995);
    lemma_squaring_step(2, 196, 3149, 1239);
    lemma_squaring_step(2, 393, 3149, 1558);
    lemma_squaring_step(2, 787, 3149, 2119);
    lemma_avoiding_first(1400, 3149);
    lemma_avoiding_step(2523, 3149, 2);
    lemma_refuted_from(3149, 2, 787, 2, 2523);
}

/// 3337 = 47 * 71 is no strong probable prime to the base 2.
pub proof fn lemma_refuted_3337()
    ensures
        !strong_probable_prime(3337, 2),
{
    lemma2_to64();
    lemma_squaring_step(2, 1, 3337, 1);
    lemma_squaring_step(2, 3, 3337, 2);
    lemma_squaring_step(2, 6, 3337, 8);
    lemma_squaring_step(2, 13, 3337, 64);
    lemma_squaring_step(2, 26, 3337, 1518);
    lemma_squaring_step(2, 52, 3337, 1794);
    lemma_squaring_step(2, 104, 3337, 1568);
    lemma_squaring_step(2, 208, 3337, 2592);
    lemma_squaring_step(2, 417, 3337, 1083);
    lemma_avoiding_first(242, 3337);
    lemma_avoiding_step(1004, 3337, 2);
    lemma_avoiding_step(3204, 3337, 3);
    lemma_refuted_from(3337, 2, 417, 3, 3204);
}

/// 3431 = 47 * 73 is no strong probable prime to the base 2.
pub proof fn lemma_refuted_3431()
    ensures
        !strong_probable_prime(3431, 2),
{
    lemma2_to64();
    lemma_squaring_step(2, 1, 3431, 1);
    lemma_squaring_step(2, 3, 3431, 2);
    lemma_squaring_step(2, 6, 3431, 8);
    lemma_squaring_step(2, 13, 3431, 64);
    lemma_squaring_step(2, 26, 3431, 1330);
    lemma_squaring_step(2, 53, 3431, 1935);
    lemma_squaring_step(2, 107, 3431, 2008);
    lemma_squaring_step(2, 214, 3431, 1278);
    lemma_squaring_step(2, 428, 3431, 128);
    lemma_squaring_step(2, 857, 3431, 2660);
    lemma_squaring_step(2, 1715, 3431, 1756);
    lemma_avoiding_first(1565, 3431);
    lemma_refuted_from(3431, 2, 1715, 1, 1565);
}

/// 3713 = 47 * 79 is no strong probable prime to the base 2.
pub proof fn lemma_refuted_3713()
    ensures
        !strong_probable_prime(3713, 2),
{
    lemma2_to64();
    lemma_squaring_step(2, 1, 3713, 1);
    lemma_squaring_step(2, 3, 3713, 2);
    lemma_squaring_step(2, 7, 3713, 8);
    lemma_squaring_step(2, 14, 3713, 128);
    lemma_squaring_step(2, 29, 3713, 1532);
    lemma_avoiding_first(1099, 3713);
    lemma_avoiding_step(3264, 3713, 2);
    lemma_avoiding_step(3165, 3713, 3);
    lemma_avoiding_step(1837, 3713, 4);
    lemma_avoiding_step(2963, 3713, 5);
    lemma_avoiding_step(1229, 3713, 6);
    lemma_avoiding_step(816, 3713, 7);
    lemma_refuted_from(3713, 2, 29, 7, 816);
}

/// 3901 = 47 * 83 is no strong probable prime to the base 2.
pub proof fn lemma_refuted_3901()
    ensures
        !strong_probable_prime(3901, 2),
{
    lemma2_to64();
    lemma_squaring_step(2, 1, 3901, 1);
    lemma_squaring_step(2, 3, 3901, 2);
    lemma_squaring_step(2, 7, 3901, 8);
    lemma_squaring_step(2, 15, 3901, 128);
    lemma_squaring_step(2, 30, 3901, 1560);
    lemma_squaring_step(2, 60, 3901, 3277);
    lemma_squaring_step(2, 121, 3901, 3177);
    lemma_squaring_step(2, 243, 3901, 2884);
    lemma_squaring_step(2, 487, 3901, 1048);
    lemma_squaring_step(2, 975, 3901, 345);
    lemma_avoiding_first(119, 3901);
    lemma_avoiding_step(89, 3901, 2);
    lemma_refuted_from(3901, 2, 975, 2, 89);
}

/// 4183 = 47 * 89 is no strong probable prime to the base 2.
pub proof fn lemma_refuted_4183()
    ensures
        !strong_probable_prime(4183, 2),
{
    lemma2_to64();
    lemma_squaring_step(2, 1, 4183, 1);
    lemma_squaring_step(2, 2, 4183, 2);
    lemma_squaring_step(2, 4, 4183, 4);
    lemma_squaring_step(2, 8, 4183, 16);
    lemma_squaring_step(2, 16, 4183, 256);
    lemma_squaring_step(2, 32, 4183, 2791);
    lemma_squaring_step(2, 65, 4183, 935);
    lemma_squaring_step(2, 130, 4183, 4139);
    lemma_squaring_step(2, 261, 4183, 1936);
    lemma_squaring_step(2, 522, 4183, 256);
    lemma_squaring_step(2, 1045, 4183, 2791);
    lemma_squaring_step(2, 2091, 4183, 1870);
    lemma_avoiding_first(4007, 4183);
    lemma_refuted_from(4183, 2, 2091, 1, 4007);
}

/// 4559 = 47 * 97 is no strong probable prime to the base 2.
pub proof fn lemma_refuted_4559()
    ensures
        !strong_probable_prime(4559, 2),
{
    lemma2_to64();
    lemma_squaring_step(2, 1, 4559, 1);
    lemma_squaring_step(2, 2, 4559, 2);
    lemma_squaring_step(2, 4, 4559, 4);
    lemma_squaring_step(2, 8, 4559, 16);
    lemma_squaring_step(2, 17, 4559, 256);
    lemma_squaring_step(2, 35, 4559, 3420);
    lemma_squaring_step(2, 71, 4559, 571);
    lemma_squaring_step(2, 142, 4559, 145);
    lemma_squaring_step(2, 284, 4559, 2789);
    lemma_squaring_step(2, 569, 4559, 867);
    lemma_squaring_step(2, 1139, 4559, 3467);
    lemma_squaring_step(2, 2279, 4559, 571);
    lemma_avoiding_first(145, 4559);
    lemma_refuted_from(4559, 2, 2279, 1, 145);
}

/// 4747 = 47 * 101 is no strong probable prime to the base 2.
pub proof fn lemma_refuted_4747()
    ensures
        !strong_probable_prime(4747, 2),
{
    lemma2_to64();
    lemma_squaring_step(2, 1, 4747, 1);
    lemma_squaring_step(2, 2, 4747, 2);
    lemma_squaring_step(2, 4, 4747, 4);
    lemma_squaring_step(2, 9, 4747, 16);
    lemma_squaring_step(2, 18, 4747, 512);
    lemma_squaring_step(2, 37, 4747, 1059);
    lemma_squaring_step(2, 74, 4747, 2378);
    lemma_squaring_step(2, 148, 4747, 1207);
    lemma_squaring_step(2, 296, 4747, 4267);
    lemma_squaring_step(2, 593, 4747, 2544);
    lemma_squaring_step(2, 1186, 4747, 3550);
    lemma_squaring_step(2, 2373, 4747, 3962);
    lemma_avoiding_first(2977, 4747);
    lemma_refuted_from(4747, 2, 2373, 1, 2977);
}

/// 4841 = 47 * 103 is no strong probable prime to the base 2.
pub proof fn lemma_refuted_4841()
    ensures
        !strong_probable_prime(4841, 2),
{
    lemma2_to64();
    lemma_squaring_step(2, 1, 4841, 1);
    lemma_squaring_step(2, 2, 4841, 2);
    lemma_squaring_step(2, 4, 4841, 4);
    lemma_squaring_step(2, 9, 4841, 16);
    lemma_squaring_step(2, 18, 4841, 512);
    lemma_squaring_step(2, 37, 4841, 730);
    lemma_squaring_step(2, 75, 4841, 780);
    lemma_squaring_step(2, 151, 4841, 1709);
    lemma_squaring_step(2, 302, 4841, 3116);
    lemma_squaring_step(2, 605, 4841, 3251);
    lemma_avoiding_first(3275, 4841);
    lemma_avoiding_step(780, 4841, 2);
    lemma_avoiding_step(2196, 4841, 3);
    lemma_refuted_from(4841, 2, 605, 3, 2196);
}

/// 5029 = 47 * 107 is no strong probable prime to the base 2.
pub proof fn lemma_refuted_5029()
    ensures
        !strong_probable_prime(5029, 2),
{
    lemma2_to64();
    lemma_squaring_step(2, 1, 5029, 1);
    lemma_squaring_step(2, 2, 5029, 2);
    lemma_squaring_step(2, 4, 5029, 4);
    lemma_squaring_step(2, 9, 5029, 16);
    lemma_squaring_step(2, 19, 5029, 512);
    lemma_squaring_step(2, 39, 5029, 1272);
    lemma_squaring_step(2, 78, 5029, 2321);
    lemma_squaring_step(2, 157, 5029, 982);
    lemma_squaring_step(2, 314, 5029, 2541);
    lemma_squaring_step(2, 628, 5029, 4474);
    lemma_squaring_step(2, 1257, 5029, 1256);
    lemma_avoiding_first(2760, 5029);
    lemma_avoiding_step(1889, 5029, 2);
    lemma_refuted_from(5029, 2, 1257, 2, 1889);
}

/// 5123 = 47 * 109 is no strong probable prime to the base 2.
pub proof fn lemma_refuted_5123()
    ensures
        !strong_probable_prime(5123, 2),
{
    lemma2_to64();
    lemma_squaring_step(2, 1, 5123, 1);
    lemma_squaring_step(2, 2, 5123, 2);
    lemma_squaring_step(2, 5, 5123, 4);
    lemma_squaring_step(2, 10, 5123, 32);
    lemma_squaring_step(2, 20, 5123, 1024);
    lemma_squaring_step(2, 40, 5123, 3484);
    lemma_squaring_step(2, 80, 5123, 1869);
    lemma_squaring_step(2, 160, 5123, 4398);
    lemma_squaring_step(2, 320, 5123, 3079);
    lemma_squaring_step(2, 640, 5123, 2691);
    lemma_squaring_step(2, 1280, 5123, 2682);
    lemma_squaring_step(2, 2561, 5123, 432);
    lemma_avoiding_first(4392, 5123);
    lemma_refuted_from(5123, 2, 2561, 1, 4392);
}

/// 5311 = 47 * 113 is no strong probable prime to the base 2.
pub proof fn lemma_refuted_5311()
    ensures
        !strong_probable_prime(5311, 2),
{
    lemma2_to64();
    lemma_squaring_step(2, 1, 5311, 1);
    lemma_squaring_step(2, 2, 5311, 2);
    lemma_squaring_step(2, 5, 5311, 4);
    lemma_squaring_step(2, 10, 5311, 32);
    lemma_squaring_step(2, 20, 5311, 1024);
    lemma_squaring_step(2, 41, 5311, 2309);
    lemma_squaring_step(2, 82, 5311, 3785);
    lemma_squaring_step(2, 165, 5311, 2458);
    lemma_squaring_step(2, 331, 5311, 1003);
    lemma_squaring_step(2, 663, 5311, 4460);
    lemma_squaring_step(2, 1327, 5311, 3810);
    lemma_squaring_step(2, 2655, 5311, 2274);
    lemma_avoiding_first(1635, 5311);
    lemma_refuted_from(5311, 2, 2655, 1, 1635);
}

/// 5969 = 47 * 127 is no strong probable prime to the base 2.
pub proof fn lemma_refuted_5969()
    ensures
        !strong_probable_prime(5969, 2),
{
    lemma2_to64();
    lemma_squaring_step(2, 1, 5969, 1);
    lemma_squaring_step(2, 2, 5969, 2);
    lemma_squaring_step(2, 5, 5969, 4);
    lemma_squaring_step(2, 11, 5969, 32);
    lemma_squaring_step(2, 23, 5969, 2048);
    lemma_squaring_step(2, 46, 5969, 2163);
    lemma_squaring_step(2, 93, 5969, 4842);
    lemma_squaring_step(2, 186, 5969, 3433);
    lemma_squaring_step(2, 373, 5969, 2683);
    lemma_avoiding_first(4830, 5969);
    lemma_avoiding_step(5082, 5969, 2);
    lemma_avoiding_step(2810, 5969, 3);
    lemma_avoiding_step(5719, 5969, 4);
    lemma_refuted_from(5969, 2, 373, 4, 5719);
}

/// 6157 = 47 * 131 is no strong probable prime to the base 2.
pub proof fn lemma_refuted_6157()
    ensures
        !strong_probable_prime(6157, 2),
{
    lemma2_to64();
    lemma_squaring_step(2, 1, 6157, 1);
    lemma_squaring_step(2, 3, 6157, 2);
    lemma_squaring_step(2, 6, 6157, 8);
    lemma_squaring_step(2, 12, 6157, 64);
    lemma_squaring_step(2, 24, 6157, 4096);
    lemma_squaring_step(2, 48, 6157, 5548);
    lemma_squaring_step(2, 96, 6157, 1461);
    lemma_squaring_step(2, 192, 6157, 4199);
    lemma_squaring_step(2, 384, 6157, 4110);
    lemma_squaring_step(2, 769, 6157, 3449);
    lemma_squaring_step(2, 1539, 6157, 554);
    lemma_avoiding_first(4562, 6157);
    lemma_avoiding_step(4289, 6157, 2);
    lemma_refuted_from(6157, 2, 1539, 2, 4289);
}

/// 6439 = 47 * 137 is no strong probable prime to the base 2.
pub proof fn lemma_refuted_6439()
    ensures
        !strong_probable_prime(6439, 2),
{
    lemma2_to64();
    lemma_squaring_step(2, 1, 6439, 1);
    lemma_squaring_step(2, 3, 6439, 2);
    lemma_squaring_step(2, 6, 6439, 8);
    lemma_squaring_step(2, 12, 6439, 64);
    lemma_squaring_step(2, 25, 6439, 4096);
    lemma_squaring_step(2, 50, 6439, 803);
    lemma_squaring_step(2, 100, 6439, 909);
    lemma_squaring_step(2, 201, 6439, 2089);
    lemma_squaring_step(2, 402, 6439, 2997);
    lemma_squaring_step(2, 804, 6439, 6043);
    lemma_squaring_step(2, 1609, 6439, 2280);
    lemma_squaring_step(2, 3219, 6439, 4254);
    lemma_avoiding_first(5852, 6439);
    lemma_refuted_from(6439, 2, 3219, 1, 5852);
}

/// 6533 = 47 * 139 is no strong probable prime to the base 2.
pub proof fn lemma_refuted_6533()
    ensures
        !strong_probable_prime(6533, 2),
{
    lemma2_to64();
    lemma_squaring_step(2, 1, 6533, 1);
    lemma_squaring_step(2, 3, 6533, 2);
    lemma_squaring_step(2, 6, 6533, 8);
    lemma_squaring_step(2, 12, 6533, 64);
    lemma_squaring_step(2, 25, 6533, 4096);
    lemma_squaring_step(2, 51, 6533, 944);
    lemma_squaring_step(2, 102, 6533, 5296);
    lemma_squaring_step(2, 204, 6533, 1447);
    lemma_squaring_step(2, 408, 6533, 3249);
    lemma_squaring_step(2, 816, 6533, 5206);
    lemma_squaring_step(2, 1633, 6533, 3552);
    lemma_avoiding_first(6158, 6533);
    lemma_avoiding_step(2962, 6533, 2);
    lemma_refuted_from(6533, 2, 1633, 2, 2962);
}

/// 7003 = 47 * 149 is no strong probable prime to the base 2.
pub proof fn lemma_refuted_7003()
    ensures
        !strong_probable_prime(7003, 2),
{
    lemma2_to64();
    lemma_squaring_step(2, 1, 7003, 1);
    lemma_squaring_step(2, 3, 7003, 2);
    lemma_squaring_step(2, 6, 7003, 8);
    lemma_squaring_step(2, 13, 7003, 64);
    lemma_squaring_step(2, 27, 7003, 1189);
    lemma_squaring_step(2, 54, 7003, 5233);
    lemma_squaring_step(2, 109, 7003, 2559);
    lemma_squaring_step(2, 218, 7003, 1352);
    lemma_squaring_step(2, 437, 7003, 121);
    lemma_squaring_step(2, 875, 7003, 1270);
    lemma_squaring_step(2, 1750, 7003, 4420);
    lemma_squaring_step(2, 3501, 7003, 5033);
    lemma_avoiding_first(2476, 7003);
    lemma_refuted_from(7003, 2, 3501, 1, 2476);
}

/// 7097 = 47 * 151 is no strong probable prime to the base 2.
pub proof fn lemma_refuted_7097()
    ensures
        !strong_probable_prime(7097, 2),
{
    lemma2_to64();
    lemma_squaring_step(2, 1, 7097, 1);
    lemma_squaring_step(2, 3, 7097, 2);
    lemma_squaring_step(2, 6, 7097, 8);
    lemma_squaring_step(2, 13, 7097, 64);
    lemma_squaring_step(2, 27, 7097, 1095);
    lemma_squaring_step(2, 55, 7097, 6361);
    lemma_squaring_step(2, 110, 7097, 4648);
    lemma_squaring_step(2, 221, 7097, 636);
    lemma_squaring_step(2, 443, 7097, 7031);
    lemma_squaring_step(2, 887, 7097, 1615);
    lemma_avoiding_first(1615, 7097);
    lemma_avoiding_step(2734, 7097, 2);
    lemma_avoiding_step(155, 7097, 3);
    lemma_refuted_from(7097, 2, 887, 3, 155);
}

/// 7379 = 47 * 157 is no strong probable prime to the base 2.
pub proof fn lemma_refuted_7379()
    ensures
        !strong_probable_prime(7379, 2),
{
    lemma2_to64();
    lemma_squaring_step(2, 1, 7379, 1);
    lemma_squaring_step(2, 3, 7379, 2);
    lemma_squaring_step(2, 7, 7379, 8);
    lemma_squaring_step(2, 14, 7379, 128);
    lemma_squaring_step(2, 28, 7379, 1626);
    lemma_squaring_step(2, 57, 7379, 2194);
    lemma_squaring_step(2, 115, 7379, 5056);
    lemma_squaring_step(2, 230, 7379, 4560);
    lemma_squaring_step(2, 461, 7379, 6957);
    lemma_squaring_step(2, 922, 7379, 1976);
    lemma_squaring_step(2, 1844, 7379, 1085);
    lemma_squaring_step(2, 3689, 7379, 3964);
    lemma_avoiding_first(6810, 7379);
    lemma_refuted_from(7379, 2, 3689, 1, 6810);
}

/// 7661 = 47 * 163 is no strong probable prime to the base 2.
pub proof fn lemma_refuted_7661()
    ensures
        !strong_probable_prime(7661, 2),
{
    lemma2_to64();
    lemma_squaring_step(2, 1, 7661, 1);
    lemma_squaring_step(2, 3, 7661, 2);
    lemma_squaring_step(2, 7, 7661, 8);
    lemma_squaring_step(2, 14, 7661, 128);
    lemma_squaring_step(2, 29, 7661, 1062);
    lemma_squaring_step(2, 59, 7661, 3354);
    lemma_squaring_step(2, 119, 7661, 5936);
    lemma_squaring_step(2, 239, 7661, 6314);
    lemma_squaring_step(2, 478, 7661, 5165);
    lemma_squaring_step(2, 957, 7661, 1623);
    lemma_squaring_step(2, 1915, 7661, 5151);
    lemma_avoiding_first(4425, 7661);
    lemma_avoiding_step(5516, 7661, 2);
    lemma_refuted_from(7661, 2, 1915, 2, 5516);
}

/// 7849 = 47 * 167 is no strong probable prime to the base 2.
pub proof fn lemma_refuted_7849()
    ensures
        !strong_probable_prime(7849, 2),
{
    lemma2_to64();
    lemma_squaring_step(2, 1, 7849, 1);
    lemma_squaring_step(2, 3, 7849, 2);
    lemma_squaring_step(2, 7, 7849, 8);
    lemma_squaring_step(2, 15, 7849, 128);
    lemma_squaring_step(2, 30, 7849, 1372);
    lemma_squaring_step(2, 61, 7849, 6473);
    lemma_squaring_step(2, 122, 7849, 3534);
    lemma_squaring_step(2, 245, 7849, 1397);
    lemma_squaring_step(2, 490, 7849, 2265);
    lemma_squaring_step(2, 981, 7849, 4828);
    lemma_avoiding_first(4540, 7849);
    lemma_avoiding_step(6943, 7849, 2);
    lemma_avoiding_step(3957, 7849, 3);
    lemma_refuted_from(7849, 2, 981, 3, 3957);
}

/// 8131 = 47 * 173 is no strong probable prime to the base 2.
pub proof fn lemma_refuted_8131()
    ensures
        !strong_probable_prime(8131, 2),
{
    lemma2_to64();
    lemma_squaring_step(2, 1, 8131, 1);
    lemma_squaring_step(2, 3, 8131, 2);
    lemma_squaring_step(2, 7, 8131, 8);
    lemma_squaring_step(2, 15, 8131, 128);
    lemma_squaring_step(2, 31, 8131, 244);
    lemma_squaring_step(2, 63, 8131, 5238);
    lemma_squaring_step(2, 127, 8131, 5300);
    lemma_squaring_step(2, 254, 8131, 2921);
    lemma_squaring_step(2, 508, 8131, 2822);
    lemma_squaring_step(2, 1016, 8131, 3435);
    lemma_squaring_step(2, 2032, 8131, 1144);
    lemma_squaring_step(2, 4065, 8131, 7776);
    lemma_avoiding_first(8120, 8131);
    lemma_refuted_from(8131, 2, 4065, 1, 8120);
}

/// 8413 = 47 * 179 is no strong probable prime to the base 2.
pub proof fn lemma_refuted_8413()
    ensures
        !strong_probable_prime(8413, 2),
{
    lemma2_to64();
    lemma_squaring_step(2, 1, 8413, 1);
    lemma_squaring_step(2, 2, 8413, 2);
    lemma_squaring_step(2, 4, 8413, 4);
    lemma_squaring_step(2, 8, 8413, 16);
    lemma_squaring_step(2, 16, 8413, 256);
    lemma_squaring_step(2, 32, 8413, 6645);
    lemma_squaring_step(2, 65, 8413, 4601);
    lemma_squaring_step(2, 131, 8413, 4186);
    lemma_squaring_step(2, 262, 8413, 5047);
    lemma_squaring_step(2, 525, 8413, 6058);
    lemma_squaring_step(2, 1051, 8413, 3716);
    lemma_squaring_step(2, 2103, 8413, 5846);
    lemma_avoiding_first(6492, 8413);
    lemma_avoiding_step(4220, 8413, 2);
    lemma_refuted_from(8413, 2, 2103, 2, 4220);
}

/// 8507 = 47 * 181 is no strong probable prime to the base 2.
pub proof fn lemma_refuted_8507()
    ensures
        !strong_probable_prime(8507, 2),
{
    lemma2_to64();
    lemma_squaring_step(2, 1, 8507, 1);
    lemma_squaring_step(2, 2, 8507, 2);
    lemma_squaring_step(2, 4, 8507, 4);
    lemma_squaring_step(2, 8, 8507, 16);
    lemma_squaring_step(2, 16, 8507, 256);
    lemma_squaring_step(2, 33, 8507, 5987);
    lemma_squaring_step(2, 66, 8507, 8356);
    lemma_squaring_step(2, 132, 8507, 5787);
    lemma_squaring_step(2, 265, 8507, 5817);
    lemma_squaring_step(2, 531, 8507, 1793);
    lemma_squaring_step(2, 1063, 8507, 6913);
    lemma_squaring_step(2, 2126, 8507, 2993);
    lemma_squaring_step(2, 4253, 8507, 178);
    lemma_avoiding_first(3819, 8507);
    lemma_refuted_from(8507, 2, 4253, 1, 3819);
}

/// 8977 = 47 * 191 is no strong probable prime to the base 2.
pub proof fn lemma_refuted_8977()
    ensures
        !strong_probable_prime(8977, 2),
{
    lemma2_to64();
    lemma_squaring_step(2, 1, 8977, 1);
    lemma_squaring_step(2, 2, 8977, 2);
    lemma_squaring_step(2, 4, 8977, 4);
    lemma_squaring_step(2, 8, 8977, 16);
    lemma_squaring_step(2, 17, 8977, 256);
    lemma_squaring_step(2, 35, 8977, 5394);
    lemma_squaring_step(2, 70, 8977, 1558);
    lemma_squaring_step(2, 140, 8977, 3574);
    lemma_squaring_step(2, 280, 8977, 8182);
    lemma_squaring_step(2, 561, 8977, 3635);
    lemma_avoiding_first(7528, 8977);
    lemma_avoiding_step(6077, 8977, 2);
    lemma_avoiding_step(2892, 8977, 3);
    lemma_avoiding_step(7139, 8977, 4);
    lemma_refuted_from(8977, 2, 561, 4, 7139);
}

/// 9071 = 47 * 193 is no strong probable prime to the base 2.
pub proof fn lemma_refuted_9071()
    ensures
        !strong_probable_prime(9071, 2),
{
    lemma2_to64();
    lemma_squaring_step(2, 1, 9071, 1);
    lemma_squaring_step(2, 2, 9071, 2);
    lemma_squaring_step(2, 4, 9071, 4);
    lemma_squaring_step(2, 8, 9071, 16);
    lemma_squaring_step(2, 17, 9071, 256);
    lemma_squaring_step(2, 35, 9071, 4078);
    lemma_squaring_step(2, 70, 9071, 5882);
    lemma_squaring_step(2, 141, 9071, 1130);
    lemma_squaring_step(2, 283, 9071, 4849);
    lemma_squaring_step(2, 566, 9071, 1538);
    lemma_squaring_step(2, 1133, 9071, 6984);
    lemma_squaring_step(2, 2267, 9071, 2978);
    lemma_squaring_step(2, 4535, 9071, 3163);
    lemma_avoiding_first(7583, 9071);
    lemma_refuted_from(9071, 2, 4535, 1, 7583);
}

/// 9259 = 47 * 197 is no strong probable prime to the base 2.
pub proof fn lemma_refuted_9259()
    ensures
        !strong_probable_prime(9259, 2),
{
    lemma2_to64();
    lemma_squaring_step(2, 1, 9259, 1);
    lemma_squaring_step(2, 2, 9259, 2);
    lemma_squaring_step(2, 4, 9259, 4);
    lemma_squaring_step(2, 9, 9259, 16);
    lemma_squaring_step(2, 18, 9259, 512);
    lemma_squaring_step(2, 36, 9259, 2892);
    lemma_squaring_step(2, 72, 9259, 2787);
    lemma_squaring_step(2, 144, 9259, 8327);
    lemma_squaring_step(2, 289, 9259, 7537);
    lemma_squaring_step(2, 578, 9259, 4808);
    lemma_squaring_step(2, 1157, 9259, 6400);
    lemma_squaring_step(2, 2314, 9259, 5627);
    lemma_squaring_step(2, 4629, 9259, 6608);
    lemma_avoiding_first(440, 9259);
    lemma_refuted_from(9259, 2, 4629, 1, 440);
}

/// 9353 = 47 * 199 is no strong probable prime to the base 2.
pub proof fn lemma_refuted_9353()
    ensures
        !strong_probable_prime(9353, 2),
{
    lemma2_to64();
    lemma_squaring_step(2, 1, 9353, 1);
    lemma_squaring_step(2, 2, 9353, 2);
    lemma_squaring_step(2, 4, 9353, 4);
    lemma_squaring_step(2, 9, 9353, 16);
    lemma_squaring_step(2, 18, 9353, 512);
    lemma_squaring_step(2, 36, 9353, 260);
    lemma_squaring_step(2, 73, 9353, 2129);
    lemma_squaring_step(2, 146, 9353, 2225);
    lemma_squaring_step(2, 292, 9353, 2888);
    lemma_squaring_step(2, 584, 9353, 7021);
    lemma_squaring_step(2, 1169, 9353, 4131);
    lemma_avoiding_first(8917, 9353);
    lemma_avoiding_step(4145, 9353, 2);
    lemma_avoiding_step(1225, 9353, 3);
    lemma_refuted_from(9353, 2, 1169, 3, 1225);
}

/// 9917 = 47 * 211 is no strong probable prime to the base 2.
pub proof fn lemma_refuted_9917()
    ensures
        !strong_probable_prime(9917, 2),
{
    lemma2_to64();
    lemma_squaring_step(2, 1, 9917, 1);
    lemma_squaring_step(2, 2, 9917, 2);
    lemma_squaring_step(2, 4, 9917, 4);
    lemma_squaring_step(2, 9, 9917, 16);
    lemma_squaring_step(2, 19, 9917, 512);
    lemma_squaring_step(2, 38, 9917, 8604);
    lemma_squaring_step(2, 77, 9917, 8328);
    lemma_squaring_step(2, 154, 9917, 2089);
    lemma_squaring_step(2, 309, 9917, 441);
    lemma_squaring_step(2, 619, 9917, 2199);
    lemma_squaring_step(2, 1239, 9917, 2127);
    lemma_squaring_step(2, 2479, 9917, 3954);
    lemma_avoiding_first(4761, 9917);
    lemma_avoiding_step(9848, 9917, 2);
    lemma_refuted_from(9917, 2, 2479, 2, 9848);
}

/// No product of 47 and a prime from 47 on, up to 10000, is a strong
/// probable prime to both of the bases 2 and 3.
pub proof fn lemma_products_of_47(q: nat)
    requires
        prime_from_37_to_270(q),
        q >= 47,
        47 * q <= 10000,
    ensures
        !strong_probable_prime(47 * q, 2) || !strong_probable_prime(47 * q, 3),
{
    if q == 47 {
        lemma_refuted_2209();
    } else if q == 53 {
        lemma_refuted_2491();
    } else if q == 59 {
        lemma_refuted_2773();
    } else if q == 61 {
        lemma_refuted_2867();
    } else if q == 67 {
        lemma_refuted_3149();
    } else if q == 71 {
        lemma_refuted_3337();
    } else if q == 73 {
        lemma_refuted_3431();
    } else if q == 79 {
        lemma_refuted_3713();
    } else if q == 83 {
        lemma_refuted_3901();
    } else if q == 89 {
        lemma_refuted_4183();
    } else if q == 97 {
        lemma_refuted_4559();
    } else if q == 101 {
        lemma_refuted_4747();
    } else if q == 103 {
        lemma_refuted_4841();
    } else if q == 107 {
        lemma_refuted_5029();
    } else if q == 109 {
        lemma_refuted_5123();
    } else if q == 113 {
        lemma_refuted_5311();
    } else if q == 127 {
        lemma_refuted_5969();
    } else if q == 131 {
        lemma_refuted_6157();
    } else if q == 137 {
        lemma_refuted_6439();
    } else if q == 139 {
        lemma_refuted_6533();
    } else if q == 149 {
        lemma_refuted_7003();
    } else if q == 151 {
        lemma_refuted_7097();
    } else if q == 157 {
        lemma_refuted_7379();
    } else if q == 163 {
        lemma_refuted_7661();
    } else if q == 167 {
        lemma_refuted_7849();
    } else if q == 173 {
        lemma_refuted_8131();
    } else if q == 179 {
        lemma_refuted_8413();
    } else if q == 181 {
        lemma_refuted_8507();
    } else if q == 191 {
        lemma_refuted_8977();
    } else if q == 193 {
        lemma_refuted_9071();
    } else if q == 197 {
        lemma_refuted_9259();
    } else if q == 199 {
        lemma_refuted_9353();
    } else if q == 211 {
        lemma_refuted_9917();
    }
}

} // verus!
