use exercises::coins::{dp_rec_mc, DENOMINATIONS};
use exercises::fibonacci::{odd_fibnacci_sum, MAX_THRESHOLD};

#[test]
fn no_coin_pays_nothing() {
    assert_eq!(dp_rec_mc(0), 0);
}

#[test]
fn one_coin_pays_a_denomination() {
    for coin in DENOMINATIONS {
        assert_eq!(dp_rec_mc(coin), 1);
    }
}

#[test]
fn coins_are_counted_largest_first() {
    assert_eq!(dp_rec_mc(3), 2);
    assert_eq!(dp_rec_mc(4), 2);
    assert_eq!(dp_rec_mc(9), 3);
    assert_eq!(dp_rec_mc(40), 2);
    assert_eq!(dp_rec_mc(60), 2);
    assert_eq!(dp_rec_mc(90), 3);
    assert_eq!(dp_rec_mc(99), 6);
    assert_eq!(dp_rec_mc(188), 6);
    assert_eq!(dp_rec_mc(1000), 10);
    // 42949672 coins of 100, then 50 + 30 + 10 + 5.
    assert_eq!(dp_rec_mc(u32::MAX), 42949676);
}

#[test]
fn odd_fibonacci_sums() {
    assert_eq!(odd_fibnacci_sum(0), 0);
    assert_eq!(odd_fibnacci_sum(1), 0);
    // 1 + 1
    assert_eq!(odd_fibnacci_sum(2), 2);
    assert_eq!(odd_fibnacci_sum(3), 2);
    // 1 + 1 + 3
    assert_eq!(odd_fibnacci_sum(4), 5);
    assert_eq!(odd_fibnacci_sum(5), 5);
    assert_eq!(odd_fibnacci_sum(6), 10);
    assert_eq!(odd_fibnacci_sum(20), 23);
    assert_eq!(odd_fibnacci_sum(100), 188);
    assert_eq!(odd_fibnacci_sum(1000), 1785);
    assert_eq!(odd_fibnacci_sum(4000000), 4613732);
}

#[test]
fn odd_fibonacci_sum_at_the_largest_threshold() {
    assert_eq!(MAX_THRESHOLD, 2971215073);
    assert_eq!(odd_fibnacci_sum(MAX_THRESHOLD), 3321919439);
    assert_eq!(odd_fibnacci_sum(1836311903), 1485607536);
    assert_eq!(odd_fibnacci_sum(1836311904), 3321919439);
}
