//! Paying an amount in coins, largest denomination first.

use vstd::prelude::*;

verus! {

/// The denominations, from the largest to the smallest.
pub const DENOMINATIONS: [u32; 8] = [100, 50, 30, 20, 10, 5, 2, 1];

/// The `i`-th denomination.
pub open spec fn denomination(i: int) -> nat {
    if i == 0 {
        100
    } else if i == 1 {
        50
    } else if i == 2 {
        30
    } else if i == 3 {
        20
    } else if i == 4 {
        10
    } else if i == 5 {
        5
    } else if i == 6 {
        2
    } else {
        1
    }
}

/// How many coins pay `amount` when only the denominations from the `i`-th
/// on are used, and each is used as often as it fits before the next
/// smaller one is tried.
pub open spec fn greedy_coins(amount: nat, i: int) -> nat
    decreases 8 - i,
{
    if i < 0 || i >= 8 {
        0
    } else {
        amount / denomination(i) + greedy_coins(amount % denomination(i), i + 1)
    }
}

/// Once nothing is left to pay, no further coin is used.
pub proof fn lemma_nothing_left(i: int)
    ensures
        greedy_coins(0, i) == 0,
    decreases 8 - i,
{
    if 0 <= i < 8 {
        lemma_nothing_left(i + 1);
    }
}

/// An amount that is itself a denomination is paid with one coin.
pub proof fn lemma_one_coin(i: int)
    requires
        0 <= i < 8,
    ensures
        greedy_coins(denomination(i), 0) == 1,
{
    lemma_nothing_left(1);
    assert(greedy_coins(100, 0) == 1);
    lemma_nothing_left(2);
    assert(greedy_coins(50, 1) == 1);
    assert(greedy_coins(50, 0) == 1);
    lemma_nothing_left(3);
    assert(greedy_coins(30, 2) == 1);
    assert(greedy_coins(30, 1) == 1);
    assert(greedy_coins(30, 0) == 1);
    lemma_nothing_left(4);
    assert(greedy_coins(20, 3) == 1);
    assert(greedy_coins(20, 2) == 1);
    assert(greedy_coins(20, 1) == 1);
    assert(greedy_coins(20, 0) == 1);
    lemma_nothing_left(5);
    assert(greedy_coins(10, 4) == 1);
    assert(greedy_coins(10, 3) == 1);
    assert(greedy_coins(10, 2) == 1);
    assert(greedy_coins(10, 1) == 1);
    assert(greedy_coins(10, 0) == 1);
    lemma_nothing_left(6);
    assert(greedy_coins(5, 5) == 1);
    assert(greedy_coins(5, 4) == 1);
    assert(greedy_coins(5, 3) == 1);
    assert(greedy_coins(5, 2) == 1);
    assert(greedy_coins(5, 1) == 1);
    assert(greedy_coins(5, 0) == 1);
    lemma_nothing_left(7);
    assert(greedy_coins(2, 6) == 1);
    assert(greedy_coins(2, 5) == 1);
    assert(greedy_coins(2, 4) == 1);
    assert(greedy_coins(2, 3) == 1);
    assert(greedy_coins(2, 2) == 1);
    assert(greedy_coins(2, 1) == 1);
    assert(greedy_coins(2, 0) == 1);
    lemma_nothing_left(8);
    assert(greedy_coins(1, 7) == 1);
    assert(greedy_coins(1, 6) == 1);
    assert(greedy_coins(1, 5) == 1);
    assert(greedy_coins(1, 4) == 1);
    assert(greedy_coins(1, 3) == 1);
    assert(greedy_coins(1, 2) == 1);
    assert(greedy_coins(1, 1) == 1);
    assert(greedy_coins(1, 0) == 1);
}

/// The number of coins that pay `amount`, largest denomination first.
///
/// No coin pays 0, and one coin pays an amount that is a denomination.
pub fn dp_rec_mc(amount: u32) -> (coins: u32)
    ensures
        coins == greedy_coins(amount as nat, 0),
        amount == 0 ==> coins == 0,
        (exists|i: int| 0 <= i < 8 && amount == denomination(i)) ==> coins == 1,
{
    proof {
        lemma_nothing_left(0);
        assert forall|i: int| 0 <= i < 8 && amount == denomination(i) implies greedy_coins(
            amount as nat,
            0,
        ) == 1 by {
            lemma_one_coin(i);
        }
    }
    if amount == 0 {
        return 0;
    }
    let mut left: u32 = amount;
    let mut result: u32 = 0;
    let mut i: usize = 0;
    while i < 8 && left > 0
        invariant
            i <= 8,
            forall|k: int| 0 <= k < 8 ==> (#[trigger] DENOMINATIONS[k]) == denomination(k),
            result + greedy_coins(left as nat, i as int) == greedy_coins(amount as nat, 0),
            i > 0 ==> left < denomination(i - 1),
            result + left <= amount,
        decreases 8 - i,
    {
        let coin: u32 = DENOMINATIONS[i];
        assert(left as nat / denomination(i as int) <= left);
        assert(coin * (left / coin) <= left) by (nonlinear_arith)
            requires
                coin > 0,
        ;
        result = result + left / coin;
        left = left % coin;
        i = i + 1;
    }
    proof {
        lemma_nothing_left(i as int);
    }
    result
}

} // verus!
