use exercises::modular::{abs, gcd, mul_mod, pow};
use exercises::prime_factor::{
    find_max_prime_factor, find_max_prime_factor_with, FactorError,
};
use exercises::primality::{is_prime, TIP_PRIMES};
use exercises::rho::{pollards_rho, rho_attempt, simple_random, Entropy, SearchLimits};

fn trial_division_is_prime(n: u128) -> bool {
    if n < 2 {
        return false;
    }
    let mut d = 2;
    while d * d <= n {
        if n % d == 0 {
            return false;
        }
        d += 1;
    }
    true
}

fn trial_division_max_factor(mut n: u128) -> u128 {
    let mut best = 0;
    let mut d = 2;
    while d * d <= n {
        while n % d == 0 {
            best = d;
            n /= d;
        }
        d += 1;
    }
    if n > 1 {
        best = n;
    }
    best
}

#[test]
fn test_pow() {
    assert_eq!(pow(10, 2, 9), 1);
    assert_eq!(pow(2, 10, 13), 10);
    assert_eq!(pow(3, 5, 7), 5);
    assert_eq!(pow(5, 10, 17), 9);
}

#[test]
fn test_is_prime() {
    assert!(is_prime(2));
    assert!(is_prime(3));
    assert!(!is_prime(4));
    assert!(is_prime(5));
    assert!(is_prime(29));
    assert!(!is_prime(33));
    assert!(is_prime(9523809523809521497));
    assert!(!is_prime(1234169));
}

#[test]
fn test_find_max_prime_factor1() {
    assert_eq!(find_max_prime_factor(10), Ok(5));
}

#[test]
fn test_find_max_prime_factor2() {
    assert_eq!(find_max_prime_factor(13195), Ok(29));
}

#[test]
fn test_find_max_prime_factor3() {
    assert_eq!(find_max_prime_factor(600851475143), Ok(6857));
}

#[test]
fn test_find_max_prime_factor4() {
    assert_eq!(
        find_max_prime_factor(97993999919999958437),
        Ok(203729729563409477)
    );
}

#[test]
fn is_prime_agrees_with_trial_division_up_to_ten_thousand() {
    for n in 2..=10000u128 {
        assert_eq!(is_prime(n), trial_division_is_prime(n), "n = {}", n);
    }
}

#[test]
fn is_prime_rejects_numbers_below_two() {
    assert!(!is_prime(0));
    assert!(!is_prime(1));
}

#[test]
fn is_prime_accepts_every_witness_and_a_large_prime() {
    for p in TIP_PRIMES {
        assert!(is_prime(p));
    }
    // 2^89 - 1 is a Mersenne prime beyond 64 bits.
    assert!(is_prime((1u128 << 89) - 1));
    // 2^127 - 1 as well.
    assert!(is_prime(u128::MAX >> 1));
}

#[test]
fn is_prime_rejects_products_of_two_witnesses() {
    for p in TIP_PRIMES {
        for q in TIP_PRIMES {
            assert!(!is_prime(p * q), "{} * {}", p, q);
        }
    }
}

#[test]
fn is_prime_rejects_strong_pseudoprimes_to_base_two() {
    // Both pass the test to base 2 alone, and have no factor in the witness set.
    assert!(!is_prime(4033));
    assert!(!is_prime(8321));
    // A product of two large primes.
    assert!(!is_prime(1000000007 * 998244353));
}

#[test]
fn max_factor_agrees_with_trial_division_on_composites() {
    let mut entropy = Entropy::from_seed(20240229);
    let limits = SearchLimits::standard();
    for n in 2..=20000u128 {
        if trial_division_is_prime(n) {
            continue;
        }
        let p = find_max_prime_factor_with(n, &mut entropy, &limits).unwrap();
        assert_eq!(p, trial_division_max_factor(n), "n = {}", n);
        assert_eq!(n % p, 0);
    }
    for n in 999000..=1000000u128 {
        let p = find_max_prime_factor_with(n, &mut entropy, &limits).unwrap();
        assert_eq!(p, trial_division_max_factor(n), "n = {}", n);
    }
}

#[test]
fn max_factor_of_a_prime_is_the_prime() {
    assert_eq!(find_max_prime_factor(2), Ok(2));
    assert_eq!(find_max_prime_factor(31), Ok(31));
    assert_eq!(find_max_prime_factor(6857), Ok(6857));
    assert_eq!(find_max_prime_factor((1u128 << 89) - 1), Ok((1u128 << 89) - 1));
}

#[test]
fn max_factor_rejects_numbers_below_two() {
    assert_eq!(find_max_prime_factor(0), Err(FactorError::InvalidInput));
    assert_eq!(find_max_prime_factor(1), Err(FactorError::InvalidInput));
    let mut entropy = Entropy::from_seed(7);
    let limits = SearchLimits::standard();
    assert_eq!(
        find_max_prime_factor_with(1, &mut entropy, &limits),
        Err(FactorError::InvalidInput)
    );
    assert_eq!(entropy.state, 7);
}

#[test]
fn max_factor_gives_up_within_its_limits() {
    // 1369 = 37 * 37 has no factor among 2, 3 and 5, and no attempt is allowed.
    let mut entropy = Entropy::from_seed(1);
    let limits = SearchLimits { attempts: 0, steps: 1000 };
    assert_eq!(
        find_max_prime_factor_with(1369, &mut entropy, &limits),
        Err(FactorError::Exhausted)
    );
    let limits = SearchLimits { attempts: 5, steps: 0 };
    assert_eq!(
        find_max_prime_factor_with(1369, &mut entropy, &limits),
        Err(FactorError::Exhausted)
    );
    // Within the fast path no draw is needed.
    let limits = SearchLimits { attempts: 0, steps: 0 };
    assert_eq!(find_max_prime_factor_with(1500, &mut entropy, &limits), Ok(5));
}

#[test]
fn max_factor_is_the_same_for_the_same_seed() {
    let limits = SearchLimits::standard();
    let n = 600851475143u128 * 1000003;
    let mut first = Entropy::from_seed(42);
    let mut second = Entropy::from_seed(42);
    let a = find_max_prime_factor_with(n, &mut first, &limits);
    let b = find_max_prime_factor_with(n, &mut second, &limits);
    assert_eq!(a, Ok(1000003));
    assert_eq!(a, b);
    assert_eq!(first.state, second.state);
}

#[test]
fn error_messages_describe_the_failure() {
    assert_eq!(FactorError::InvalidInput.message(), "the number must be at least 2");
    assert_eq!(
        FactorError::Exhausted.message(),
        "factorization attempt exhausted, retry"
    );
}

#[test]
fn mul_mod_matches_wide_multiplication() {
    assert_eq!(mul_mod(7, 8, 5), 1);
    assert_eq!(mul_mod(0, 8, 5), 0);
    assert_eq!(mul_mod(123456789, 987654321, 1000000007), 259106859);
    // Products that do not fit in 128 bits.
    let m = u128::MAX;
    assert_eq!(mul_mod(m - 1, m - 1, m), 1);
    assert_eq!(mul_mod(m - 1, 2, m), m - 2);
    assert_eq!(mul_mod(m, m, m), 0);
    let p = (1u128 << 127) - 1;
    // 2^127 = 1 modulo p, so 2^64 * 2^64 = 2^128 = 2.
    assert_eq!(mul_mod(1 << 64, 1 << 64, p), 2);
    assert_eq!(mul_mod(1 << 100, 1 << 100, p), 1 << 73);
    assert_eq!(mul_mod(p - 1, p - 1, p), 1);
    // (2^127 + 1)^2 = 2^254 + 2^128 + 1, and 2^128 is 1 modulo 2^128 - 1.
    assert_eq!(mul_mod((1 << 127) + 1, (1 << 127) + 1, m), (1 << 126) + 2);
    assert_eq!(mul_mod(m, m, 1), 0);
}

#[test]
fn pow_is_zero_modulo_one() {
    for x in [0u128, 1, 2, 97, u128::MAX] {
        for e in [0u128, 1, 2, 1000, u128::MAX] {
            assert_eq!(pow(x, e, 1), 0);
        }
    }
}

#[test]
fn pow_handles_wide_operands() {
    let p = (1u128 << 127) - 1;
    assert_eq!(pow(2, 127, p), 1);
    assert_eq!(pow(3, p - 1, p), 1);
    assert_eq!(pow(5, 0, 7), 1);
    assert_eq!(pow(0, 0, 7), 1);
    assert_eq!(pow(0, 5, 7), 0);
    assert_eq!(pow(u128::MAX, 2, u128::MAX), 0);
}

#[test]
fn gcd_of_zero_and_of_equal_arguments() {
    for v in [0u128, 1, 2, 12, 1 << 100, u128::MAX] {
        assert_eq!(gcd(0, v), v);
        assert_eq!(gcd(v, 0), v);
        assert_eq!(gcd(v, v), v);
    }
}

#[test]
fn gcd_values() {
    assert_eq!(gcd(12, 18), 6);
    assert_eq!(gcd(18, 12), 6);
    assert_eq!(gcd(17, 31), 1);
    assert_eq!(gcd(1 << 100, 1 << 90), 1 << 90);
    assert_eq!(gcd(48, 36), 12);
    assert_eq!(gcd(3 << 20, 5 << 17), 1 << 17);
    assert_eq!(gcd(u128::MAX, 3), 3);
    assert_eq!(gcd(600851475143, 6857 * 2), 6857);
}

#[test]
fn abs_is_the_distance() {
    assert_eq!(abs(3, 10), 7);
    assert_eq!(abs(10, 3), 7);
    assert_eq!(abs(5, 5), 0);
    assert_eq!(abs(0, u128::MAX), u128::MAX);
}

#[test]
fn simple_random_advances_the_state_and_stays_below_the_bound() {
    let mut entropy = Entropy::from_seed(1);
    let first = simple_random(&mut entropy, 1000);
    // One xorshift round on 1: 1 ^ (1 << 13) = 8193; 8193 ^ (8193 >> 7) = 8257;
    // 8257 ^ (8257 << 17) = 1082269761.
    assert_eq!(entropy.state, 1082269761);
    assert_eq!(first, 761);
    let mut previous = entropy.state;
    for _ in 0..100 {
        let r = simple_random(&mut entropy, 97);
        assert!(r < 97);
        assert_ne!(entropy.state, previous);
        assert_eq!(r, entropy.state % 97);
        previous = entropy.state;
    }
    let mut zero = Entropy::from_seed(0);
    assert_eq!(simple_random(&mut zero, 5), 0);
    assert_eq!(zero.state, 0);
}

#[test]
fn entropy_starts_from_the_reading_of_the_clock() {
    assert_eq!(Entropy::from_reading(Some(1700000000)).state, 1700000000);
    assert_eq!(Entropy::from_reading(Some(u64::MAX)).state, u64::MAX as u128);
    assert_eq!(Entropy::from_reading(Some(0)).state, 0);
    assert_eq!(Entropy::from_reading(None).state, 0);
    assert_eq!(Entropy::from_seed(42).state, 42);
}

#[test]
fn entropy_from_the_clock_fits_in_64_bits() {
    let entropy = Entropy::from_clock();
    assert!(entropy.state <= u64::MAX as u128);
    // The clock of any machine that runs this stands after the year 2001.
    assert!(entropy.state > 1_000_000_000);
}

#[test]
fn rho_fast_path_returns_two_three_or_five() {
    let limits = SearchLimits { attempts: 0, steps: 0 };
    let mut entropy = Entropy::from_seed(9);
    assert_eq!(pollards_rho(10, &mut entropy, &limits), Some(2));
    assert_eq!(pollards_rho(21, &mut entropy, &limits), Some(3));
    assert_eq!(pollards_rho(35, &mut entropy, &limits), Some(5));
    assert_eq!(pollards_rho(30, &mut entropy, &limits), Some(2));
    assert_eq!(pollards_rho(77, &mut entropy, &limits), None);
    assert_eq!(entropy.state, 9);
}

#[test]
fn rho_returns_a_proper_divisor() {
    let limits = SearchLimits::standard();
    let mut entropy = Entropy::from_seed(12345);
    for n in [77u128, 1369, 4033, 8321, 1000003 * 1000033, 600851475143] {
        let d = pollards_rho(n, &mut entropy, &limits).unwrap();
        assert!(1 < d && d < n, "n = {}, d = {}", n, d);
        assert_eq!(n % d, 0);
    }
}

#[test]
fn rho_attempt_follows_the_two_walkers() {
    // With c = 1 modulo 77 the slow walker visits 5, 26, ... and the fast
    // one 26, 23, ...: the distances 21 and 3 share 7 and 1 with 77.
    assert_eq!(rho_attempt(77, 1, 10), Some(7));
    assert_eq!(rho_attempt(77, 1, 1), Some(7));
    assert_eq!(rho_attempt(77, 1, 0), None);
    // With c = 0 modulo 7 both walkers meet at once: 4 and 16 = 2, then 2 and 2.
    assert_eq!(rho_attempt(7, 0, 10), None);
}

#[test]
fn numbers_that_split_without_a_draw_get_their_factor_within_any_limits() {
    let limits = SearchLimits { attempts: 0, steps: 0 };
    for seed in [0u64, 1, 77, u64::MAX] {
        let mut entropy = Entropy::from_seed(seed);
        assert_eq!(find_max_prime_factor_with(10, &mut entropy, &limits), Ok(5));
        assert_eq!(find_max_prime_factor_with(4, &mut entropy, &limits), Ok(2));
        assert_eq!(find_max_prime_factor_with(6, &mut entropy, &limits), Ok(3));
        assert_eq!(find_max_prime_factor_with(15, &mut entropy, &limits), Ok(5));
        assert_eq!(find_max_prime_factor_with(30 * 30 * 29, &mut entropy, &limits), Ok(29));
        assert_eq!(find_max_prime_factor_with(1 << 100, &mut entropy, &limits), Ok(2));
        assert_eq!(find_max_prime_factor_with(2 * 6857, &mut entropy, &limits), Ok(6857));
        assert_eq!(entropy.state, seed as u128);
        // 7 * 11 needs a draw.
        assert_eq!(
            find_max_prime_factor_with(77, &mut entropy, &limits),
            Err(FactorError::Exhausted)
        );
    }
}
