use exercises::retirement::{
    add_months, calculate_delay_months, parse_date, retire_time, strategy_of, try_retire_time,
};

#[test]
fn test_1971_04() {
    assert_eq!(
        retire_time("1971-04", "原法定退休年龄55周岁女职工"),
        "2026-08,55.33,4"
    );
}

#[test]
fn test_1965_01() {
    assert_eq!(retire_time("1965-01", "男职工",), "2025-02,60.08,1");
}

#[test]
fn retirement_without_delay() {
    assert_eq!(retire_time("1964-12", "男职工"), "2024-12,60,0");
    assert_eq!(retire_time("1960-05", "原法定退休年龄55周岁女职工"), "2015-05,55,0");
    assert_eq!(retire_time("1974-12", "原法定退休年龄50周岁女职工"), "2024-12,50,0");
}

#[test]
fn retirement_with_the_longest_delay() {
    assert_eq!(retire_time("2000-12", "男职工"), "2063-12,63,36");
    assert_eq!(retire_time("1995-12", "原法定退休年龄50周岁女职工"), "2050-12,55,60");
    assert_eq!(retire_time("2000-12", "原法定退休年龄55周岁女职工"), "2058-12,58,36");
}

#[test]
fn retirement_with_a_delay_of_whole_years() {
    assert_eq!(retire_time("1968-09", "男职工"), "2029-09,61,12");
    assert_eq!(retire_time("1976-09", "原法定退休年龄50周岁女职工"), "2027-09,51,12");
}

#[test]
fn retirement_age_is_written_as_the_decimal_fraction_would_be() {
    let kinds = [
        ("男职工", 60, 4, 36),
        ("原法定退休年龄50周岁女职工", 50, 2, 60),
        ("原法定退休年龄55周岁女职工", 55, 4, 36),
    ];
    for (kind, age, ratio, cap) in kinds {
        for year in 1950..2010 {
            for month in 1..=12u32 {
                let time = format!("{}-{:02}", year, month);
                let delay = calculate_delay_months((year, month), age, ratio, cap);
                let retired = add_months((year, month), age * 12 + delay);
                let years = age as f64 + delay as f64 / 12.0;
                let expected = format!(
                    "{}-{:02},{},{}",
                    retired.0,
                    retired.1,
                    format!("{:.2}", years).replace(".00", ""),
                    delay
                );
                assert_eq!(retire_time(&time, kind), expected);
            }
        }
    }
}

#[test]
fn delay_months_follow_the_rule() {
    assert_eq!(calculate_delay_months((1964, 12), 60, 4, 36), 0);
    assert_eq!(calculate_delay_months((1965, 1), 60, 4, 36), 1);
    assert_eq!(calculate_delay_months((1965, 5), 60, 4, 36), 2);
    assert_eq!(calculate_delay_months((1971, 4), 55, 4, 36), 4);
    assert_eq!(calculate_delay_months((1975, 1), 50, 2, 60), 2);
    assert_eq!(calculate_delay_months((2000, 1), 60, 4, 36), 36);
    assert_eq!(calculate_delay_months((1965, 0), 60, 4, 36), 0);
}

#[test]
fn months_are_added_across_years() {
    assert_eq!(add_months((2024, 12), 1), (2025, 1));
    assert_eq!(add_months((2024, 1), 11), (2024, 12));
    assert_eq!(add_months((2024, 1), 12), (2025, 1));
    assert_eq!(add_months((1971, 4), 664), (2026, 8));
    assert_eq!(add_months((2024, 5), 0), (2024, 5));
    assert_eq!(add_months((2024, 0), 1), (2024, 1));
}

#[test]
fn birth_months_are_read_from_text() {
    assert_eq!(parse_date("1971-04"), Some((1971, 4)));
    assert_eq!(parse_date("1971-04-15"), Some((1971, 4)));
    assert_eq!(parse_date("1971-04-"), Some((1971, 4)));
    assert_eq!(parse_date("+1971-+4"), Some((1971, 4)));
    assert_eq!(parse_date("2147483647-4294967295"), Some((i32::MAX, u32::MAX)));
    assert_eq!(parse_date("2147483648-1"), None);
    assert_eq!(parse_date("1-4294967296"), None);
    assert_eq!(parse_date("1971"), None);
    assert_eq!(parse_date("1971-"), None);
    assert_eq!(parse_date("-1971-04"), None);
    assert_eq!(parse_date("1971-4a"), None);
    assert_eq!(parse_date(""), None);
}

#[test]
fn kinds_of_workers_have_their_rules() {
    assert_eq!(strategy_of("男职工"), Some((60, 4, 36)));
    assert_eq!(strategy_of("原法定退休年龄50周岁女职工"), Some((50, 2, 60)));
    assert_eq!(strategy_of("原法定退休年龄55周岁女职工"), Some((55, 4, 36)));
    assert_eq!(strategy_of("女职工"), None);
    assert_eq!(strategy_of(""), None);
}

#[test]
fn retirement_is_told_where_it_can_be() {
    assert_eq!(try_retire_time("1965-01", "男职工"), Some("2025-02,60.08,1".to_string()));
    assert_eq!(try_retire_time("1965-01", "职工"), None);
    assert_eq!(try_retire_time("1965", "男职工"), None);
    assert_eq!(try_retire_time("1965-x", "男职工"), None);
    assert_eq!(try_retire_time("0-0", "男职工"), Some("59-12,60,0".to_string()));
    // The year of retirement does not fit in 32 bits.
    assert_eq!(try_retire_time("2147483647-01", "男职工"), None);
    assert_eq!(try_retire_time("2147483587-01", "男职工"), None);
    // The months do not fit in 32 bits.
    assert_eq!(try_retire_time("1900-2147483647", "男职工"), None);
    assert_eq!(try_retire_time("1900-4294967295", "男职工"), None);
    assert_eq!(
        try_retire_time("1900-2147482927", "男职工"),
        Some("178958870-07,60,0".to_string())
    );
}
