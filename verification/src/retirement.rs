//! When a worker retires under the rule that, from 2025 on, delays
//! retirement by some months for every year by which the former retirement
//! age is reached later.

use vstd::prelude::*;
use vstd::string::*;

use crate::text::{
    chars_of, decimal, decimal_digits, parse_number, pieces_view, read_number, split, split_chars,
    string_of,
};

verus! {

/// The year in which the delay of retirement begins.
pub const DELAY_STRATEGY_START_YEAR: i32 = 2025;

/// The rule for a kind of worker: the former retirement age in years, the
/// number of months of later birth for which retirement is delayed by one
/// month, and the longest delay in months.
pub open spec fn strategy(kind: Seq<char>) -> Option<(int, int, int)> {
    if kind == "男职工"@ {
        Some((60, 4, 36))
    } else if kind == "原法定退休年龄50周岁女职工"@ {
        Some((50, 2, 60))
    } else if kind == "原法定退休年龄55周岁女职工"@ {
        Some((55, 4, 36))
    } else {
        None
    }
}

/// The rule for a kind of worker, where the kind is known.
pub fn strategy_of(kind: &str) -> (r: Option<(i32, i32, i32)>)
    ensures
        match r {
            Some(rule) => strategy(kind@) == Some((rule.0 as int, rule.1 as int, rule.2 as int)),
            None => strategy(kind@) is None,
        },
{
    let kind = String::from_str(kind);
    if kind == String::from_str("男职工") {
        Some((60, 4, 36))
    } else if kind == String::from_str("原法定退休年龄50周岁女职工") {
        Some((50, 2, 60))
    } else if kind == String::from_str("原法定退休年龄55周岁女职工") {
        Some((55, 4, 36))
    } else {
        None
    }
}

/// The year and the month that a text of the form `year-month` names: both
/// an optional plus sign and decimal digits, the year not above the largest
/// signed 32-bit value and the month not above the largest unsigned one.
/// What follows a second `-` is not read.
pub open spec fn read_birth(text: Seq<char>) -> Option<(int, int)> {
    let pieces = split(text, '-');
    if pieces.len() < 2 {
        None
    } else {
        match (read_number(pieces[0], 2147483647), read_number(pieces[1], 4294967295)) {
            (Some(year), Some(month)) => Some((year as int, month as int)),
            _ => None,
        }
    }
}

/// Reads a year and a month of the form `year-month`.
pub fn parse_date(date_str: &str) -> (r: Option<(i32, u32)>)
    ensures
        match r {
            Some(date) => read_birth(date_str@) == Some((date.0 as int, date.1 as int)),
            None => read_birth(date_str@) is None,
        },
{
    let chars = chars_of(date_str);
    let pieces = split_chars(&chars, '-');
    if pieces.len() < 2 {
        return None;
    }
    proof {
        let plain = pieces_view(pieces@);
        assert(plain[0] == pieces[0]@);
        assert(plain[1] == pieces[1]@);
    }
    let year = parse_number(&pieces[0], 2147483647);
    let month = parse_number(&pieces[1], 4294967295);
    match (year, month) {
        (Some(y), Some(m)) => Some((y as i32, m as u32)),
        _ => None,
    }
}

/// The year and the month that lie `months` months after the given ones,
/// where the months are counted from 1.
pub open spec fn months_later(year: int, month: int, months: int) -> (int, int) {
    let m = month + months;
    (year + (m - 1) / 12, (m - 1) % 12 + 1)
}

/// Moves a year and a month forward by `months` months.
pub fn add_months(date: (i32, u32), months: i32) -> (r: (i32, u32))
    requires
        date.1 <= i32::MAX,
        1 <= date.1 + months <= i32::MAX,
        date.0 + (date.1 + months - 1) / 12 <= i32::MAX,
        date.0 + (date.1 + months - 1) / 12 >= i32::MIN,
    ensures
        (r.0 as int, r.1 as int) == months_later(date.0 as int, date.1 as int, months as int),
        1 <= r.1 <= 12,
{
    let mut year: i32 = date.0;
    let mut month: i32 = date.1 as i32;
    month = month + months;
    year = year + (month - 1) / 12;
    month = (month - 1) % 12 + 1;
    (year, month as u32)
}

/// By how many months retirement is delayed for a worker born in `month`
/// of `year`: none where the former retirement age is reached before 2025;
/// otherwise one month for every `ratio` months from the fourth month before
/// 2025 to the month in which that age is reached, up to `cap` months.
pub open spec fn delay_months(year: int, month: int, age: int, ratio: int, cap: int) -> int {
    if year + age < 2025 {
        0
    } else {
        let months = (year + age - 2025) * 12 + (month + 3);
        if months / ratio < cap {
            months / ratio
        } else {
            cap
        }
    }
}

/// The delay of retirement in months.
pub fn calculate_delay_months(
    birth_date: (i32, u32),
    former_retirement_age: i32,
    delay_ratio: i32,
    max_delay_months: i32,
) -> (delay: i32)
    requires
        delay_ratio > 0,
        i32::MIN <= birth_date.0 + former_retirement_age <= i32::MAX,
        birth_date.0 + former_retirement_age >= 2025 ==> (birth_date.0 + former_retirement_age
            - 2025) * 12 + (birth_date.1 + 3) <= i32::MAX,
    ensures
        delay == delay_months(
            birth_date.0 as int,
            birth_date.1 as int,
            former_retirement_age as int,
            delay_ratio as int,
            max_delay_months as int,
        ),
{
    let retirement_year: i32 = birth_date.0 + former_retirement_age;
    let delay_start_year: i32 = DELAY_STRATEGY_START_YEAR;
    if retirement_year < delay_start_year {
        return 0;
    }
    let years_after_2025: i32 = retirement_year - delay_start_year;
    let months_after_2025: i32 = years_after_2025 * 12 + (birth_date.1 as i32 + 3);
    let delay: i32 = months_after_2025 / delay_ratio;
    if delay < max_delay_months {
        delay
    } else {
        max_delay_months
    }
}

/// A number below 100 in two digits.
pub open spec fn two_digits(n: nat) -> Seq<char> {
    if n < 10 {
        seq!['0'] + decimal(n)
    } else {
        decimal(n)
    }
}

/// An age of `years` years and `months` months, in years: the whole years
/// alone where no month is over, else with the months as hundredths of a
/// year, rounded to the nearest.
pub open spec fn age_text(years: nat, months: nat) -> Seq<char> {
    let whole = years + months / 12;
    let hundredths = (100 * (months % 12) + 6) / 12;
    if hundredths == 0 {
        decimal(whole)
    } else {
        decimal(whole) + seq!['.'] + two_digits(hundredths)
    }
}

/// What is said of the retirement of a worker born in `month` of `year`
/// under the rule `(age, ratio, cap)`: the year and the month of retirement,
/// the age at retirement and the months of delay.
pub open spec fn retirement_text(year: int, month: int, age: int, ratio: int, cap: int) -> Seq<char> {
    let delay = delay_months(year, month, age, ratio, cap);
    let retired = months_later(year, month, age * 12 + delay);
    decimal(retired.0 as nat) + seq!['-'] + two_digits(retired.1 as nat) + seq![','] + age_text(
        age as nat,
        delay as nat,
    ) + seq![','] + decimal(delay as nat)
}

/// Whether the retirement of a worker can be told: the text names a year
/// and a month, the kind of worker is known, and the month of retirement
/// can be counted within 32 bits.
pub open spec fn retirable(time: Seq<char>, kind: Seq<char>) -> bool {
    &&& read_birth(time) matches Some(birth)
    &&& strategy(kind) matches Some(rule)
    &&& birth.0 + rule.0 <= i32::MAX
    &&& birth.0 + rule.0 >= 2025 ==> (birth.0 + rule.0 - 2025) * 12 + birth.1 + 3 <= i32::MAX
    &&& birth.1 + rule.0 * 12 + delay_months(birth.0, birth.1, rule.0, rule.1, rule.2)
        <= i32::MAX
    &&& birth.0 + (birth.1 + rule.0 * 12 + delay_months(
        birth.0,
        birth.1,
        rule.0,
        rule.1,
        rule.2,
    ) - 1) / 12 <= i32::MAX
}

/// Appends the digits of `n`, with a zero before a single one.
fn push_two_digits(out: &mut Vec<char>, n: u32)
    ensures
        final(out)@ == old(out)@ + two_digits(n as nat),
{
    if n < 10 {
        out.push('0');
    }
    let mut digits = decimal_digits(n as u64);
    let ghost head = out@;
    let ghost tail = digits@;
    out.append(&mut digits);
    assert(out@ =~= head + tail);
    assert(out@ =~= old(out)@ + two_digits(n as nat));
}

/// Appends the digits of `n`.
fn push_number(out: &mut Vec<char>, n: u32)
    ensures
        final(out)@ == old(out)@ + decimal(n as nat),
{
    let mut digits = decimal_digits(n as u64);
    let ghost head = out@;
    let ghost tail = digits@;
    out.append(&mut digits);
    assert(out@ =~= head + tail);
}

/// Appends an age of `years` years and `months` months.
fn push_age(out: &mut Vec<char>, years: u32, months: u32)
    requires
        years <= 1000,
        months <= 1000,
    ensures
        final(out)@ == old(out)@ + age_text(years as nat, months as nat),
{
    let whole: u32 = years + months / 12;
    let hundredths: u32 = (100 * (months % 12) + 6) / 12;
    push_number(out, whole);
    if hundredths != 0 {
        let ghost head = out@;
        out.push('.');
        push_two_digits(out, hundredths);
        assert(out@ =~= head + (seq!['.'] + two_digits(hundredths as nat)));
        assert(out@ =~= old(out)@ + (decimal(whole as nat) + seq!['.'] + two_digits(
            hundredths as nat,
        )));
    }
}

/// Tells when a worker born in the month `time`, of the form `year-month`,
/// retires: the year and the month of retirement, the age at retirement in
/// years and the months of delay, as in `2026-08,55.33,4`.
pub fn retire_time(time: &str, tp: &str) -> (told: String)
    requires
        retirable(time@, tp@),
    ensures
        ({
            let birth = read_birth(time@).unwrap();
            let rule = strategy(tp@).unwrap();
            told@ == retirement_text(birth.0, birth.1, rule.0, rule.1, rule.2)
        }),
{
    let birth_date = parse_date(time).unwrap();
    let (former_retirement_age, delay_ratio, max_delay_months) = strategy_of(tp).unwrap();
    let delay_months: i32 = calculate_delay_months(
        birth_date,
        former_retirement_age,
        delay_ratio,
        max_delay_months,
    );
    let retirement_date = add_months(birth_date, former_retirement_age * 12 + delay_months);
    let mut out: Vec<char> = Vec::new();
    push_number(&mut out, retirement_date.0 as u32);
    out.push('-');
    push_two_digits(&mut out, retirement_date.1);
    out.push(',');
    let ghost head = out@;
    push_age(&mut out, former_retirement_age as u32, delay_months as u32);
    out.push(',');
    push_number(&mut out, delay_months as u32);
    proof {
        let birth = read_birth(time@).unwrap();
        let rule = strategy(tp@).unwrap();
        assert(out@ =~= retirement_text(birth.0, birth.1, rule.0, rule.1, rule.2));
    }
    string_of(&out)
}

/// Tells when a worker retires, or nothing where the month of birth cannot
/// be read, the kind of worker is not known, or the month of retirement
/// cannot be counted within 32 bits.
pub fn try_retire_time(time: &str, tp: &str) -> (told: Option<String>)
    ensures
        retirable(time@, tp@) ==> told is Some && ({
            let birth = read_birth(time@).unwrap();
            let rule = strategy(tp@).unwrap();
            told->Some_0@ == retirement_text(birth.0, birth.1, rule.0, rule.1, rule.2)
        }),
        !retirable(time@, tp@) ==> told is None,
{
    let birth = match parse_date(time) {
        Some(b) => b,
        None => {
            return None;
        },
    };
    let rule = match strategy_of(tp) {
        Some(r) => r,
        None => {
            return None;
        },
    };
    let year: i64 = birth.0 as i64;
    let month: i64 = birth.1 as i64;
    let age: i64 = rule.0 as i64;
    let ratio: i64 = rule.1 as i64;
    let cap: i64 = rule.2 as i64;
    let limit: i64 = 2147483647;
    if year + age > limit {
        return None;
    }
    let delay: i64 = if year + age < 2025 {
        0
    } else {
        let months: i64 = (year + age - 2025) * 12 + (month + 3);
        if months > limit {
            return None;
        }
        if months / ratio < cap {
            months / ratio
        } else {
            cap
        }
    };
    assert(delay == delay_months(year as int, month as int, age as int, ratio as int, cap as int));
    if month + age * 12 + delay > limit {
        return None;
    }
    if year + (month + age * 12 + delay - 1) / 12 > limit {
        return None;
    }
    Some(retire_time(time, tp))
}

} // verus!
