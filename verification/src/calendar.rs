//! Day counts in the Gregorian calendar, and a report on a day of the
//! years 2025 and 2026: its week, its weekday, and the days that are left
//! until the year ends, until the next Spring Festival and until work stops
//! for the next holiday.

use vstd::prelude::*;

use crate::text::{
    as_ints, chars_of, comma_join, comma_separated, parse_number, read_number, split, split_chars,
};

verus! {

/// A calendar date. The fields are not checked: a month beyond 12 has no
/// days, and a day may lie beyond the end of its month.
#[derive(Debug, Clone, Copy, PartialEq, Eq, Structural)]
pub struct Date {
    pub year: i32,
    pub month: i32,
    pub day: i32,
}

/// Whether `year` is a leap year.
pub open spec fn leap_year(year: int) -> bool {
    (year % 4 == 0 && year % 100 != 0) || year % 400 == 0
}

/// The number of days of `year`.
pub open spec fn year_length(year: int) -> int {
    if leap_year(year) {
        366
    } else {
        365
    }
}

/// The number of days of `month` in `year`; 0 where there is no such month.
pub open spec fn month_length(year: int, month: int) -> int {
    if month == 1 || month == 3 || month == 5 || month == 7 || month == 8 || month == 10 || month
        == 12 {
        31
    } else if month == 4 || month == 6 || month == 9 || month == 11 {
        30
    } else if month == 2 {
        if leap_year(year) {
            29
        } else {
            28
        }
    } else {
        0
    }
}

/// The number of days of `year` that lie before `month`.
pub open spec fn days_before_month(year: int, month: int) -> int
    decreases month,
{
    if month <= 1 {
        0
    } else {
        days_before_month(year, month - 1) + month_length(year, month - 1)
    }
}

/// The number of days of the years 1 to `year`, both included.
pub open spec fn days_through(year: int) -> int
    decreases year,
{
    if year <= 0 {
        0
    } else {
        days_through(year - 1) + year_length(year)
    }
}

/// The last year up to which days are counted from the year 1 directly.
pub const LAST_TABLE_YEAR: i32 = 2999;

/// The day count that stands for `year`: the days of the years 1 to `year`
/// up to the year 2999, and for a later year the count of 2999 and the days
/// of the years from 2999 to the one before `year`.
pub open spec fn cumulative_days(year: int) -> int {
    if year < 2999 {
        days_through(year)
    } else {
        days_through(2999) + (days_through(year - 1) - days_through(2998))
    }
}

/// The remainder of a division that rounds toward zero, by a positive divisor.
pub open spec fn rem_toward_zero(a: int, b: int) -> int {
    if a >= 0 {
        a % b
    } else {
        -((-a) % b)
    }
}

/// The quotient of a division that rounds toward zero, by a positive divisor.
pub open spec fn div_toward_zero(a: int, b: int) -> int {
    if a >= 0 {
        a / b
    } else {
        -((-a) / b)
    }
}

/// The days of the years 1 to `year` in closed form.
pub proof fn lemma_days_through(year: int)
    requires
        year >= 0,
    ensures
        days_through(year) == 365 * year + year / 4 - year / 100 + year / 400,
    decreases year,
{
    if year > 0 {
        lemma_days_through(year - 1);
    }
}

/// Months beyond the twelfth add no days.
pub proof fn lemma_days_before_late_month(year: int, month: int)
    requires
        month >= 13,
    ensures
        days_before_month(year, month) == days_before_month(year, 13),
    decreases month,
{
    if month > 13 {
        lemma_days_before_late_month(year, month - 1);
    }
}

/// The days before a month grow with the month, up to the length of the year.
pub proof fn lemma_days_before_month_bounds(year: int, month: int)
    ensures
        0 <= days_before_month(year, month) <= year_length(year),
        month <= 13 ==> days_before_month(year, month) <= 31 * (if month <= 1 {
            0
        } else {
            month - 1
        }),
    decreases month,
{
    if month > 13 {
        lemma_days_before_late_month(year, month);
        lemma_days_before_month_bounds(year, 13);
    } else if month > 1 {
        lemma_days_before_month_bounds(year, month - 1);
        reveal_with_fuel(days_before_month, 14);
    }
}

impl Date {
    /// The day of the year: 1 for the first of January.
    pub open spec fn ordinal(self) -> int {
        self.day + days_before_month(self.year as int, self.month as int)
    }

    /// The day count of the date, by which dates are compared and
    /// subtracted.
    pub open spec fn count(self) -> int {
        cumulative_days(self.year as int) + self.ordinal()
    }

    /// The weekday, from 1 for Monday to 7 for Sunday.
    pub open spec fn week_day(self) -> int {
        let w = rem_toward_zero(self.count() + 6, 7);
        if w == 0 {
            7
        } else {
            w
        }
    }

    /// The date with the given fields.
    pub fn new(year: i32, month: i32, day: i32) -> (d: Date)
        ensures
            d.year == year,
            d.month == month,
            d.day == day,
    {
        Date { year, month, day }
    }

    /// Whether the year of the date is a leap year.
    pub fn is_leap_year(&self) -> (b: bool)
        ensures
            b == leap_year(self.year as int),
    {
        (self.year % 4 == 0 && self.year % 100 != 0) || (self.year % 400 == 0)
    }

    /// The number of days of `month` in the year of the date.
    pub fn days_in_month(&self, month: i32) -> (n: i32)
        ensures
            n == month_length(self.year as int, month as int),
    {
        if month == 1 || month == 3 || month == 5 || month == 7 || month == 8 || month == 10
            || month == 12 {
            31
        } else if month == 4 || month == 6 || month == 9 || month == 11 {
            30
        } else if month == 2 {
            if self.is_leap_year() {
                29
            } else {
                28
            }
        } else {
            0
        }
    }

    /// The day of the year: the day of the month and the days of the months
    /// before it.
    pub fn day_of_year(&self) -> (n: i32)
        requires
            self.ordinal() <= i32::MAX,
        ensures
            n == self.ordinal(),
    {
        let mut days: i32 = self.day;
        let mut m: i32 = 1;
        proof {
            lemma_days_before_month_bounds(self.year as int, self.month as int);
        }
        while m < self.month && m <= 12
            invariant
                1 <= m <= 13,
                m <= self.month || m == 1,
                days == self.day + days_before_month(self.year as int, m as int),
                self.ordinal() <= i32::MAX,
                days_before_month(self.year as int, m as int) <= days_before_month(
                    self.year as int,
                    self.month as int,
                ),
            decreases 13 - m,
        {
            proof {
                lemma_days_before_step(self.year as int, m as int, self.month as int);
            }
            days = days + self.days_in_month(m);
            m = m + 1;
        }
        proof {
            if self.month >= 13 {
                lemma_days_before_late_month(self.year as int, self.month as int);
            }
        }
        days
    }

    /// The number of days of the year of the date.
    pub fn year_days(&self) -> (n: i32)
        ensures
            n == year_length(self.year as int),
    {
        if self.is_leap_year() {
            366
        } else {
            365
        }
    }

    /// Whether the day count of the date can be computed within 32 bits.
    pub open spec fn countable(self) -> bool {
        &&& self.year >= 1
        &&& self.ordinal() <= i32::MAX
        &&& cumulative_days(self.year as int) <= i32::MAX
        &&& i32::MIN <= self.count() <= i32::MAX
    }

    /// The day count of the date.
    pub fn total_days(&self) -> (n: i32)
        requires
            self.countable(),
        ensures
            n == self.count(),
    {
        let year: i64 = self.year as i64;
        proof {
            lemma_days_through(self.year as int);
            lemma_days_through(self.year - 1);
            lemma_days_through(2999);
            lemma_days_through(2998);
        }
        let before: i64 = if self.year < LAST_TABLE_YEAR {
            365 * year + year / 4 - year / 100 + year / 400
        } else {
            let last: i64 = year - 1;
            1095362 + (365 * last + last / 4 - last / 100 + last / 400) - 1094997
        };
        (before + self.day_of_year() as i64) as i32
    }

    /// The weekday of the date, from 1 for Monday to 7 for Sunday.
    pub fn weekday(&self) -> (w: i32)
        requires
            self.countable(),
            self.count() + 6 <= i32::MAX,
        ensures
            w == self.week_day(),
    {
        let weekday: i32 = (self.total_days() + 6) % 7;
        if weekday == 0 {
            7
        } else {
            weekday
        }
    }
}

/// One month more adds the length of a month, and the count never falls.
proof fn lemma_days_before_step(year: int, m: int, month: int)
    requires
        1 <= m <= 12,
        m < month,
    ensures
        days_before_month(year, m + 1) == days_before_month(year, m) + month_length(year, m),
        days_before_month(year, m + 1) <= days_before_month(year, month),
    decreases month - m,
{
    if m + 1 < month {
        if m + 1 <= 12 {
            lemma_days_before_step(year, m + 1, month);
        } else {
            lemma_days_before_late_month(year, month);
        }
    }
}

/// The `i`-th stretch of days without work, by its first and its last day.
pub open spec fn holiday(i: int) -> (Date, Date) {
    if i == 0 {
        (Date { year: 2025, month: 1, day: 1 }, Date { year: 2025, month: 1, day: 1 })
    } else if i == 1 {
        (Date { year: 2025, month: 1, day: 28 }, Date { year: 2025, month: 2, day: 4 })
    } else if i == 2 {
        (Date { year: 2025, month: 4, day: 4 }, Date { year: 2025, month: 4, day: 6 })
    } else if i == 3 {
        (Date { year: 2025, month: 5, day: 1 }, Date { year: 2025, month: 5, day: 6 })
    } else if i == 4 {
        (Date { year: 2025, month: 5, day: 31 }, Date { year: 2025, month: 6, day: 2 })
    } else if i == 5 {
        (Date { year: 2025, month: 10, day: 1 }, Date { year: 2025, month: 10, day: 8 })
    } else {
        (Date { year: 2026, month: 1, day: 1 }, Date { year: 2026, month: 1, day: 1 })
    }
}

/// The Spring Festival of 2025.
pub open spec fn first_festival() -> Date {
    Date { year: 2025, month: 1, day: 29 }
}

/// The Spring Festival of 2026.
pub open spec fn second_festival() -> Date {
    Date { year: 2026, month: 2, day: 17 }
}

/// The next Spring Festival after `date`, as far as they are known.
pub open spec fn festival_after(date: Date) -> Option<Date> {
    if first_festival().count() > date.count() {
        Some(first_festival())
    } else if second_festival().count() > date.count() {
        Some(second_festival())
    } else {
        None
    }
}

/// The days without work that follow `date`, where only the stretches from
/// the `i`-th on are looked at.
///
/// The first stretch that `date` lies in, or that begins on the day after
/// it, gives the days up to its last day. Where there is none, two days
/// follow a Friday and one a Saturday, and none any other day.
pub open spec fn days_off_from(date: Date, i: int) -> int
    decreases 7 - i,
{
    if i < 0 || i >= 7 {
        if date.week_day() == 5 {
            2
        } else if date.week_day() == 6 {
            1
        } else {
            0
        }
    } else {
        let (start, end) = holiday(i);
        if start.count() <= date.count() + 1 && date.count() <= end.count() {
            end.count() - date.count()
        } else {
            days_off_from(date, i + 1)
        }
    }
}

/// The day counts of the days that the calendar names.
pub proof fn lemma_named_days()
    ensures
        forall|i: int|
            0 <= i < 7 ==> (#[trigger] holiday(i)).0.countable() && holiday(i).1.countable(),
        holiday(0).0.count() == 739617 && holiday(0).1.count() == 739617,
        holiday(1).0.count() == 739644 && holiday(1).1.count() == 739651,
        holiday(2).0.count() == 739710 && holiday(2).1.count() == 739712,
        holiday(3).0.count() == 739737 && holiday(3).1.count() == 739742,
        holiday(4).0.count() == 739767 && holiday(4).1.count() == 739769,
        holiday(5).0.count() == 739890 && holiday(5).1.count() == 739897,
        holiday(6).0.count() == 739982 && holiday(6).1.count() == 739982,
        first_festival().countable() && first_festival().count() == 739645,
        second_festival().countable() && second_festival().count() == 740029,
{
    lemma_days_through(2025);
    lemma_days_through(2026);
    reveal_with_fuel(days_before_month, 14);
}

/// A date of the year 1 or later whose fields are not negative and whose day
/// count is below that of the Spring Festival of 2026 lies in a year up to
/// 2026, and all its counts fit in 32 bits with room to spare.
pub proof fn lemma_early_date(date: Date)
    requires
        date.year >= 1,
        date.month >= 0,
        date.day >= 0,
        date.count() < 740029,
    ensures
        date.year <= 2026,
        0 <= date.ordinal() < 740029,
        0 <= date.count(),
        date.countable(),
{
    lemma_days_before_month_bounds(date.year as int, date.month as int);
    lemma_days_through(date.year as int);
    lemma_days_through(date.year - 1);
    lemma_days_through(2999);
    lemma_days_through(2998);
}

/// The first and the last day of the `i`-th stretch of days without work.
fn holiday_at(i: usize) -> (h: (Date, Date))
    requires
        i < 7,
    ensures
        h == holiday(i as int),
{
    if i == 0 {
        (Date::new(2025, 1, 1), Date::new(2025, 1, 1))
    } else if i == 1 {
        (Date::new(2025, 1, 28), Date::new(2025, 2, 4))
    } else if i == 2 {
        (Date::new(2025, 4, 4), Date::new(2025, 4, 6))
    } else if i == 3 {
        (Date::new(2025, 5, 1), Date::new(2025, 5, 6))
    } else if i == 4 {
        (Date::new(2025, 5, 31), Date::new(2025, 6, 2))
    } else if i == 5 {
        (Date::new(2025, 10, 1), Date::new(2025, 10, 8))
    } else {
        (Date::new(2026, 1, 1), Date::new(2026, 1, 1))
    }
}

/// The days without work that follow `date`.
pub fn next_a_start(date: Date) -> (n: i32)
    requires
        date.countable(),
        date.count() + 6 <= i32::MAX,
    ensures
        n == days_off_from(date, 0),
{
    proof {
        lemma_named_days();
    }
    let today: i32 = date.total_days();
    let mut i: usize = 0;
    while i < 7
        invariant
            i <= 7,
            today == date.count(),
            date.countable(),
            date.count() + 6 <= i32::MAX,
            forall|k: int|
                0 <= k < 7 ==> (#[trigger] holiday(k)).0.countable() && holiday(k).1.countable(),
            forall|k: int| 0 <= k < 7 ==> (#[trigger] holiday(k)).1.count() <= 739982,
            days_off_from(date, 0) == days_off_from(date, i as int),
        decreases 7 - i,
    {
        let (start, end) = holiday_at(i);
        assert(holiday(i as int).0.countable());
        if start.total_days() <= today + 1 && today <= end.total_days() {
            return end.total_days() - today;
        }
        i = i + 1;
    }
    let weekday: i32 = date.weekday();
    if weekday == 5 {
        2
    } else if weekday == 6 {
        1
    } else {
        0
    }
}

impl Date {
    /// The date that a text of the form `year-month-day` names: three
    /// numbers, each an optional plus sign and decimal digits, none above
    /// the largest 32-bit value, with a `-` between them.
    pub open spec fn read(text: Seq<char>) -> Option<Date> {
        let pieces = split(text, '-');
        if pieces.len() != 3 {
            None
        } else {
            match (
                read_number(pieces[0], 2147483647),
                read_number(pieces[1], 2147483647),
                read_number(pieces[2], 2147483647),
            ) {
                (Some(year), Some(month), Some(day)) => Some(
                    Date { year: year as i32, month: month as i32, day: day as i32 },
                ),
                _ => None,
            }
        }
    }

    /// Reads a date of the form `year-month-day`.
    pub fn parse(text: &str) -> (r: Option<Date>)
        ensures
            r == Date::read(text@),
    {
        let chars = chars_of(text);
        let pieces = split_chars(&chars, '-');
        if pieces.len() != 3 {
            return None;
        }
        proof {
            let plain = crate::text::pieces_view(pieces@);
            assert(plain[0] == pieces[0]@);
            assert(plain[1] == pieces[1]@);
            assert(plain[2] == pieces[2]@);
        }
        let year = parse_number(&pieces[0], 2147483647);
        let month = parse_number(&pieces[1], 2147483647);
        let day = parse_number(&pieces[2], 2147483647);
        match (year, month, day) {
            (Some(y), Some(m), Some(d)) => Some(Date::new(y as i32, m as i32, d as i32)),
            _ => None,
        }
    }
}

/// The six numbers of the report on `date`, in order: the week of the year,
/// the weekday, the day of the year, the days left in the year, the days
/// until the next Spring Festival and the days without work that follow.
pub open spec fn report_numbers(date: Date) -> Seq<int> {
    let ordinal = date.ordinal();
    let festival = festival_after(date).unwrap_or(date);
    seq![
        div_toward_zero(ordinal, 7) + 1,
        date.week_day(),
        ordinal,
        year_length(date.year as int) - ordinal,
        festival.count() - date.count(),
        days_off_from(date, 0),
    ]
}

/// Whether the report on the date that `time` names can be given: the text
/// names a date of the year 1 or later that lies before the Spring Festival
/// of 2026.
pub open spec fn reportable(time: Seq<char>) -> bool {
    Date::read(time) matches Some(date) && date.year >= 1 && date.count()
        < second_festival().count()
}

/// The six numbers of the report on `date`.
fn gather(date: Date) -> (numbers: Vec<i32>)
    requires
        date.year >= 1,
        date.month >= 0,
        date.day >= 0,
        date.count() < second_festival().count(),
    ensures
        as_ints(numbers@) == report_numbers(date),
{
    proof {
        lemma_named_days();
        lemma_early_date(date);
    }
    let today: i32 = date.total_days();
    let first = Date::new(2025, 1, 29);
    let second = Date::new(2026, 2, 17);
    let days_until_spring_festival: i32 = if first.total_days() > today {
        first.total_days() - today
    } else {
        second.total_days() - today
    };
    let weekday: i32 = date.weekday();
    let week_number: i32 = week_of_year(date);
    let ordinal: i32 = date.day_of_year();
    let left: i32 = date.year_days() - ordinal;
    let days_off: i32 = next_a_start(date);
    let mut numbers: Vec<i32> = Vec::new();
    numbers.push(week_number);
    numbers.push(weekday);
    numbers.push(ordinal);
    numbers.push(left);
    numbers.push(days_until_spring_festival);
    numbers.push(days_off);
    assert(as_ints(numbers@) =~= report_numbers(date));
    numbers
}

/// The week of the year in which `date` lies: a week for every seven days
/// that have passed, counted from 1.
fn week_of_year(date: Date) -> (week: i32)
    requires
        1 <= date.year <= 2026,
        0 <= date.ordinal() < 740029,
    ensures
        week == div_toward_zero(date.ordinal(), 7) + 1,
{
    let new_year = Date::new(date.year, 1, 1);
    proof {
        lemma_days_through(date.year as int);
        lemma_days_through(date.year - 1);
        reveal_with_fuel(days_before_month, 2);
        assert(new_year.ordinal() == 1);
        assert(new_year.countable());
    }
    if new_year.weekday() == 0 {
        date.day_of_year() / 7
    } else {
        date.day_of_year() / 7 + 1
    }
}

/// The report on the day that `time` names, as six numbers with commas
/// between them: the week of the year, the weekday from 1 for Monday to 7
/// for Sunday, the day of the year, the days left in the year, the days until
/// the next Spring Festival and the days without work that follow the day.
pub fn time_info(time: &str) -> (report: String)
    requires
        reportable(time@),
    ensures
        report@ == comma_separated(report_numbers(Date::read(time@).unwrap())),
{
    let date: Date = Date::parse(time).unwrap();
    let numbers = gather(date);
    comma_join(&numbers)
}

/// The date that `time` names, if the report on it can be given.
pub fn reportable_date(time: &str) -> (r: Option<Date>)
    ensures
        reportable(time@) ==> r == Date::read(time@),
        !reportable(time@) ==> r is None,
{
    let date = match Date::parse(time) {
        Some(d) => d,
        None => {
            return None;
        },
    };
    if date.year < 1 || date.year > 2026 || date.day >= 740029 {
        proof {
            lemma_named_days();
            lemma_days_before_month_bounds(date.year as int, date.month as int);
            if date.year >= 1 {
                lemma_days_through(date.year as int);
                lemma_days_through(date.year - 1);
                lemma_days_through(2999);
                lemma_days_through(2998);
            }
        }
        return None;
    }
    proof {
        lemma_named_days();
        lemma_days_before_month_bounds(date.year as int, date.month as int);
        lemma_days_through(date.year as int);
    }
    if date.total_days() < 740029 {
        Some(date)
    } else {
        None
    }
}

/// The report on the day that `time` names, or nothing where the text
/// names no date of the year 1 or later that lies before the Spring
/// Festival of 2026.
pub fn try_time_info(time: &str) -> (report: Option<String>)
    ensures
        reportable(time@) ==> report is Some && report->Some_0@ == comma_separated(
            report_numbers(Date::read(time@).unwrap()),
        ),
        !reportable(time@) ==> report is None,
{
    match reportable_date(time) {
        Some(_) => Some(time_info(time)),
        None => None,
    }
}

impl Date {
    /// Whether the day count of the date can be computed within 32 bits.
    pub fn is_countable(&self) -> (r: bool)
        ensures
            r == self.countable(),
    {
        if self.year < 1 {
            return false;
        }
        proof {
            lemma_days_before_month_bounds(self.year as int, self.month as int);
            lemma_days_through(self.year as int);
            lemma_days_through(self.year - 1);
            lemma_days_through(2999);
            lemma_days_through(2998);
        }
        let year: i64 = self.year as i64;
        let before: i64 = if self.year < LAST_TABLE_YEAR {
            365 * year + year / 4 - year / 100 + year / 400
        } else {
            let last: i64 = year - 1;
            1095362 + (365 * last + last / 4 - last / 100 + last / 400) - 1094997
        };
        if before > 2147483647 {
            return false;
        }
        let days_before: i64 = Date::new(self.year, self.month, 0).day_of_year() as i64;
        let ordinal: i64 = self.day as i64 + days_before;
        if ordinal > 2147483647 {
            return false;
        }
        let count: i64 = before + ordinal;
        -2147483648 <= count && count <= 2147483647
    }
}

impl core::ops::Sub for Date {
    type Output = i32;

    /// The days from `other` to the date; negative where `other` is the
    /// later one.
    fn sub(self, other: Date) -> (n: i32) {
        self.total_days() - other.total_days()
    }
}

impl vstd::std_specs::ops::SubSpecImpl for Date {
    open spec fn obeys_sub_spec() -> bool {
        true
    }

    open spec fn sub_req(self, other: Date) -> bool {
        &&& self.countable()
        &&& other.countable()
        &&& i32::MIN <= self.count() - other.count() <= i32::MAX
    }

    open spec fn sub_spec(self, other: Date) -> i32 {
        (self.count() - other.count()) as i32
    }
}

} // verus!
