use exercises::calendar::{next_a_start, reportable_date, time_info, try_time_info, Date};
use exercises::text::comma_join;

#[test]
fn test_2025_latest() {
    let date: Date = Date::parse("2025-12-31").unwrap();
    let week_number = if Date::new(date.year, 1, 1).weekday() == 0 {
        date.day_of_year() / 7
    } else {
        date.day_of_year() / 7 + 1
    };
    assert_eq!(week_number, 53);
}

#[test]
fn dates_are_counted_in_days() {
    let d1 = Date::new(2021, 1, 1);
    let d2 = Date::new(2021, 1, 2);
    let today = Date::new(2025, 2, 16);
    let leap_year = Date::new(2000, 1, 2);
    assert_eq!(d2 - d1, 1);
    assert_eq!(d1 - d2, -1);
    assert_eq!(today.weekday(), 7);
    assert_eq!(today.year_days(), 365);
    assert_eq!(leap_year.year_days(), 366);
    assert_eq!(d1.day_of_year(), 1);
    assert_eq!(d2.day_of_year(), 2);
    assert!(Date::new(2020, 2, 29).is_leap_year());
    assert!(Date::new(2024, 2, 29).is_leap_year());
    assert!(!Date::new(1900, 1, 1).is_leap_year());
    assert!(Date::new(2000, 1, 1).is_leap_year());
    assert_eq!(Date::new(2020, 2, 29).days_in_month(2), 29);
    assert_eq!(Date::new(2021, 2, 28).days_in_month(2), 28);
    assert_eq!(Date::new(2021, 2, 28).days_in_month(13), 0);
    assert_eq!(Date::new(2021, 2, 28).days_in_month(0), 0);
    assert_eq!(Date::new(2021, 2, 28).days_in_month(9), 30);
    assert_eq!(Date::new(2020, 2, 29).total_days(), 737850);
    assert_eq!(Date::new(2021, 2, 28).total_days(), 738214);
    assert_eq!(Date::new(2020, 2, 29).day_of_year(), 60);
    assert_eq!(Date::new(2021, 2, 28).day_of_year(), 59);
    assert_eq!(Date::new(2025, 1, 29) - Date::new(2021, 1, 1), 1489);
    assert_eq!(Date::new(2026, 2, 17) - Date::new(2021, 1, 1), 1873);
}

#[test]
fn day_counts_around_the_year_2999() {
    assert_eq!(Date::new(2998, 12, 31).total_days(), 1095362);
    assert_eq!(Date::new(2999, 12, 31).total_days(), 1095727);
    assert_eq!(Date::new(3000, 1, 1).total_days(), 1095728);
    assert_eq!(Date::new(3004, 1, 1).total_days(), 1097188);
    assert_eq!(Date::new(1, 1, 1).total_days(), 366);
}

#[test]
fn days_of_the_year_ignore_months_that_do_not_exist() {
    assert_eq!(Date::new(2025, 13, 5).day_of_year(), 370);
    assert_eq!(Date::new(2025, 100, 5).day_of_year(), 370);
    assert_eq!(Date::new(2025, 0, 5).day_of_year(), 5);
    assert_eq!(Date::new(2025, -3, 5).day_of_year(), 5);
    assert_eq!(Date::new(2024, 12, 31).day_of_year(), 366);
}

#[test]
fn weekdays_run_from_one_to_seven() {
    // The first week of 2025 from Wednesday on.
    assert_eq!(Date::new(2025, 1, 1).weekday(), 3);
    assert_eq!(Date::new(2025, 1, 2).weekday(), 4);
    assert_eq!(Date::new(2025, 1, 3).weekday(), 5);
    assert_eq!(Date::new(2025, 1, 4).weekday(), 6);
    assert_eq!(Date::new(2025, 1, 5).weekday(), 7);
    assert_eq!(Date::new(2025, 1, 6).weekday(), 1);
    assert_eq!(Date::new(2025, 1, 7).weekday(), 2);
}

#[test]
fn dates_are_read_from_text() {
    assert_eq!(Date::parse("2025-12-31"), Some(Date::new(2025, 12, 31)));
    assert_eq!(Date::parse("2025-1-5"), Some(Date::new(2025, 1, 5)));
    assert_eq!(Date::parse("+2025-+01-+05"), Some(Date::new(2025, 1, 5)));
    assert_eq!(Date::parse("0-0-0"), Some(Date::new(0, 0, 0)));
    assert_eq!(
        Date::parse("2147483647-2147483647-2147483647"),
        Some(Date::new(i32::MAX, i32::MAX, i32::MAX))
    );
    assert_eq!(Date::parse("2147483648-1-1"), None);
    assert_eq!(Date::parse("99999999999999999999999-1-1"), None);
    assert_eq!(Date::parse("2025-12"), None);
    assert_eq!(Date::parse("2025-12-31-1"), None);
    assert_eq!(Date::parse("2025--12-31"), None);
    assert_eq!(Date::parse(""), None);
    assert_eq!(Date::parse("2025-12-"), None);
    assert_eq!(Date::parse("2025-1x-31"), None);
    assert_eq!(Date::parse(" 2025-12-31"), None);
    assert_eq!(Date::parse("2025-+-31"), None);
    assert_eq!(Date::parse("２０２５-12-31"), None);
}

#[test]
fn days_without_work() {
    // New Year's Day, and the day before the one of 2026.
    assert_eq!(next_a_start(Date::new(2025, 1, 1)), 0);
    assert_eq!(next_a_start(Date::new(2025, 12, 31)), 1);
    // Around the Spring Festival.
    assert_eq!(next_a_start(Date::new(2025, 1, 26)), 0);
    assert_eq!(next_a_start(Date::new(2025, 1, 27)), 8);
    assert_eq!(next_a_start(Date::new(2025, 1, 28)), 7);
    assert_eq!(next_a_start(Date::new(2025, 2, 4)), 0);
    // A Friday, a Saturday, a Sunday and a Monday without holiday.
    assert_eq!(next_a_start(Date::new(2025, 3, 14)), 2);
    assert_eq!(next_a_start(Date::new(2025, 3, 15)), 1);
    assert_eq!(next_a_start(Date::new(2025, 3, 16)), 0);
    assert_eq!(next_a_start(Date::new(2025, 3, 17)), 0);
}

#[test]
fn reports_on_days() {
    assert_eq!(time_info("2025-01-01"), "1,3,1,364,28,0");
    assert_eq!(time_info("2025-01-18"), "3,6,18,347,11,1");
    assert_eq!(time_info("2025-12-31"), "53,3,365,0,48,1");
    assert_eq!(time_info("2025-11-01"), "44,6,305,60,108,1");
    assert_eq!(time_info("2025-02-28"), "9,5,59,306,354,2");
    assert_eq!(time_info("2025-04-01"), "14,2,91,274,322,0");
    assert_eq!(time_info("2025-01-28"), "5,2,28,337,1,7");
    assert_eq!(time_info("2025-01-30"), "5,4,30,335,383,5");
    assert_eq!(time_info("2025-02-09"), "6,7,40,325,373,0");
    assert_eq!(time_info("2025-05-10"), "19,6,130,235,283,1");
    assert_eq!(time_info("2025-09-30"), "40,2,273,92,140,8");
    assert_eq!(time_info("2026-01-01"), "1,4,1,364,47,0");
    assert_eq!(time_info("2026-02-16"), "7,1,47,318,1,0");
    assert_eq!(time_info("2024-02-29"), "9,5,60,306,334,2");
}

#[test]
fn reports_on_days_that_are_written_loosely() {
    assert_eq!(time_info("2025-13-05"), "53,1,370,-5,43,0");
    assert_eq!(time_info("1-1-1"), "1,1,1,364,739279,0");
    assert_eq!(time_info("2025-+3-+15"), "11,6,74,291,339,1");
    assert_eq!(time_info("2025-02-30"), "9,7,61,304,352,0");
}

#[test]
fn numbers_are_joined_with_commas() {
    assert_eq!(comma_join(&vec![]), "");
    assert_eq!(comma_join(&vec![0]), "0");
    assert_eq!(comma_join(&vec![-7, 0, 12]), "-7,0,12");
    assert_eq!(comma_join(&vec![i32::MIN, i32::MAX]), "-2147483648,2147483647");
}

#[test]
fn reports_are_given_where_they_can_be() {
    assert_eq!(try_time_info("2025-01-01"), Some("1,3,1,364,28,0".to_string()));
    assert_eq!(try_time_info("2026-02-16"), Some("7,1,47,318,1,0".to_string()));
    // The Spring Festival of 2026 and what follows it.
    assert_eq!(try_time_info("2026-02-17"), None);
    assert_eq!(try_time_info("2026-12-31"), None);
    assert_eq!(try_time_info("2027-01-01"), None);
    assert_eq!(try_time_info("3000-01-01"), None);
    assert_eq!(try_time_info("2147483647-01-01"), None);
    assert_eq!(try_time_info("2025-01-2147483647"), None);
    assert_eq!(try_time_info("1-2147483647-740028"), None);
    assert_eq!(try_time_info("0-01-01"), None);
    assert_eq!(try_time_info("2025-01"), None);
    assert_eq!(try_time_info("today"), None);
    assert_eq!(reportable_date("2025-3-4"), Some(Date::new(2025, 3, 4)));
    assert_eq!(reportable_date("2026-2-17"), None);
    // A day far beyond its month, still before the festival.
    assert_eq!(try_time_info("1-1-739000"), Some("105572,3,739000,-738635,280,0".to_string()));
}
