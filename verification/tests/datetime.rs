use untis::codec::Decode;
use untis::datetime::{Date, Time, UtcDateTime, MAX_YEAR, MIN_YEAR};
use untis::json::Json;

fn date(year: i32, month: u32, day: u32) -> Date {
    Date::from_ymd(year, month, day).unwrap()
}

#[test]
fn from_ymd_knows_the_calendar() {
    assert!(Date::from_ymd(2023, 10, 9).is_some());
    assert!(Date::from_ymd(2023, 2, 28).is_some());
    assert!(Date::from_ymd(2023, 2, 29).is_none());
    assert!(Date::from_ymd(2024, 2, 29).is_some());
    assert!(Date::from_ymd(1900, 2, 29).is_none());
    assert!(Date::from_ymd(2000, 2, 29).is_some());
    assert!(Date::from_ymd(2023, 4, 30).is_some());
    assert!(Date::from_ymd(2023, 4, 31).is_none());
    assert!(Date::from_ymd(2023, 12, 31).is_some());
    assert!(Date::from_ymd(2023, 12, 32).is_none());
    assert!(Date::from_ymd(2023, 0, 1).is_none());
    assert!(Date::from_ymd(2023, 13, 1).is_none());
    assert!(Date::from_ymd(2023, 1, 0).is_none());
}

#[test]
fn from_ymd_holds_the_years_that_chrono_holds() {
    assert!(Date::from_ymd(0, 1, 1).is_some());
    assert!(Date::from_ymd(9999, 12, 31).is_some());
    assert!(Date::from_ymd(-1, 12, 31).is_some());
    assert!(Date::from_ymd(10000, 1, 1).is_some());
    assert!(Date::from_ymd(MIN_YEAR, 1, 1).is_some());
    assert!(Date::from_ymd(MAX_YEAR, 12, 31).is_some());
    assert!(Date::from_ymd(MIN_YEAR - 1, 12, 31).is_none());
    assert!(Date::from_ymd(MAX_YEAR + 1, 1, 1).is_none());
    assert!(Date::from_ymd(i32::MIN, 1, 1).is_none());
    assert!(Date::from_ymd(i32::MAX, 1, 1).is_none());
    assert_eq!((MIN_YEAR, MAX_YEAR), (-262143, 262142));
}

#[test]
fn from_ymd_agrees_with_chrono() {
    let years = [MIN_YEAR - 1, MIN_YEAR, -401, -400, -100, -5, -4, -1, 0, 1, 4, 100, 1900, 2000, 2023, 2024, 9999, 10000, MAX_YEAR, MAX_YEAR + 1];
    for year in years {
        for month in 0..14u32 {
            for day in [0u32, 1, 28, 29, 30, 31, 32] {
                assert_eq!(
                    Date::from_ymd(year, month, day).is_some(),
                    chrono::NaiveDate::from_ymd_opt(year, month, day).is_some()
                );
            }
        }
    }
}

#[test]
fn leap_years_are_counted_before_the_year_one_too() {
    assert!(Date::from_ymd(0, 2, 29).is_some());
    assert!(Date::from_ymd(-4, 2, 29).is_some());
    assert!(Date::from_ymd(-1, 2, 29).is_none());
    assert!(Date::from_ymd(-100, 2, 29).is_none());
    assert!(Date::from_ymd(-400, 2, 29).is_some());
}

#[test]
fn a_date_gives_its_fields() {
    let d = date(2023, 10, 9);
    assert_eq!((d.year(), d.month(), d.day()), (2023, 10, 9));
}

#[test]
fn a_date_has_its_wire_number() {
    assert_eq!(date(2023, 10, 9).number(), 20231009);
    assert_eq!(date(2011, 1, 17).number(), 20110117);
    assert_eq!(date(0, 1, 1).number(), 101);
    assert_eq!(date(9999, 12, 31).number(), 99991231);
    assert_eq!(date(10000, 1, 1).number(), 100000101);
    assert_eq!(date(MAX_YEAR, 12, 31).number(), 2621421231);
    assert_eq!(date(-1, 12, 31).number(), -8769);
    assert_eq!(date(MIN_YEAR, 1, 1).number(), -2621429899);
}

#[test]
fn from_number_reads_the_wire_number() {
    assert_eq!(Date::from_number(20231009), Some(date(2023, 10, 9)));
    assert_eq!(Date::from_number(101), Some(date(0, 1, 1)));
    assert_eq!(Date::from_number(99991231), Some(date(9999, 12, 31)));
    assert_eq!(Date::from_number(20230229), None);
    assert_eq!(Date::from_number(20231301), None);
    assert_eq!(Date::from_number(20231000), None);
    assert_eq!(Date::from_number(0), None);
    assert_eq!(Date::from_number(-20231009), None);
    assert_eq!(Date::from_number(100000101), Some(date(10000, 1, 1)));
    assert_eq!(Date::from_number(2621421231), Some(date(MAX_YEAR, 12, 31)));
    assert_eq!(Date::from_number(2621430101), None);
    assert_eq!(Date::from_number(-8769), Some(date(-1, 12, 31)));
    assert_eq!(Date::from_number(-2621429899), Some(date(MIN_YEAR, 1, 1)));
    assert_eq!(Date::from_number(-2621439899), None);
    assert_eq!(Date::from_number(i64::MAX), None);
    assert_eq!(Date::from_number(i64::MIN), None);
}

#[test]
fn from_number_undoes_number() {
    for d in [
        date(2023, 10, 9),
        date(2024, 2, 29),
        date(1, 1, 1),
        date(9999, 12, 31),
        date(0, 1, 1),
        date(-1, 1, 1),
        date(-4, 2, 29),
        date(-9999, 12, 31),
        date(123456, 7, 8),
        date(MIN_YEAR, 1, 1),
        date(MAX_YEAR, 12, 31),
    ] {
        assert_eq!(Date::from_number(d.number()), Some(d));
    }
}

#[test]
fn dates_are_ordered_by_the_calendar() {
    assert!(date(2023, 10, 9) < date(2023, 10, 10));
    assert!(date(2023, 9, 30) < date(2023, 10, 1));
    assert!(date(2022, 12, 31) < date(2023, 1, 1));
    assert!(date(-1, 12, 31) < date(0, 1, 1));
    assert!(date(-2, 1, 1) < date(-1, 1, 1));
    assert_eq!(date(2023, 10, 9), date(2023, 10, 9));
}

#[test]
fn the_week_begins_on_monday() {
    assert_eq!(date(2023, 10, 11).relative_week_begin(), Some(date(2023, 10, 9)));
    assert_eq!(date(2023, 10, 9).relative_week_begin(), Some(date(2023, 10, 9)));
    assert_eq!(date(2023, 10, 15).relative_week_begin(), Some(date(2023, 10, 9)));
    assert_eq!(date(2023, 10, 16).relative_week_begin(), Some(date(2023, 10, 16)));
}

#[test]
fn the_week_ends_on_sunday() {
    assert_eq!(date(2023, 10, 11).relative_week_end(), Some(date(2023, 10, 15)));
    assert_eq!(date(2023, 10, 9).relative_week_end(), Some(date(2023, 10, 15)));
    assert_eq!(date(2023, 10, 15).relative_week_end(), Some(date(2023, 10, 15)));
}

#[test]
fn a_week_may_cross_months_and_years() {
    assert_eq!(date(2024, 1, 3).relative_week_begin(), Some(date(2024, 1, 1)));
    assert_eq!(date(2023, 12, 31).relative_week_begin(), Some(date(2023, 12, 25)));
    assert_eq!(date(2023, 1, 1).relative_week_begin(), Some(date(2022, 12, 26)));
    assert_eq!(date(2022, 12, 28).relative_week_end(), Some(date(2023, 1, 1)));
    assert_eq!(date(2024, 2, 28).relative_week_end(), Some(date(2024, 3, 3)));
    assert_eq!(date(2023, 3, 1).relative_week_begin(), Some(date(2023, 2, 27)));
}

#[test]
fn a_week_may_cross_the_years_with_four_digits() {
    assert_eq!(date(9999, 12, 31).relative_week_end(), Some(date(10000, 1, 2)));
    assert_eq!(date(9999, 12, 31).relative_week_begin(), Some(date(9999, 12, 27)));
    assert_eq!(date(0, 1, 1).relative_week_begin(), Some(date(-1, 12, 27)));
    assert_eq!(date(0, 1, 1).relative_week_end(), Some(date(0, 1, 2)));
}

#[test]
fn a_week_that_leaves_what_chrono_holds_has_no_bound() {
    assert_eq!(date(MAX_YEAR, 12, 31).relative_week_begin(), Some(date(MAX_YEAR, 12, 31)));
    assert_eq!(date(MAX_YEAR, 12, 31).relative_week_end(), None);
    assert_eq!(date(MAX_YEAR, 12, 30).relative_week_end(), Some(date(MAX_YEAR, 12, 30)));
    assert_eq!(date(MAX_YEAR, 12, 30).relative_week_begin(), Some(date(MAX_YEAR, 12, 24)));
    assert_eq!(date(MIN_YEAR, 1, 1).relative_week_begin(), None);
    assert_eq!(date(MIN_YEAR, 1, 1).relative_week_end(), Some(date(MIN_YEAR, 1, 4)));
    assert_eq!(date(MIN_YEAR, 1, 5).relative_week_begin(), Some(date(MIN_YEAR, 1, 5)));
}

#[test]
fn the_week_agrees_with_chrono() {
    let days = [(2023, 10, 11), (1999, 12, 31), (2000, 2, 29), (-1, 3, 1), (0, 1, 1), (12345, 6, 7), (1970, 1, 1)];
    for (y, m, d) in days {
        let day = chrono::NaiveDate::from_ymd_opt(y, m, d).unwrap();
        let back = chrono::Datelike::weekday(&day).num_days_from_monday() as u64;
        let monday = day.checked_sub_days(chrono::Days::new(back)).unwrap();
        let sunday = monday.checked_add_days(chrono::Days::new(6)).unwrap();
        let begin = date(y, m, d).relative_week_begin().unwrap();
        let end = date(y, m, d).relative_week_end().unwrap();
        assert_eq!(
            (begin.year(), begin.month(), begin.day()),
            (chrono::Datelike::year(&monday), chrono::Datelike::month(&monday), chrono::Datelike::day(&monday))
        );
        assert_eq!(
            (end.year(), end.month(), end.day()),
            (chrono::Datelike::year(&sunday), chrono::Datelike::month(&sunday), chrono::Datelike::day(&sunday))
        );
    }
}

#[test]
fn a_date_is_read_from_its_number() {
    assert_eq!(Date::decode(&Json::Number(Some(20231009))), Some(date(2023, 10, 9)));
    assert_eq!(Date::decode(&Json::Number(Some(20231309))), None);
    assert_eq!(Date::decode(&Json::Number(Some(-1))), None);
    assert_eq!(Date::decode(&Json::Number(Some(100000101))), Some(date(10000, 1, 1)));
    assert_eq!(Date::decode(&Json::Number(Some(-8769))), Some(date(-1, 12, 31)));
    assert_eq!(Date::decode(&Json::Number(Some(2621430101))), None);
    assert_eq!(Date::decode(&Json::Number(Some(i128::MIN))), None);
    assert_eq!(Date::decode(&Json::Number(Some(i128::MAX))), None);
    assert_eq!(Date::decode(&Json::Number(None)), None);
    assert_eq!(Date::decode(&Json::Text("20231009".to_string())), None);
}

#[test]
fn a_time_is_read_from_its_number() {
    let eight = Time::from_number(800).unwrap();
    assert_eq!((eight.hour(), eight.minute()), (8, 0));
    let late = Time::from_number(2359).unwrap();
    assert_eq!((late.hour(), late.minute()), (23, 59));
    let midnight = Time::from_number(0).unwrap();
    assert_eq!((midnight.hour(), midnight.minute()), (0, 0));
    let early = Time::from_number(5).unwrap();
    assert_eq!((early.hour(), early.minute()), (0, 5));
    assert_eq!(Time::from_number(2400), None);
    assert_eq!(Time::from_number(860), None);
    assert_eq!(Time::from_number(1299), None);
    assert_eq!(Time::from_number(-1), None);
    assert_eq!(Time::from_number(10000), None);
}

#[test]
fn a_time_has_its_wire_number() {
    for n in [0i64, 5, 800, 850, 1345, 2359] {
        assert_eq!(Time::from_number(n).unwrap().number(), n);
    }
    assert_eq!(Time::decode(&Json::Number(Some(1345))), Time::from_number(1345));
    assert_eq!(Time::decode(&Json::Number(Some(1360))), None);
    assert_eq!(Time::decode(&Json::Null), None);
}

#[test]
fn times_are_ordered_by_the_clock() {
    assert!(Time::from_number(800).unwrap() < Time::from_number(850).unwrap());
    assert!(Time::from_number(959).unwrap() < Time::from_number(1000).unwrap());
}

fn fields(moment: &UtcDateTime) -> (i32, u32, u32, u32, u32, u32, u32) {
    (moment.year, moment.month, moment.day, moment.hour, moment.minute, moment.second, moment.millisecond)
}

#[test]
fn a_moment_is_computed_from_its_milliseconds() {
    let start = UtcDateTime::from_millis(0).unwrap();
    assert_eq!(fields(&start), (1970, 1, 1, 0, 0, 0, 0));
    let second = UtcDateTime::from_millis(1000).unwrap();
    assert_eq!(second.millis, 1000);
    assert_eq!(fields(&second), (1970, 1, 1, 0, 0, 1, 0));
    let moment = UtcDateTime::from_millis(1431648000123).unwrap();
    assert_eq!(moment.millis, 1431648000123);
    assert_eq!(fields(&moment), (2015, 5, 15, 0, 0, 0, 123));
    let later = UtcDateTime::from_millis(1696858245678).unwrap();
    assert_eq!(fields(&later), (2023, 10, 9, 13, 30, 45, 678));
    assert_eq!(later.date(), Some(date(2023, 10, 9)));
    let before = UtcDateTime::from_millis(-1).unwrap();
    assert_eq!(before.millis, -1);
    assert_eq!(fields(&before), (1969, 12, 31, 23, 59, 59, 999));
}

#[test]
fn a_moment_may_lie_in_any_year_that_chrono_holds() {
    let ten_thousand = UtcDateTime::from_millis(253402300800000).unwrap();
    assert_eq!(ten_thousand.millis, 253402300800000);
    assert_eq!(fields(&ten_thousand), (10000, 1, 1, 0, 0, 0, 0));
    assert_eq!(ten_thousand.date(), Some(date(10000, 1, 1)));
    assert_eq!(fields(&UtcDateTime::from_millis(253402300799999).unwrap()), (9999, 12, 31, 23, 59, 59, 999));
    assert_eq!(fields(&UtcDateTime::from_millis(-62167219200000).unwrap()), (0, 1, 1, 0, 0, 0, 0));
    assert_eq!(fields(&UtcDateTime::from_millis(-62167219200001).unwrap()), (-1, 12, 31, 23, 59, 59, 999));
    let last = UtcDateTime::from_millis(8210266876799999).unwrap();
    assert_eq!(fields(&last), (MAX_YEAR, 12, 31, 23, 59, 59, 999));
    let first = UtcDateTime::from_millis(-8334601228800000).unwrap();
    assert_eq!(fields(&first), (MIN_YEAR, 1, 1, 0, 0, 0, 0));
}

#[test]
fn a_moment_agrees_with_chrono() {
    for millis in [0i64, 1000, -1, 1696858245678, 253402300800000, -62167219200001, 8210266876799999, 4102444800000] {
        let moment = UtcDateTime::from_millis(millis).unwrap();
        let theirs = chrono::TimeZone::timestamp_millis_opt(&chrono::Utc, millis).unwrap();
        assert_eq!(theirs.timestamp_millis(), moment.millis);
        assert_eq!(chrono::Datelike::year(&theirs), moment.year);
        assert_eq!(chrono::Datelike::month(&theirs), moment.month);
        assert_eq!(chrono::Datelike::day(&theirs), moment.day);
        assert_eq!(chrono::Timelike::hour(&theirs), moment.hour);
        assert_eq!(chrono::Timelike::minute(&theirs), moment.minute);
        assert_eq!(chrono::Timelike::second(&theirs), moment.second);
    }
}

#[test]
fn a_moment_that_chrono_does_not_hold_is_none() {
    assert_eq!(UtcDateTime::from_millis(i64::MAX), None);
    assert_eq!(UtcDateTime::from_millis(i64::MIN), None);
    assert_eq!(UtcDateTime::from_millis(8210266876800000), None);
    assert_eq!(UtcDateTime::from_millis(-8334601228800001), None);
}

#[test]
fn from_parts_takes_what_was_computed() {
    let moment = UtcDateTime::from_parts(5, Some((2001, 2, 3, 4, 5, 6, 7))).unwrap();
    assert_eq!(moment.millis, 5);
    assert_eq!(fields(&moment), (2001, 2, 3, 4, 5, 6, 7));
    assert_eq!(UtcDateTime::from_parts(5, None), None);
    let far = UtcDateTime::from_parts(5, Some((10000, 1, 1, 0, 0, 0, 0))).unwrap();
    assert_eq!(fields(&far), (10000, 1, 1, 0, 0, 0, 0));
    assert_eq!(Date::from_parts(Some((2001, 2, 3))), Some(date(2001, 2, 3)));
    assert_eq!(Date::from_parts(Some((2001, 2, 30))), None);
    assert_eq!(Date::from_parts(None), None);
}
