use chrono::NaiveDate;
use sophross::date::Date;

#[test]
fn dates_are_written_as_iso_8601() {
    assert_eq!(Date::from_ymd(2024, 3, 5).unwrap().to_iso(), "2024-03-05");
    assert_eq!(Date::from_ymd(1999, 12, 31).unwrap().to_iso(), "1999-12-31");
    assert_eq!(Date::from_ymd(7, 1, 1).unwrap().to_iso(), "0007-01-01");
    assert_eq!(Date::from_ymd(0, 2, 29).unwrap().to_iso(), "0000-02-29");
    assert_eq!(Date::from_ymd(9999, 12, 31).unwrap().to_iso(), "9999-12-31");
}

#[test]
fn a_date_keeps_its_numbers() {
    let date = Date::from_ymd(2023, 11, 30).unwrap();
    assert_eq!(date.year(), 2023);
    assert_eq!(date.month(), 11);
    assert_eq!(date.day(), 30);
}

#[test]
fn days_that_the_calendar_lacks_are_refused() {
    assert!(Date::from_ymd(2023, 2, 29).is_none());
    assert!(Date::from_ymd(2024, 2, 29).is_some());
    assert!(Date::from_ymd(1900, 2, 29).is_none());
    assert!(Date::from_ymd(2000, 2, 29).is_some());
    assert!(Date::from_ymd(2023, 4, 31).is_none());
    assert!(Date::from_ymd(2023, 4, 30).is_some());
    assert!(Date::from_ymd(2023, 0, 1).is_none());
    assert!(Date::from_ymd(2023, 13, 1).is_none());
    assert!(Date::from_ymd(2023, 1, 0).is_none());
    assert!(Date::from_ymd(2023, 1, 32).is_none());
}

#[test]
fn years_beyond_four_digits_are_refused() {
    assert!(Date::from_ymd(-1, 1, 1).is_none());
    assert!(Date::from_ymd(10_000, 1, 1).is_none());
    assert!(Date::from_ymd(i32::MIN, 1, 1).is_none());
    assert!(Date::from_ymd(i32::MAX, 1, 1).is_none());
}

#[test]
fn different_dates_have_different_texts() {
    let a = Date::from_ymd(2024, 1, 12).unwrap();
    let b = Date::from_ymd(2024, 11, 2).unwrap();
    let c = Date::from_ymd(2024, 1, 12).unwrap();
    assert_ne!(a.to_iso(), b.to_iso());
    assert_eq!(a.to_iso(), c.to_iso());
    assert_eq!(a, c);
}

#[test]
fn every_day_of_a_leap_year_agrees_with_the_calendar() {
    let mut count = 0;
    for month in 1..=12u32 {
        for day in 1..=31u32 {
            let ours = Date::from_ymd(2024, month, day);
            let theirs = NaiveDate::from_ymd_opt(2024, month, day);
            assert_eq!(ours.is_some(), theirs.is_some());
            if let (Some(ours), Some(theirs)) = (ours, theirs) {
                assert_eq!(ours.to_iso(), theirs.to_string());
                count += 1;
            }
        }
    }
    assert_eq!(count, 366);
}
