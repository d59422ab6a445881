use benefits_ofx::calendar::{month_days, Date, DateError, Month, Timestamp, MAX_YEAR, MIN_YEAR};

fn at(year: i32, month: u32, day: u32, hour: u32, minute: u32, second: u32, nano: u32) -> Timestamp {
    Timestamp::new(Date::from_ymd(year, month, day).unwrap(), hour, minute, second, nano).unwrap()
}

#[test]
fn dates_that_exist() {
    let date = Date::from_ymd(2023, 6, 1).unwrap();
    assert_eq!((date.year(), date.month(), date.day()), (2023, 6, 1));
    assert!(Date::from_ymd(2024, 2, 29).is_some());
    assert!(Date::from_ymd(2000, 2, 29).is_some());
    assert!(Date::from_ymd(-4, 2, 29).is_some());
    assert!(Date::from_ymd(MIN_YEAR, 1, 1).is_some());
    assert!(Date::from_ymd(MAX_YEAR, 12, 31).is_some());
}

#[test]
fn dates_that_do_not_exist() {
    assert_eq!(Date::from_ymd(2023, 2, 29), None);
    assert_eq!(Date::from_ymd(1900, 2, 29), None);
    assert_eq!(Date::from_ymd(2023, 4, 31), None);
    assert_eq!(Date::from_ymd(2023, 0, 1), None);
    assert_eq!(Date::from_ymd(2023, 13, 1), None);
    assert_eq!(Date::from_ymd(2023, 1, 0), None);
    assert_eq!(Date::from_ymd(2023, 1, 32), None);
    assert_eq!(Date::from_ymd(MIN_YEAR - 1, 12, 31), None);
    assert_eq!(Date::from_ymd(MAX_YEAR + 1, 1, 1), None);
    assert_eq!(Date::from_ymd(400000, 1, 1), None);
}

#[test]
fn every_day_of_a_leap_year_and_of_a_common_year() {
    let lengths = [31, 28, 31, 30, 31, 30, 31, 31, 30, 31, 30, 31];
    for (year, february) in [(2023, 28), (2024, 29), (1900, 28), (2000, 29)] {
        for month in 1u32..=12 {
            let length = if month == 2 { february } else { lengths[month as usize - 1] };
            for day in 0u32..=33 {
                let expected = 1 <= day && day <= length;
                assert_eq!(Date::from_ymd(year, month, day).is_some(), expected);
            }
        }
    }
}

#[test]
fn first_and_last_day_of_a_month() {
    let (first, last) = month_days(2023, Month::June).unwrap();
    assert_eq!(first, Date::from_ymd(2023, 6, 1).unwrap());
    assert_eq!(last, Date::from_ymd(2023, 6, 30).unwrap());

    let (first, last) = month_days(2024, Month::February).unwrap();
    assert_eq!(first, Date::from_ymd(2024, 2, 1).unwrap());
    assert_eq!(last, Date::from_ymd(2024, 2, 29).unwrap());

    let (_, last) = month_days(2023, Month::February).unwrap();
    assert_eq!(last, Date::from_ymd(2023, 2, 28).unwrap());

    let (first, last) = month_days(2023, Month::December).unwrap();
    assert_eq!(first, Date::from_ymd(2023, 12, 1).unwrap());
    assert_eq!(last, Date::from_ymd(2023, 12, 31).unwrap());

    let (first, last) = month_days(MIN_YEAR, Month::January).unwrap();
    assert_eq!(first, Date::from_ymd(MIN_YEAR, 1, 1).unwrap());
    assert_eq!(last, Date::from_ymd(MIN_YEAR, 1, 31).unwrap());
}

#[test]
fn months_without_days() {
    assert_eq!(month_days(MAX_YEAR + 1, Month::January), Err(DateError::YearOutOfRange));
    assert_eq!(month_days(MIN_YEAR - 1, Month::June), Err(DateError::YearOutOfRange));
    assert_eq!(month_days(i32::MAX, Month::June), Err(DateError::YearOutOfRange));
    assert_eq!(month_days(MAX_YEAR, Month::December), Err(DateError::NoNextMonth));
    assert!(month_days(MAX_YEAR, Month::November).is_ok());
}

#[test]
fn times_that_exist_and_times_that_do_not() {
    let day = Date::from_ymd(2023, 6, 1).unwrap();
    let noon = Timestamp::new(day, 12, 0, 0, 0).unwrap();
    assert_eq!(noon.date(), day);
    assert_eq!((noon.hour(), noon.minute(), noon.second(), noon.nanosecond()), (12, 0, 0, 0));
    assert!(Timestamp::new(day, 23, 59, 59, 999_999_999).is_some());
    assert!(Timestamp::new(day, 23, 59, 59, 1_999_999_999).is_some());
    assert_eq!(Timestamp::new(day, 24, 0, 0, 0), None);
    assert_eq!(Timestamp::new(day, 0, 60, 0, 0), None);
    assert_eq!(Timestamp::new(day, 0, 0, 60, 0), None);
    assert_eq!(Timestamp::new(day, 0, 0, 0, 1_000_000_000), None);
    assert_eq!(Timestamp::new(day, 0, 0, 59, 2_000_000_000), None);
    assert_eq!(day.and_time(3, 0, 0), Timestamp::new(day, 3, 0, 0, 0).unwrap());
}

#[test]
fn timestamps_are_read_as_the_providers_write_them() {
    assert_eq!(Timestamp::parse("2023-06-01T12:00:00.000Z"), Some(at(2023, 6, 1, 12, 0, 0, 0)));
    assert_eq!(
        Timestamp::parse("2024-02-29T23:59:58.123Z"),
        Some(at(2024, 2, 29, 23, 59, 58, 123))
    );
    assert_eq!(
        Timestamp::parse("2023-12-31T00:00:00.5Z"),
        Some(at(2023, 12, 31, 0, 0, 0, 5))
    );
    assert_eq!(Timestamp::parse("2023-06-01T12:00:00Z"), None);
    assert_eq!(Timestamp::parse("2023-06-01 12:00:00.000Z"), None);
    assert_eq!(Timestamp::parse("2023-02-30T12:00:00.000Z"), None);
    assert_eq!(Timestamp::parse("2023-06-01T25:00:00.000Z"), None);
    assert_eq!(Timestamp::parse("2023-06-01T12:00:00.000"), None);
    assert_eq!(Timestamp::parse(""), None);
}

#[test]
fn the_date_of_a_document_has_no_time_of_day() {
    assert_eq!(at(2023, 6, 1, 12, 0, 0, 0).ofx_date(), "20230601000000[-3:BRT]");
    assert_eq!(at(2023, 6, 1, 23, 59, 59, 999_999_999).ofx_date(), "20230601000000[-3:BRT]");
    assert_eq!(at(2023, 12, 31, 0, 0, 0, 0).ofx_date(), "20231231000000[-3:BRT]");
    assert_eq!(at(2024, 2, 9, 1, 2, 3, 4).ofx_date(), "20240209000000[-3:BRT]");
}

#[test]
fn years_are_written_with_four_digits_or_a_sign() {
    assert_eq!(at(999, 1, 2, 0, 0, 0, 0).ofx_date(), "09990102000000[-3:BRT]");
    assert_eq!(at(5, 1, 2, 0, 0, 0, 0).ofx_date(), "00050102000000[-3:BRT]");
    assert_eq!(at(0, 1, 2, 0, 0, 0, 0).ofx_date(), "00000102000000[-3:BRT]");
    assert_eq!(at(9999, 12, 31, 0, 0, 0, 0).ofx_date(), "99991231000000[-3:BRT]");
    assert_eq!(at(10000, 1, 2, 0, 0, 0, 0).ofx_date(), "+100000102000000[-3:BRT]");
    assert_eq!(at(MAX_YEAR, 1, 2, 0, 0, 0, 0).ofx_date(), "+2621420102000000[-3:BRT]");
    assert_eq!(at(-1, 1, 2, 0, 0, 0, 0).ofx_date(), "-00010102000000[-3:BRT]");
    assert_eq!(at(-12345, 1, 2, 0, 0, 0, 0).ofx_date(), "-123450102000000[-3:BRT]");
    assert_eq!(Date::from_ymd(-1, 3, 4).unwrap().iso(), "-0001-03-04");
    assert_eq!(Date::from_ymd(12345, 3, 4).unwrap().iso(), "+12345-03-04");
}

#[test]
fn dates_and_moments_of_a_query() {
    assert_eq!(Date::from_ymd(2023, 6, 1).unwrap().iso(), "2023-06-01");
    assert_eq!(Date::from_ymd(2023, 12, 31).unwrap().iso(), "2023-12-31");
    assert_eq!(at(2023, 6, 1, 3, 0, 0, 0).iso_millis(), "2023-06-01T03:00:00.000Z");
    assert_eq!(at(2023, 6, 30, 23, 59, 59, 0).iso_millis(), "2023-06-30T23:59:59.000Z");
    assert_eq!(at(2023, 6, 30, 1, 2, 3, 45_678_901).iso_millis(), "2023-06-30T01:02:03.045Z");
    assert_eq!(at(2023, 6, 30, 23, 59, 59, 1_250_000_000).iso_millis(), "2023-06-30T23:59:60.250Z");
}

#[test]
fn whole_seconds_that_are_written_are_read_back() {
    for moment in [
        at(2023, 6, 1, 12, 0, 0, 0),
        at(1999, 12, 31, 23, 59, 59, 0),
        at(2024, 2, 29, 0, 0, 1, 0),
    ] {
        assert_eq!(Timestamp::parse(&moment.iso_millis()), Some(moment));
    }
}

#[test]
fn digits_after_the_point_are_read_as_nanoseconds() {
    let read = Timestamp::parse("2023-06-01T12:00:00.250Z").unwrap();
    assert_eq!(read.nanosecond(), 250);
    assert_eq!(read.ofx_date(), "20230601000000[-3:BRT]");
}
