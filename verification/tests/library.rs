use chrono::ChronoError;
use chrono::ChronoErrorKind;
use chrono::FixedOffset;
use chrono::FixedTimeZone;
use chrono::LocalResult;
use chrono::NaiveDate;
use chrono::NaiveDateTime;
use chrono::NaiveTime;
use chrono::Offset;
use chrono::TimeZone;
use chrono::Utc;
use chrono::Weekday;

fn err_kind<T>(r: Result<T, ChronoError>) -> ChronoErrorKind {
    match r {
        Ok(_) => panic!("expected an error"),
        Err(e) => e.kind(),
    }
}

fn err_of<T>(r: Result<T, ChronoError>) -> ChronoError {
    match r {
        Ok(_) => panic!("expected an error"),
        Err(e) => e,
    }
}

#[test]
fn test_ymd_yo_isoywd_agree() {
    let by_ymd = Utc.ymd(2015, 5, 15).unwrap();
    let by_yo = Utc.yo(2015, 135).unwrap();
    let by_iso = Utc.isoywd(2015, 20, Weekday::Fri).unwrap();
    assert_eq!(by_ymd.naive_local(), by_yo.naive_local());
    assert_eq!(by_ymd.naive_local(), by_iso.naive_local());
}

#[test]
fn test_timestamp_positive() {
    let dt = Utc.timestamp(1431648000, 0).unwrap();
    assert_eq!(dt.to_string(), "2015-05-15 00:00:00 UTC");
    assert_eq!(dt.timestamp(), 1431648000);
}

#[test]
fn test_timestamp_millis_positive() {
    let dt = Utc.timestamp_millis(1431648000).unwrap();
    assert_eq!(dt.timestamp(), 1431648);
}

#[test]
fn test_timestamp_millis_out_of_range() {
    assert_eq!(err_kind(Utc.timestamp_millis(i64::MAX)), ChronoErrorKind::InvalidDateTime);
    assert_eq!(err_kind(Utc.timestamp_millis(i64::MIN)), ChronoErrorKind::InvalidDateTime);
}

#[test]
fn test_invalid_dates_rejected() {
    let e = err_of(Utc.ymd(2000, 0, 0));
    assert_eq!(e.kind(), ChronoErrorKind::InvalidDate);
    assert_eq!(e.message(), "invalid date");
    assert!(Utc.ymd(2015, 2, 29).is_err());
    assert!(Utc.ymd(2016, 2, 29).is_ok());
    assert!(Utc.yo(2015, 366).is_err());
    assert!(Utc.yo(2016, 366).is_ok());
    assert!(Utc.isoywd(2015, 54, Weekday::Mon).is_err());
    assert!(Utc.isoywd(2015, 53, Weekday::Fri).is_ok());
    assert!(Utc.isoywd(2014, 53, Weekday::Mon).is_err());
}

#[test]
fn test_invalid_time_rejected() {
    assert_eq!(err_kind(Utc.timestamp(0, 2_000_000_000)), ChronoErrorKind::InvalidTime);
    let d = Utc.ymd(2015, 5, 15).unwrap();
    assert_eq!(err_kind(d.and_hms(24, 0, 0)), ChronoErrorKind::InvalidTime);
    assert_eq!(err_kind(d.and_hms_milli(23, 59, 59, 2000)), ChronoErrorKind::InvalidTime);
    assert_eq!(err_kind(d.and_hms_micro(23, 59, 59, 2_000_000)), ChronoErrorKind::InvalidTime);
    assert_eq!(err_kind(d.and_hms_nano(23, 59, 59, 2_000_000_000)), ChronoErrorKind::InvalidTime);
}

#[test]
fn test_local_result_accessors() {
    let s: LocalResult<i32> = LocalResult::Single(5);
    assert_eq!(s.single(), Some(5));
    assert_eq!(s.earliest(), Some(5));
    assert_eq!(s.latest(), Some(5));
    let a: LocalResult<i32> = LocalResult::Ambiguous(1, 2);
    assert_eq!(a.single(), None);
    assert_eq!(a.earliest(), Some(1));
    assert_eq!(a.latest(), Some(2));
}

#[test]
fn test_local_result_map_and_unwrap() {
    let s: LocalResult<i32> = LocalResult::Single(5);
    assert_eq!(s.map(|v| v + 1), LocalResult::Single(6));
    let a: LocalResult<i32> = LocalResult::Ambiguous(1, 2);
    assert_eq!(a.map(|v| v * 10), LocalResult::Ambiguous(10, 20));
    assert_eq!(LocalResult::Single(7).unwrap(), 7);
}

#[test]
fn test_local_result_and_hms() {
    let d = Utc.ymd(1970, 1, 1).unwrap();
    let dt = LocalResult::Single(d).and_hms(0, 1, 1).unwrap();
    match dt {
        LocalResult::Single(dt) => assert_eq!(dt.timestamp(), 61),
        LocalResult::Ambiguous(_, _) => panic!("unexpected ambiguity"),
    }
}

#[test]
fn test_local_result_ambiguous_date() {
    let d1 = Utc.ymd(2015, 5, 15).unwrap();
    let d2 = Utc.ymd(2015, 5, 16).unwrap();
    let e = err_of(LocalResult::Ambiguous(d1, d2).and_hms(1, 2, 3));
    assert_eq!(e.kind(), ChronoErrorKind::AmbiguousDate);
    assert_eq!(e.message(), "tried to operate over ambiguous date");
    // The time is not inspected: even an invalid one reports the ambiguity.
    let e = err_of(LocalResult::Ambiguous(d1, d2).and_hms(99, 99, 99));
    assert_eq!(e.kind(), ChronoErrorKind::AmbiguousDate);
    let e = err_of(LocalResult::Ambiguous(d1, d2).and_time(NaiveTime::from_hms(1, 2, 3).unwrap()));
    assert_eq!(e.kind(), ChronoErrorKind::AmbiguousDate);
}

#[test]
fn test_fixed_zone_date_roundtrip() {
    let d = NaiveDate::from_ymd(2015, 5, 15).unwrap();
    let mid = Utc.from_local_date(&d).unwrap();
    let back = Utc.from_utc_date_fixed(&mid.naive_local());
    assert_eq!(back.naive_local(), d);

    let zone = FixedOffset::east(3600);
    let mid = zone.from_local_date(&d).unwrap();
    let back = zone.from_utc_date_fixed(&mid.naive_local());
    assert_eq!(back.naive_local(), d);
}

#[test]
fn test_utc_offset_is_zero() {
    assert_eq!(Utc.fix(), FixedOffset::east(0));
    let d = NaiveDate::from_ymd(2015, 5, 15).unwrap();
    let t = NaiveTime::from_hms(1, 2, 3).unwrap();
    let ndt = NaiveDateTime::new(d, t);
    assert_eq!(Utc.offset_from_local_date(&d).unwrap().fix(), FixedOffset::east(0));
    assert_eq!(Utc.offset_from_local_datetime(&ndt).unwrap().fix(), FixedOffset::east(0));
    assert_eq!(Utc.offset_from_utc_date(&d).unwrap().fix(), FixedOffset::east(0));
    assert_eq!(Utc.offset_from_utc_datetime(&ndt).unwrap().fix(), FixedOffset::east(0));
    assert_eq!(Utc.offset_from_utc_date_fixed(&d).fix(), FixedOffset::east(0));
    assert_eq!(Utc.offset_from_utc_datetime_fixed(&ndt).fix(), FixedOffset::east(0));
}

#[test]
fn test_now_and_today() {
    let dt = Utc::now().unwrap();
    assert!(dt.timestamp() > 0);
    Utc::today().unwrap();
}

#[test]
fn test_clock_reading_before_epoch() {
    let e = err_of(Utc::from_clock_reading(None));
    assert_eq!(e.kind(), ChronoErrorKind::SystemTimeBeforeEpoch);
    assert_eq!(e.message(), "system time before Unix epoch");
    let dt = Utc::from_clock_reading(Some((0, 0))).unwrap();
    assert_eq!(dt.to_string(), "1970-01-01 00:00:00 UTC");
}

#[test]
fn test_fixed_offset_local_conversion() {
    let zone = FixedOffset::east(3600);
    let local = NaiveDateTime::new(
        NaiveDate::from_ymd(1970, 1, 1).unwrap(),
        NaiveTime::from_hms(1, 0, 0).unwrap(),
    );
    let dt = zone.from_local_datetime(&local).unwrap();
    assert_eq!(dt.timestamp(), 0);

    let west = FixedOffset::west(3600);
    let dt = west.from_local_datetime(&local).unwrap();
    assert_eq!(dt.timestamp(), 7200);
}

#[test]
fn test_leap_second_rendering() {
    let d = Utc.ymd(2015, 6, 30).unwrap();
    let lr = LocalResult::Single(d).and_hms_milli(23, 59, 59, 1999).unwrap();
    let dt = lr.unwrap();
    assert_eq!(dt.to_string(), "2015-06-30 23:59:60.999 UTC");
}

#[test]
fn test_calendar_edges() {
    let first = NaiveDate::from_ymd(-262144, 1, 1).unwrap();
    assert!(first.pred().is_err());
    assert!(first.succ().is_ok());
    let last = NaiveDate::from_ymd(262143, 12, 31).unwrap();
    assert!(last.succ().is_err());
    assert!(last.pred().is_ok());
    assert!(NaiveDate::from_ymd(-262145, 1, 1).is_err());
    assert!(NaiveDate::from_ymd(262144, 1, 1).is_err());
}

#[test]
fn test_weekdays() {
    assert_eq!(NaiveDate::from_ymd(1970, 1, 1).unwrap().weekday(), Weekday::Thu);
    assert_eq!(NaiveDate::from_ymd(2015, 5, 15).unwrap().weekday(), Weekday::Fri);
    assert_eq!(Weekday::Mon.num_days_from_monday(), 0);
    assert_eq!(Weekday::Sun.num_days_from_monday(), 6);
}

#[test]
fn test_datetime_from_timestamp_roundtrip() {
    for &secs in &[0i64, 1, -1, 86399, 86400, -86400, 1431648000, -3600] {
        let ndt = NaiveDateTime::from_timestamp(secs, 0).unwrap();
        assert_eq!(ndt.timestamp(), secs);
    }
}
