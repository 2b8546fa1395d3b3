use chrono::TimeZone;
use chrono::Utc;

#[test]
fn test_negative_millis() {
    let dt = Utc.timestamp_millis(-1000).unwrap();
    assert_eq!(dt.to_string(), "1969-12-31 23:59:59 UTC");
    let dt = Utc.timestamp_millis(-7000).unwrap();
    assert_eq!(dt.to_string(), "1969-12-31 23:59:53 UTC");
    let dt = Utc.timestamp_millis(-7001).unwrap();
    assert_eq!(dt.to_string(), "1969-12-31 23:59:52.999 UTC");
    let dt = Utc.timestamp_millis(-7003).unwrap();
    assert_eq!(dt.to_string(), "1969-12-31 23:59:52.997 UTC");
    let dt = Utc.timestamp_millis(-999).unwrap();
    assert_eq!(dt.to_string(), "1969-12-31 23:59:59.001 UTC");
    let dt = Utc.timestamp_millis(-1).unwrap();
    assert_eq!(dt.to_string(), "1969-12-31 23:59:59.999 UTC");
    let dt = Utc.timestamp_millis(-60000).unwrap();
    assert_eq!(dt.to_string(), "1969-12-31 23:59:00 UTC");
    let dt = Utc.timestamp_millis(-3600000).unwrap();
    assert_eq!(dt.to_string(), "1969-12-31 23:00:00 UTC");

    for (millis, expected) in &[
        (-7000, "1969-12-31 23:59:53 UTC"),
        (-7001, "1969-12-31 23:59:52.999 UTC"),
        (-7003, "1969-12-31 23:59:52.997 UTC"),
    ] {
        let dt = Utc.timestamp_millis(*millis).unwrap();
        assert_eq!(dt.to_string(), *expected);
    }
}

#[test]
fn test_negative_nanos() {
    let dt = Utc.timestamp_nanos(-1_000_000_000).unwrap();
    assert_eq!(dt.to_string(), "1969-12-31 23:59:59 UTC");
    let dt = Utc.timestamp_nanos(-999_999_999).unwrap();
    assert_eq!(dt.to_string(), "1969-12-31 23:59:59.000000001 UTC");
    let dt = Utc.timestamp_nanos(-1).unwrap();
    assert_eq!(dt.to_string(), "1969-12-31 23:59:59.999999999 UTC");
    let dt = Utc.timestamp_nanos(-60_000_000_000).unwrap();
    assert_eq!(dt.to_string(), "1969-12-31 23:59:00 UTC");
    let dt = Utc.timestamp_nanos(-3_600_000_000_000).unwrap();
    assert_eq!(dt.to_string(), "1969-12-31 23:00:00 UTC");
}

#[test]
fn test_nanos_never_panics() {
    Utc.timestamp_nanos(i64::max_value()).unwrap();
    Utc.timestamp_nanos(i64::default()).unwrap();
    Utc.timestamp_nanos(i64::min_value()).unwrap();
}
