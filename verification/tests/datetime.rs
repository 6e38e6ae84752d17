use acter_executor::content::UtcDateTime;
use acter_executor::datetime::DateTimeError;

#[test]
fn an_rfc3339_date_is_read_to_the_millisecond() {
    assert_eq!(
        UtcDateTime::from_rfc3339("1970-01-01T00:00:01.444Z"),
        Ok(UtcDateTime {
            timestamp: 1,
            subsec_nanos: 444_000_000,
        })
    );
    assert_eq!(
        UtcDateTime::from_rfc3339("2001-09-09T01:46:40.555+00:00"),
        Ok(UtcDateTime {
            timestamp: 1_000_000_000,
            subsec_nanos: 555_000_000,
        })
    );
    // the offset is taken into account
    assert_eq!(
        UtcDateTime::from_rfc3339("1996-12-19T16:39:57-08:00"),
        Ok(UtcDateTime {
            timestamp: 851_042_397,
            subsec_nanos: 0,
        })
    );
    assert_eq!(
        UtcDateTime::from_rfc3339("1969-12-31T23:59:59Z"),
        Ok(UtcDateTime {
            timestamp: -1,
            subsec_nanos: 0,
        })
    );
}

#[test]
fn what_is_no_rfc3339_date_is_not_read() {
    assert_eq!(UtcDateTime::from_rfc3339(""), Err(DateTimeError::Invalid));
    assert_eq!(
        UtcDateTime::from_rfc3339("851042397000"),
        Err(DateTimeError::Invalid)
    );
    assert_eq!(
        UtcDateTime::from_rfc3339("Tue, 1 Jul 2003 10:52:37 +0200"),
        Err(DateTimeError::Invalid)
    );
    assert_eq!(
        UtcDateTime::from_rfc3339("1996-13-19T16:39:57-08:00"),
        Err(DateTimeError::Invalid)
    );
}

#[test]
fn an_rfc2822_date_is_read() {
    assert_eq!(
        UtcDateTime::from_rfc2822("Tue, 1 Jul 2003 10:52:37 +0200"),
        Ok(UtcDateTime {
            timestamp: 1_057_049_557,
            subsec_nanos: 0,
        })
    );
    assert_eq!(
        UtcDateTime::from_rfc2822("Thu, 01 Jan 1970 00:00:00 GMT"),
        Ok(UtcDateTime {
            timestamp: 0,
            subsec_nanos: 0,
        })
    );
    assert_eq!(
        UtcDateTime::from_rfc2822("1996-12-19T16:39:57-08:00"),
        Err(DateTimeError::Invalid)
    );
}

#[test]
fn a_date_is_read_by_a_pattern() {
    assert_eq!(
        UtcDateTime::from_format("1983 Apr 13 12:09:14.274 +0000", "%Y %b %d %H:%M:%S%.3f %z"),
        Ok(UtcDateTime {
            timestamp: 419_083_754,
            subsec_nanos: 274_000_000,
        })
    );
    assert_eq!(
        UtcDateTime::from_format("2014-11-28 21:00:09 +09:00", "%Y-%m-%d %H:%M:%S %z"),
        Ok(UtcDateTime {
            timestamp: 1_417_176_009,
            subsec_nanos: 0,
        })
    );
    // without an offset the text denotes no point in time
    assert_eq!(
        UtcDateTime::from_format("2014-11-28 21:00:09", "%Y-%m-%d %H:%M:%S"),
        Err(DateTimeError::Invalid)
    );
    assert_eq!(
        UtcDateTime::from_format("2014-11-28", "%Q"),
        Err(DateTimeError::Invalid)
    );
}

#[test]
fn a_reading_is_a_point_in_time_or_a_failure() {
    assert_eq!(
        UtcDateTime::from_reading(Some((-1, 995_000_000))),
        Ok(UtcDateTime {
            timestamp: -1,
            subsec_nanos: 995_000_000,
        })
    );
    assert_eq!(UtcDateTime::from_reading(None), Err(DateTimeError::Invalid));
}

#[test]
fn a_date_is_read_to_the_nanosecond() {
    assert_eq!(
        UtcDateTime::from_rfc3339("1970-01-01T00:00:01.123456789Z"),
        Ok(UtcDateTime {
            timestamp: 1,
            subsec_nanos: 123_456_789,
        })
    );
    // two points in time within one millisecond are told apart
    assert_ne!(
        UtcDateTime::from_rfc3339("2020-02-02T02:02:02.000001Z"),
        UtcDateTime::from_rfc3339("2020-02-02T02:02:02.000002Z")
    );
    assert_eq!(
        UtcDateTime::from_format(
            "1983 Apr 13 12:09:14.274000001 +0000",
            "%Y %b %d %H:%M:%S%.9f %z"
        ),
        Ok(UtcDateTime {
            timestamp: 419_083_754,
            subsec_nanos: 274_000_001,
        })
    );
}

#[test]
fn a_point_before_the_epoch_counts_its_nanoseconds_forward() {
    assert_eq!(
        UtcDateTime::from_rfc3339("1969-12-31T23:59:59.25Z"),
        Ok(UtcDateTime {
            timestamp: -1,
            subsec_nanos: 250_000_000,
        })
    );
}
