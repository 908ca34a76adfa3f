use chrono::{DateTime, Datelike, NaiveDate, NaiveDateTime, Timelike, Utc};
use whois_service::dates::{parse_date, Moment};

fn moment(y: i32, m: u32, d: u32, h: u32, min: u32, s: u32, nano: u32) -> (Moment, NaiveDateTime) {
    let n = NaiveDate::from_ymd_opt(y, m, d).unwrap().and_hms_nano_opt(h, min, s, nano).unwrap();
    (Moment { days: n.num_days_from_ce(), secs: n.num_seconds_from_midnight(), frac: n.nanosecond() }, n)
}

#[test]
fn parse_date_reads_a_plain_date_as_midnight() {
    assert_eq!(parse_date("2020-01-01"), Some(Moment { days: 737425, secs: 0, frac: 0 }));
    assert_eq!(parse_date("  2020-01-01  "), Some(Moment { days: 737425, secs: 0, frac: 0 }));
}

#[test]
fn parse_date_reads_each_known_format() {
    let noon = Moment { days: 739389, secs: 13 * 3600 + 36 * 60 + 6, frac: 0 };
    let midnight = Moment { days: 739389, secs: 0, frac: 0 };
    assert_eq!(parse_date("2025-05-18T13:36:06.0Z"), Some(noon));
    assert_eq!(parse_date("2025-05-18T13:36:06+0000"), Some(noon));
    assert_eq!(parse_date("2025-05-18T15:36:06+0200"), Some(noon));
    assert_eq!(parse_date("2025-05-18 13:36:06"), Some(noon));
    assert_eq!(parse_date("2025-05-18"), Some(midnight));
    assert_eq!(parse_date("18-May-2025"), Some(midnight));
    assert_eq!(parse_date("18 May 2025"), Some(midnight));
    assert_eq!(parse_date("2025/05/18"), Some(midnight));
    assert_eq!(parse_date("05/18/2025"), Some(midnight));
    assert_eq!(parse_date("18.05.2025"), Some(midnight));
}

#[test]
fn parse_date_refuses_what_no_format_reads() {
    assert_eq!(parse_date(""), None);
    assert_eq!(parse_date("yesterday"), None);
    assert_eq!(parse_date("2025-13-40"), None);
}

#[test]
fn parse_date_reads_the_dates_of_rdap_replies() {
    let at = Moment { days: 739389, secs: 13 * 3600 + 36 * 60 + 6, frac: 0 };
    assert_eq!(parse_date("2025-05-18T13:36:06Z"), Some(at));
    assert_eq!(parse_date("2025-05-18T14:36:06+01:00"), Some(at));
    assert_eq!(
        parse_date("2025-05-18T13:36:06.5Z"),
        Some(Moment { frac: 500_000_000, ..at })
    );
}

#[test]
fn midnight_is_the_start_of_the_day() {
    assert_eq!(Moment::midnight(737425), Moment { days: 737425, secs: 0, frac: 0 });
}

#[test]
fn days_since_counts_whole_days_toward_zero() {
    let (a, _) = moment(2020, 1, 11, 0, 0, 0, 0);
    let (b, _) = moment(2020, 1, 1, 0, 0, 0, 0);
    assert_eq!(a.days_since(&b), 10);
    assert_eq!(b.days_since(&a), -10);
    let (c, _) = moment(2020, 1, 10, 23, 59, 59, 999_999_999);
    assert_eq!(c.days_since(&b), 9);
    assert_eq!(b.days_since(&c), -9);
    let (d, _) = moment(2020, 1, 1, 0, 0, 0, 1);
    assert_eq!(d.days_since(&b), 0);
    assert_eq!(b.days_since(&d), 0);
    assert_eq!(b.days_since(&b), 0);
}

#[test]
fn days_since_agrees_with_the_calendar_library() {
    let samples = [
        moment(1970, 1, 1, 0, 0, 0, 0),
        moment(1999, 12, 31, 23, 59, 59, 999_999_999),
        moment(2000, 1, 1, 0, 0, 0, 0),
        moment(2015, 6, 30, 23, 59, 59, 1_500_000_000),
        moment(2015, 6, 30, 23, 59, 59, 1_000_000_000),
        moment(2015, 6, 30, 23, 0, 0, 0),
        moment(2015, 7, 1, 0, 0, 0, 0),
        moment(2015, 7, 1, 23, 59, 59, 0),
        moment(2015, 7, 1, 23, 59, 59, 1_999_999_999),
        moment(2020, 2, 29, 12, 0, 0, 250_000_000),
        moment(2020, 1, 11, 0, 0, 0, 0),
        moment(2020, 1, 10, 0, 0, 0, 1),
        moment(1, 1, 1, 0, 0, 0, 0),
        moment(9999, 12, 31, 23, 59, 59, 999_999_999),
        moment(-2000, 3, 1, 6, 30, 0, 7),
    ];
    for (a, na) in samples.iter() {
        for (b, nb) in samples.iter() {
            let expected = (DateTime::<Utc>::from_naive_utc_and_offset(*na, Utc)
                - DateTime::<Utc>::from_naive_utc_and_offset(*nb, Utc))
            .num_days();
            assert_eq!(a.days_since(b), expected);
        }
    }
}
