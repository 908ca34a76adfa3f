use crate::text::{chars_of, string_of, trim, trimmed};
use chrono::{DateTime, Datelike, NaiveDate, NaiveDateTime, Timelike, Utc};
use vstd::prelude::*;

verus! {

/// A point in time in UTC, held as the calendar reads it.
///
/// `frac` counts nanoseconds within the second and is 1,000,000,000 or more while a
/// leap second lasts.
#[derive(Clone, Copy, Debug, PartialEq, Eq, Structural)]
pub struct Moment {
    /// Days since the day before 1 January of the year 1.
    pub days: i32,
    /// Seconds since midnight.
    pub secs: u32,
    /// Nanoseconds since the last full second.
    pub frac: u32,
}

/// Seconds in a day.
pub const SECS_PER_DAY: i64 = 86_400;

/// Nanoseconds in a second.
pub const NANOS_PER_SEC: i64 = 1_000_000_000;

/// The whole seconds from `from` to `to`, rounded toward zero.
///
/// No leap second is counted but one that `from` or `to` itself stands in.
pub open spec fn elapsed_seconds(to: Moment, from: Moment) -> int {
    let leap: int = if to.secs > from.secs && from.frac >= NANOS_PER_SEC {
        1
    } else if to.secs < from.secs && to.frac >= NANOS_PER_SEC {
        -1
    } else {
        0
    };
    let frac: int = to.frac - from.frac;
    let floor = (to.days - from.days) * SECS_PER_DAY + (to.secs - from.secs) + leap + frac
        / (NANOS_PER_SEC as int);
    if floor < 0 && frac % (NANOS_PER_SEC as int) > 0 {
        floor + 1
    } else {
        floor
    }
}

/// The whole days in `secs` seconds, rounded toward zero.
pub open spec fn whole_days(secs: int) -> int {
    if secs >= 0 {
        secs / (SECS_PER_DAY as int)
    } else {
        -((-secs) / (SECS_PER_DAY as int))
    }
}

/// The whole days from `from` to `to`, rounded toward zero: negative where `to` is
/// a day or more before `from`.
pub open spec fn elapsed_days(to: Moment, from: Moment) -> int {
    whole_days(elapsed_seconds(to, from))
}

impl Moment {
    /// Midnight at the start of day `days`.
    pub fn midnight(days: i32) -> (m: Moment)
        ensures
            m == (Moment { days, secs: 0, frac: 0 }),
    {
        Moment { days, secs: 0, frac: 0 }
    }

    /// The whole days from `from` to `self`, rounded toward zero.
    pub fn days_since(&self, from: &Moment) -> (d: i64)
        ensures
            d == elapsed_days(*self, *from),
    {
        let leap: i64 = if self.secs > from.secs && from.frac >= 1_000_000_000 {
            1
        } else if self.secs < from.secs && self.frac >= 1_000_000_000 {
            -1
        } else {
            0
        };
        let frac: i64 = self.frac as i64 - from.frac as i64;
        let carry: i64 = if frac >= 0 {
            frac / NANOS_PER_SEC
        } else if (-frac) % NANOS_PER_SEC == 0 {
            -((-frac) / NANOS_PER_SEC)
        } else {
            -((-frac) / NANOS_PER_SEC) - 1
        };
        let exact: bool = if frac >= 0 {
            frac % NANOS_PER_SEC == 0
        } else {
            (-frac) % NANOS_PER_SEC == 0
        };
        proof {
            lemma_floor_div(frac as int, NANOS_PER_SEC as int);
        }
        let floor: i64 = (self.days as i64 - from.days as i64) * SECS_PER_DAY + (self.secs as i64
            - from.secs as i64) + leap + carry;
        let secs: i64 = if floor < 0 && !exact {
            floor + 1
        } else {
            floor
        };
        if secs >= 0 {
            secs / SECS_PER_DAY
        } else {
            -((-secs) / SECS_PER_DAY)
        }
    }
}

/// Division that rounds down, told from division of the magnitudes.
pub proof fn lemma_floor_div(a: int, d: int)
    requires
        d > 0,
    ensures
        a < 0 && (-a) % d == 0 ==> a / d == -((-a) / d) && a % d == 0,
        a < 0 && (-a) % d != 0 ==> a / d == -((-a) / d) - 1 && a % d > 0,
{
    if a < 0 {
        let q = (-a) / d;
        let r = (-a) % d;
        assert(-a == q * d + r && 0 <= r < d) by (nonlinear_arith)
            requires
                q == (-a) / d,
                r == (-a) % d,
                d > 0,
        ;
        assert((-q) * d == -(q * d) && (-q - 1) * d == -(q * d) - d) by (nonlinear_arith);
        if r == 0 {
            assert(a / d == -q && a % d == 0) by (nonlinear_arith)
                requires
                    a == (-q) * d,
                    d > 0,
            ;
        } else {
            assert(a / d == -q - 1 && a % d == d - r) by (nonlinear_arith)
                requires
                    a == (-q - 1) * d + (d - r),
                    0 < d - r < d,
                    d > 0,
            ;
        }
    }
}

/// What `chrono::DateTime::parse_from_str` reads out of `s` under the format `fmt`,
/// as a moment in UTC; `None` where it reports an error.
pub uninterp spec fn zoned_moment(s: Seq<char>, fmt: Seq<char>) -> Option<Moment>;

/// What `chrono::NaiveDateTime::parse_from_str` reads out of `s` under the format
/// `fmt`, taken as UTC; `None` where it reports an error.
pub uninterp spec fn plain_moment(s: Seq<char>, fmt: Seq<char>) -> Option<Moment>;

/// The day that `chrono::NaiveDate::parse_from_str` reads out of `s` under the
/// format `fmt`, counted as `Moment::days` is; `None` where it reports an error.
pub uninterp spec fn plain_day(s: Seq<char>, fmt: Seq<char>) -> Option<i32>;

/// Calls `chrono::DateTime::parse_from_str`, which needs a time zone in `s`, and
/// hands out the UTC date and time of the result. The result depends on the two
/// texts alone; the contract gives it its name and claims nothing else.
#[verifier::external_body]
pub(crate) fn parse_zoned(s: &str, fmt: &str) -> (r: Option<Moment>)
    ensures
        r == zoned_moment(s@, fmt@),
{
    match DateTime::parse_from_str(s, fmt) {
        Ok(dt) => {
            let n = dt.naive_utc();
            Some(Moment { days: n.num_days_from_ce(), secs: n.num_seconds_from_midnight(), frac: n.nanosecond() })
        },
        Err(_) => None,
    }
}

/// Calls `chrono::NaiveDateTime::parse_from_str`, which reads a date and a time of
/// day without a zone, and hands the result out as it stands. The result depends on
/// the two texts alone; the contract gives it its name and claims nothing else.
#[verifier::external_body]
pub(crate) fn parse_plain(s: &str, fmt: &str) -> (r: Option<Moment>)
    ensures
        r == plain_moment(s@, fmt@),
{
    match NaiveDateTime::parse_from_str(s, fmt) {
        Ok(n) => Some(
            Moment { days: n.num_days_from_ce(), secs: n.num_seconds_from_midnight(), frac: n.nanosecond() },
        ),
        Err(_) => None,
    }
}

/// Calls `chrono::NaiveDate::parse_from_str`, which reads a date alone, and hands
/// out its day count. The result depends on the two texts alone; the contract gives
/// it its name and claims nothing else.
#[verifier::external_body]
pub(crate) fn parse_day(s: &str, fmt: &str) -> (r: Option<i32>)
    ensures
        r == plain_day(s@, fmt@),
{
    match NaiveDate::parse_from_str(s, fmt) {
        Ok(d) => Some(d.num_days_from_ce()),
        Err(_) => None,
    }
}

/// Calls `chrono::Utc::now`: the reading of the system clock. Nothing is known of
/// what it returns.
#[verifier::external_body]
pub(crate) fn clock_now() -> Moment {
    let n = Utc::now().naive_utc();
    Moment { days: n.num_days_from_ce(), secs: n.num_seconds_from_midnight(), frac: n.nanosecond() }
}

/// The formats in which a date with a time of day is looked for, in order.
pub open spec fn datetime_formats() -> Seq<Seq<char>> {
    seq![
        "%Y-%m-%dT%H:%M:%S%.fZ"@,
        "%Y-%m-%dT%H:%M:%S%z"@,
        "%Y-%m-%d %H:%M:%S"@,
        "%Y-%m-%d"@,
        "%d-%b-%Y"@,
        "%d %b %Y"@,
        "%Y/%m/%d"@,
        "%m/%d/%Y"@,
        "%d.%m.%Y"@,
    ]
}

/// The formats in which a date alone is looked for, in order.
pub open spec fn date_formats() -> Seq<Seq<char>> {
    seq!["%Y-%m-%d"@, "%d-%b-%Y"@, "%d %b %Y"@, "%Y/%m/%d"@, "%m/%d/%Y"@, "%d.%m.%Y"@]
}

/// The moment that the first of `formats` to accept `s` gives, read with a zone.
pub open spec fn first_zoned(s: Seq<char>, formats: Seq<Seq<char>>) -> Option<Moment>
    decreases formats.len(),
{
    if formats.len() == 0 {
        None
    } else {
        match zoned_moment(s, formats[0]) {
            Some(m) => Some(m),
            None => first_zoned(s, formats.drop_first()),
        }
    }
}

/// The moment that the first of `formats` to accept `s` gives, read without a zone.
pub open spec fn first_plain(s: Seq<char>, formats: Seq<Seq<char>>) -> Option<Moment>
    decreases formats.len(),
{
    if formats.len() == 0 {
        None
    } else {
        match plain_moment(s, formats[0]) {
            Some(m) => Some(m),
            None => first_plain(s, formats.drop_first()),
        }
    }
}

/// Midnight of the day that the first of `formats` to accept `s` gives.
pub open spec fn first_day(s: Seq<char>, formats: Seq<Seq<char>>) -> Option<Moment>
    decreases formats.len(),
{
    if formats.len() == 0 {
        None
    } else {
        match plain_day(s, formats[0]) {
            Some(d) => Some(Moment { days: d, secs: 0, frac: 0 }),
            None => first_day(s, formats.drop_first()),
        }
    }
}

/// The moment that a date text of a registry reply stands for: the text is trimmed,
/// then read with a zone under each format, then without one, then as a date alone.
/// The first reading that succeeds counts.
pub open spec fn date_of(s: Seq<char>) -> Option<Moment> {
    let t = trim(s);
    match first_zoned(t, datetime_formats()) {
        Some(m) => Some(m),
        None => match first_plain(t, datetime_formats()) {
            Some(m) => Some(m),
            None => first_day(t, date_formats()),
        },
    }
}

/// The views of the texts in `v`, in order.
pub open spec fn format_views(v: Seq<&'static str>) -> Seq<Seq<char>> {
    Seq::new(v.len(), |i: int| v[i]@)
}

fn datetime_format_list() -> (r: Vec<&'static str>)
    ensures
        format_views(r@) == datetime_formats(),
{
    let r = vec![
        "%Y-%m-%dT%H:%M:%S%.fZ",
        "%Y-%m-%dT%H:%M:%S%z",
        "%Y-%m-%d %H:%M:%S",
        "%Y-%m-%d",
        "%d-%b-%Y",
        "%d %b %Y",
        "%Y/%m/%d",
        "%m/%d/%Y",
        "%d.%m.%Y",
    ];
    proof {
        assert(format_views(r@) =~= datetime_formats());
    }
    r
}

fn date_format_list() -> (r: Vec<&'static str>)
    ensures
        format_views(r@) == date_formats(),
{
    let r = vec!["%Y-%m-%d", "%d-%b-%Y", "%d %b %Y", "%Y/%m/%d", "%m/%d/%Y", "%d.%m.%Y"];
    proof {
        assert(format_views(r@) =~= date_formats());
    }
    r
}

/// Reads a date text in the formats that registries use.
pub fn parse_date(date_str: &str) -> (r: Option<Moment>)
    ensures
        r == date_of(date_str@),
{
    let t = string_of(&trimmed(&chars_of(date_str)));
    let s = t.as_str();
    let formats = datetime_format_list();
    let ghost all = datetime_formats();
    let mut i: usize = 0;
    proof {
        assert(all.skip(0) =~= all);
    }
    while i < formats.len()
        invariant
            i <= formats.len(),
            s@ == trim(date_str@),
            all == datetime_formats(),
            all == format_views(formats@),
            first_zoned(s@, all) == first_zoned(s@, all.skip(i as int)),
        decreases formats.len() - i,
    {
        let hit = parse_zoned(s, formats[i]);
        proof {
            assert(all.skip(i as int)[0] == formats@[i as int]@);
            assert(all.skip(i as int).drop_first() =~= all.skip(i + 1));
        }
        if hit.is_some() {
            return hit;
        }
        i += 1;
    }
    let mut i: usize = 0;
    while i < formats.len()
        invariant
            i <= formats.len(),
            s@ == trim(date_str@),
            all == datetime_formats(),
            all == format_views(formats@),
            first_zoned(s@, all) is None,
            first_plain(s@, all) == first_plain(s@, all.skip(i as int)),
        decreases formats.len() - i,
    {
        let hit = parse_plain(s, formats[i]);
        proof {
            assert(all.skip(i as int)[0] == formats@[i as int]@);
            assert(all.skip(i as int).drop_first() =~= all.skip(i + 1));
        }
        if hit.is_some() {
            return hit;
        }
        i += 1;
    }
    let days = date_format_list();
    let ghost dall = date_formats();
    let mut i: usize = 0;
    proof {
        assert(dall.skip(0) =~= dall);
    }
    while i < days.len()
        invariant
            i <= days.len(),
            s@ == trim(date_str@),
            all == datetime_formats(),
            dall == date_formats(),
            dall == format_views(days@),
            first_zoned(s@, all) is None,
            first_plain(s@, all) is None,
            first_day(s@, dall) == first_day(s@, dall.skip(i as int)),
        decreases days.len() - i,
    {
        let hit = parse_day(s, days[i]);
        proof {
            assert(dall.skip(i as int)[0] == days@[i as int]@);
            assert(dall.skip(i as int).drop_first() =~= dall.skip(i + 1));
        }
        match hit {
            Some(d) => {
                return Some(Moment::midnight(d));
            },
            None => {},
        }
        i += 1;
    }
    None
}

/// The days from `date` to `now`, where `date` is there.
pub open spec fn days_ago(date: Option<Moment>, now: Moment) -> Option<i64> {
    match date {
        Some(d) => Some(elapsed_days(now, d) as i64),
        None => None,
    }
}

/// The days from `now` to `date`, where `date` is there: negative once `date` is a
/// day or more in the past.
pub open spec fn days_until(date: Option<Moment>, now: Moment) -> Option<i64> {
    match date {
        Some(d) => Some(elapsed_days(d, now) as i64),
        None => None,
    }
}

/// Between two moments at the same time of day lie as many days as their dates
/// are apart.
pub proof fn lemma_days_between_dates(to: Moment, from: Moment)
    requires
        to.secs == from.secs,
        to.frac == from.frac,
    ensures
        elapsed_days(to, from) == to.days - from.days,
{
    let d = to.days - from.days;
    assert(elapsed_seconds(to, from) == d * 86_400);
    if d >= 0 {
        assert((d * 86_400) / 86_400 == d) by (nonlinear_arith)
            requires
                d >= 0,
        ;
    } else {
        assert((-(d * 86_400)) / 86_400 == -d) by (nonlinear_arith)
            requires
                d < 0,
        ;
    }
}

/// The nanoseconds from the start of day 0 to `m`, where `m` stands in no leap
/// second.
pub open spec fn nanos_of(m: Moment) -> int {
    (m.days * SECS_PER_DAY + m.secs) * NANOS_PER_SEC + m.frac
}

/// A date that lies a day or more before `now` gives a negative count of days
/// until it, and a positive count of days since it. Neither moment stands in a
/// leap second.
pub proof fn lemma_past_date_counts(date: Moment, now: Moment)
    requires
        date.frac < NANOS_PER_SEC,
        now.frac < NANOS_PER_SEC,
        nanos_of(now) - nanos_of(date) >= SECS_PER_DAY * NANOS_PER_SEC,
    ensures
        elapsed_days(date, now) < 0,
        elapsed_days(now, date) > 0,
{
    let whole = (now.days - date.days) * 86_400 + (now.secs - date.secs);
    let part = now.frac - date.frac;
    assert(whole * 1_000_000_000 + part >= 86_400 * 1_000_000_000) by (nonlinear_arith)
        requires
            whole == (now.days - date.days) * 86_400 + (now.secs - date.secs),
            part == now.frac - date.frac,
            ((now.days * 86_400 + now.secs) * 1_000_000_000 + now.frac) - ((date.days * 86_400
                + date.secs) * 1_000_000_000 + date.frac) >= 86_400 * 1_000_000_000,
    ;
    assert(-1_000_000_000 < part < 1_000_000_000);
    assert(whole >= 86_400) by (nonlinear_arith)
        requires
            whole * 1_000_000_000 + part >= 86_400 * 1_000_000_000,
            part < 1_000_000_000,
    ;
    assert(part >= 0 || whole >= 86_401) by (nonlinear_arith)
        requires
            whole * 1_000_000_000 + part >= 86_400 * 1_000_000_000,
    ;
    lemma_floor_div(part, 1_000_000_000);
    lemma_floor_div(-part, 1_000_000_000);
    let forth = elapsed_seconds(now, date);
    let back = elapsed_seconds(date, now);
    assert(part >= 0 ==> part / 1_000_000_000 == 0);
    assert(part > 0 ==> (-part) / 1_000_000_000 == -1);
    assert(part < 0 ==> part / 1_000_000_000 == -1 && (-part) / 1_000_000_000 == 0);
    assert(forth >= 86_400);
    assert(back <= -86_400);
    assert((-back) / 86_400 >= 1) by (nonlinear_arith)
        requires
            back <= -86_400,
    ;
    assert(forth / 86_400 >= 1) by (nonlinear_arith)
        requires
            forth >= 86_400,
    ;
}

} // verus!
