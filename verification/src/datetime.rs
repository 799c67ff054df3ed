//! Calendar date/time handling for recording timestamps.
//!
//! A recording's `file_open_time` is an RFC 3339 timestamp with an explicit
//! offset. Parsing is delegated to `chrono`; everything derived from the
//! parsed wall-clock fields — the broadcast-day rollback, the conversion to
//! the fixed UTC+8 display zone, and the digit-exact rendering — is verified
//! here.

use crate::textfmt::{push_pad2, push_pad4, spec_pad2, spec_pad4, spec_u64_string, u64_string};
use chrono::{Datelike, Offset, Timelike};
use vstd::prelude::*;

verus! {

/// Wall-clock fields of a parsed RFC 3339 timestamp, together with its
/// offset from UTC in seconds (always a whole number of minutes).
#[derive(Clone, Copy, PartialEq, Eq, Structural, Debug)]
pub struct DateTimeParts {
    pub year: i32,
    pub month: u8,
    pub day: u8,
    pub hour: u8,
    pub minute: u8,
    pub second: u8,
    pub offset_sec: i32,
}

/// Proleptic Gregorian leap year.
pub open spec fn spec_is_leap_year(y: int) -> bool {
    y % 4 == 0 && (y % 100 != 0 || y % 400 == 0)
}

/// Number of days in a month of the proleptic Gregorian calendar.
pub open spec fn spec_days_in_month(y: int, m: int) -> int {
    if m == 2 {
        if spec_is_leap_year(y) {
            29
        } else {
            28
        }
    } else if m == 4 || m == 6 || m == 9 || m == 11 {
        30
    } else {
        31
    }
}

/// A calendar date within the ranges a 4-digit timestamp can carry.
pub open spec fn spec_valid_date(y: int, m: int, d: int) -> bool {
    &&& 0 <= y <= 9999
    &&& 1 <= m <= 12
    &&& 1 <= d <= spec_days_in_month(y, m)
}

/// What `chrono` guarantees of every successfully parsed RFC 3339 timestamp.
pub open spec fn valid_parts(p: DateTimeParts) -> bool {
    &&& spec_valid_date(p.year as int, p.month as int, p.day as int)
    &&& p.hour <= 23
    &&& p.minute <= 59
    &&& p.second <= 59
    &&& -86340 <= p.offset_sec <= 86340
    &&& p.offset_sec % 60 == 0
}

/// The calendar day before `(y, m, d)`.
pub open spec fn spec_prev_day(y: int, m: int, d: int) -> (int, int, int) {
    if d > 1 {
        (y, m, d - 1)
    } else if m > 1 {
        (y, m - 1, spec_days_in_month(y, m - 1))
    } else {
        (y - 1, 12, 31)
    }
}

/// The calendar day after `(y, m, d)`.
pub open spec fn spec_next_day(y: int, m: int, d: int) -> (int, int, int) {
    if d < spec_days_in_month(y, m) {
        (y, m, d + 1)
    } else if m < 12 {
        (y, m + 1, 1)
    } else {
        (y + 1, 1, 1)
    }
}

/// `(y, m, d)` shifted by `delta` days, for the small shifts a time-zone
/// change or the broadcast-day rule can cause.
pub open spec fn spec_shift_days(y: int, m: int, d: int, delta: int) -> (int, int, int) {
    if delta == -1 {
        spec_prev_day(y, m, d)
    } else if delta == 1 {
        spec_next_day(y, m, d)
    } else if delta == 2 {
        let n = spec_next_day(y, m, d);
        spec_next_day(n.0, n.1, n.2)
    } else {
        (y, m, d)
    }
}

/// Year rendered as four zero-padded digits, with a leading minus sign for
/// the year before year zero and plain digits for the year after 9999, the
/// two neighbours a one-day shift can reach.
pub open spec fn spec_year_string(y: int) -> Seq<char> {
    if y < 0 {
        seq!['-'] + spec_pad4(-y)
    } else if y <= 9999 {
        spec_pad4(y)
    } else {
        spec_u64_string(y)
    }
}

/// `YYYY.MM.DD` rendering of a calendar day.
pub open spec fn spec_ymd_dotted(y: int, m: int, d: int) -> Seq<char> {
    spec_year_string(y) + seq!['.'] + spec_pad2(m) + seq!['.'] + spec_pad2(d)
}

/// The broadcast-day date of a timestamp: a stream that opens before 04:00
/// local time is attributed to the previous calendar day.
pub open spec fn spec_date_string(p: DateTimeParts) -> Seq<char> {
    if p.hour < 4 {
        let q = spec_prev_day(p.year as int, p.month as int, p.day as int);
        spec_ymd_dotted(q.0, q.1, q.2)
    } else {
        spec_ymd_dotted(p.year as int, p.month as int, p.day as int)
    }
}

/// Minutes into the day after shifting the wall clock from the timestamp's
/// own offset to UTC+8, before day normalization.
pub open spec fn spec_shifted_total_min(p: DateTimeParts) -> int {
    p.hour * 60 + p.minute + 480 - p.offset_sec / 60
}

/// `YYYYMMDD-HHMMSS` rendering of the timestamp in the fixed UTC+8 zone.
pub open spec fn spec_time_string(p: DateTimeParts) -> Seq<char> {
    let total = spec_shifted_total_min(p);
    let delta = total / 1440;
    let rem = total % 1440;
    let date = spec_shift_days(p.year as int, p.month as int, p.day as int, delta);
    spec_year_string(date.0) + spec_pad2(date.1) + spec_pad2(date.2) + seq!['-'] + spec_pad2(
        rem / 60,
    ) + spec_pad2(rem % 60) + spec_pad2(p.second as int)
}

/// Fields a successful RFC 3339 parse yields for a given string; the result
/// depends on the string alone.
pub uninterp spec fn rfc3339_parts_of(s: Seq<char>) -> Option<DateTimeParts>;

/// Relies on `chrono::DateTime::parse_from_rfc3339`: it accepts a full RFC
/// 3339 date-time only, validates the calendar date against the proleptic
/// Gregorian calendar, keeps hours below 24 and minutes/seconds below 60
/// (a leap second is folded into second 59), and bounds the offset within
/// ±23:59; the `Datelike`/`Timelike` accessors return those wall-clock
/// fields, and `offset().local_minus_utc()` the offset in seconds.
#[verifier::external_body]
pub fn parse_rfc3339(s: &str) -> (r: Option<DateTimeParts>)
    ensures
        r == rfc3339_parts_of(s@),
        r is Some ==> valid_parts(r.unwrap()),
{
    match chrono::DateTime::parse_from_rfc3339(s) {
        Ok(dt) => Some(DateTimeParts {
            year: dt.year(),
            month: dt.month() as u8,
            day: dt.day() as u8,
            hour: dt.hour() as u8,
            minute: dt.minute() as u8,
            second: dt.second() as u8,
            offset_sec: dt.offset().fix().local_minus_utc(),
        }),
        Err(_) => None,
    }
}

/// Relies on `chrono::Utc::now`: the current time as Unix seconds; nothing
/// further is assumed of the clock.
#[verifier::external_body]
pub fn now_unix() -> i64 {
    chrono::Utc::now().timestamp()
}

impl DateTimeParts {
    /// The calendar day before this one.
    fn prev_day(&self) -> (r: (i32, u8, u8))
        requires
            spec_valid_date(self.year as int, self.month as int, self.day as int),
        ensures
            (r.0 as int, r.1 as int, r.2 as int) == spec_prev_day(
                self.year as int,
                self.month as int,
                self.day as int,
            ),
    {
        if self.day > 1 {
            (self.year, self.month, self.day - 1)
        } else if self.month > 1 {
            (self.year, self.month - 1, days_in_month(self.year, self.month - 1))
        } else {
            (self.year - 1, 12, 31)
        }
    }

    /// The calendar day after this one.
    fn next_day_from(y: i32, m: u8, d: u8) -> (r: (i32, u8, u8))
        requires
            0 <= y <= 10000,
            1 <= m <= 12,
            1 <= d <= spec_days_in_month(y as int, m as int),
        ensures
            (r.0 as int, r.1 as int, r.2 as int) == spec_next_day(y as int, m as int, d as int),
    {
        if d < days_in_month(y, m) {
            (y, m, d + 1)
        } else if m < 12 {
            (y, m + 1, 1)
        } else {
            (y + 1, 1, 1)
        }
    }

    /// `YYYY.MM.DD` under the broadcast-day convention: an opening hour
    /// before 04:00 counts toward the previous calendar day.
    pub fn date_string(&self) -> (r: String)
        requires
            valid_parts(*self),
        ensures
            r@ == spec_date_string(*self),
    {
        let (y, m, d) = if self.hour < 4 {
            self.prev_day()
        } else {
            (self.year, self.month, self.day)
        };
        let mut out = String::new();
        push_year(&mut out, y);
        proof {
            reveal_strlit(".");
        }
        out.append(".");
        push_pad2(&mut out, m as u64);
        out.append(".");
        push_pad2(&mut out, d as u64);
        proof {
            assert(out@ =~= if self.hour < 4 {
                let q = spec_prev_day(self.year as int, self.month as int, self.day as int);
                spec_ymd_dotted(q.0, q.1, q.2)
            } else {
                spec_ymd_dotted(self.year as int, self.month as int, self.day as int)
            });
        }
        out
    }

    /// `YYYYMMDD-HHMMSS` in the fixed UTC+8 zone, whatever offset the
    /// timestamp itself carries.
    pub fn time_string(&self) -> (r: String)
        requires
            valid_parts(*self),
        ensures
            r@ == spec_time_string(*self),
    {
        let off_min: i32 = if self.offset_sec >= 0 {
            ((self.offset_sec as u64) / 60) as i32
        } else {
            -((((-self.offset_sec) as u64) / 60) as i32)
        };
        proof {
            assert(off_min == self.offset_sec as int / 60);
        }
        let total: i32 = self.hour as i32 * 60 + self.minute as i32 + 480 - off_min;
        let (delta, rem): (i32, i32) = if total < 0 {
            (-1, total + 1440)
        } else {
            let t = total as u64;
            ((t / 1440) as i32, (t % 1440) as i32)
        };
        proof {
            assert(delta == spec_shifted_total_min(*self) / 1440);
            assert(rem == spec_shifted_total_min(*self) % 1440);
        }
        let (y, m, d): (i32, u8, u8) = if delta == -1 {
            self.prev_day()
        } else if delta >= 1 {
            let mut cur = Self::next_day_from(self.year, self.month, self.day);
            if delta == 2 {
                cur = Self::next_day_from(cur.0, cur.1, cur.2);
            }
            cur
        } else {
            (self.year, self.month, self.day)
        };
        let mut out = String::new();
        push_year(&mut out, y);
        push_pad2(&mut out, m as u64);
        push_pad2(&mut out, d as u64);
        proof {
            reveal_strlit("-");
        }
        out.append("-");
        push_pad2(&mut out, (rem / 60) as u64);
        push_pad2(&mut out, (rem % 60) as u64);
        push_pad2(&mut out, self.second as u64);
        proof {
            assert(out@ =~= spec_time_string(*self));
        }
        out
    }
}

/// Days in a month of the proleptic Gregorian calendar.
pub fn days_in_month(y: i32, m: u8) -> (r: u8)
    requires
        0 <= y,
        1 <= m <= 12,
    ensures
        r as int == spec_days_in_month(y as int, m as int),
{
    if m == 2 {
        if (y % 4 == 0 && (y % 100 != 0 || y % 400 == 0)) {
            29
        } else {
            28
        }
    } else if m == 4 || m == 6 || m == 9 || m == 11 {
        30
    } else {
        31
    }
}

/// Appends the rendered year.
fn push_year(out: &mut String, y: i32)
    requires
        -9999 <= y,
    ensures
        final(out)@ == old(out)@ + spec_year_string(y as int),
{
    if y < 0 {
        proof {
            reveal_strlit("-");
        }
        out.append("-");
        push_pad4(out, (-y) as u64);
    } else if y <= 9999 {
        push_pad4(out, y as u64);
    } else {
        let s = u64_string(y as u64);
        out.append(s.as_str());
    }
}

/// The broadcast-day rollback law: at a local opening hour strictly before
/// 04:00 the derived date is the previous calendar day; from 04:00 on it is
/// the timestamp's own calendar day.
pub proof fn lemma_broadcast_day_rollback(p: DateTimeParts)
    requires
        valid_parts(p),
    ensures
        p.hour < 4 ==> spec_date_string(p) == spec_ymd_dotted(
            spec_prev_day(p.year as int, p.month as int, p.day as int).0,
            spec_prev_day(p.year as int, p.month as int, p.day as int).1,
            spec_prev_day(p.year as int, p.month as int, p.day as int).2,
        ),
        p.hour >= 4 ==> spec_date_string(p) == spec_ymd_dotted(
            p.year as int,
            p.month as int,
            p.day as int,
        ),
{
}

} // verus!
