//! Civil date and time as plain values: parsing the sources' fixed-format
//! stamps, epoch arithmetic for uptime, the day-before step for the event
//! window, and zero-padded rendering. The clock itself is read through the
//! one trusted item at the bottom.

use vstd::prelude::*;
use chrono::{Datelike, Timelike};
use crate::text::{dec_rep, digit_val, digit_value, is_digit, u64_dec_chars, append_chars, chars_string, str_chars};

verus! {

/// One civil date and time, in no particular zone.
pub struct DateStamp {
    /// The calendar year.
    pub year: i64,
    /// The month, one to twelve.
    pub month: u32,
    /// The day of the month, from one.
    pub day: u32,
    /// The hour, below twenty-four.
    pub hour: u32,
    /// The minute, below sixty.
    pub minute: u32,
    /// The second, below sixty.
    pub second: u32,
}

/// Whether a year is a leap year.
pub open spec fn is_leap(y: int) -> bool {
    (y % 4 == 0 && y % 100 != 0) || y % 400 == 0
}

/// The days a month has.
pub open spec fn days_in_month(y: int, m: int) -> int {
    if m == 2 {
        if is_leap(y) {
            29
        } else {
            28
        }
    } else if m == 4 || m == 6 || m == 9 || m == 11 {
        30
    } else {
        31
    }
}

/// Whether a stamp names a real calendar date and time of day, within the
/// four-digit-year range the sources use.
pub open spec fn stamp_valid(st: DateStamp) -> bool {
    &&& 1 <= st.year <= 9999
    &&& 1 <= st.month <= 12
    &&& 1 <= st.day <= days_in_month(st.year as int, st.month as int)
    &&& st.hour < 24
    &&& st.minute < 60
    &&& st.second < 60
}

/// The days a month has, as a value.
pub fn month_days(y: i64, m: u32) -> (r: u32)
    requires
        1 <= m <= 12,
    ensures
        r == days_in_month(y as int, m as int),
{
    if m == 2 {
        if (y % 4 == 0 && y % 100 != 0) || y % 400 == 0 {
            29
        } else {
            28
        }
    } else if m == 4 || m == 6 || m == 9 || m == 11 {
        30
    } else {
        31
    }
}

/// The day count from the civil epoch to a date: whole elapsed four-century
/// eras, then years of the era with their leap days, then the day of the
/// shifted year that starts in March.
pub open spec fn days_from_civil(y: int, m: int, d: int) -> int {
    let ys = if m <= 2 {
        y - 1
    } else {
        y
    };
    let era = ys / 400;
    let yoe = ys - era * 400;
    let mp = if m > 2 {
        m - 3
    } else {
        m + 9
    };
    let doy = (153 * mp + 2) / 5 + d - 1;
    let doe = yoe * 365 + yoe / 4 - yoe / 100 + doy;
    era * 146097 + doe - 719468
}

/// Seconds from the civil epoch to a stamp.
pub open spec fn epoch_seconds_spec(st: DateStamp) -> int {
    days_from_civil(st.year as int, st.month as int, st.day as int) * 86400 + st.hour * 3600
        + st.minute * 60 + st.second
}

/// Counts the seconds from the civil epoch to a stamp.
pub fn epoch_seconds(st: &DateStamp) -> (r: i64)
    requires
        stamp_valid(*st),
    ensures
        r == epoch_seconds_spec(*st),
{
    let ys: i64 = if st.month <= 2 {
        st.year - 1
    } else {
        st.year
    };
    let era: i64 = ys / 400;
    let yoe: i64 = ys - era * 400;
    let mp: i64 = if st.month > 2 {
        st.month as i64 - 3
    } else {
        st.month as i64 + 9
    };
    let doy: i64 = (153 * mp + 2) / 5 + st.day as i64 - 1;
    let doe: i64 = yoe * 365 + yoe / 4 - yoe / 100 + doy;
    let days: i64 = era * 146097 + doe - 719468;
    proof {
        assert(0 <= yoe < 400) by (nonlinear_arith)
            requires
                era == ys / 400,
                yoe == ys - era * 400,
                0 <= ys <= 9999,
        ;
    }
    days * 86400 + st.hour as i64 * 3600 + st.minute as i64 * 60 + st.second as i64
}

/// The same time of day one day earlier: the day steps back, rolling over
/// a month or year boundary where needed.
pub open spec fn day_before_spec(st: DateStamp) -> DateStamp {
    if st.day > 1 {
        DateStamp { day: (st.day - 1) as u32, ..st }
    } else if st.month > 1 {
        DateStamp {
            month: (st.month - 1) as u32,
            day: days_in_month(st.year as int, st.month as int - 1) as u32,
            ..st
        }
    } else {
        DateStamp { year: (st.year - 1) as i64, month: 12, day: 31, ..st }
    }
}

/// Steps a stamp back one day.
pub fn day_before(st: &DateStamp) -> (r: DateStamp)
    requires
        stamp_valid(*st),
    ensures
        r == day_before_spec(*st),
        st.year > 1 ==> stamp_valid(r),
{
    if st.day > 1 {
        DateStamp {
            year: st.year,
            month: st.month,
            day: st.day - 1,
            hour: st.hour,
            minute: st.minute,
            second: st.second,
        }
    } else if st.month > 1 {
        DateStamp {
            year: st.year,
            month: st.month - 1,
            day: month_days(st.year, st.month - 1),
            hour: st.hour,
            minute: st.minute,
            second: st.second,
        }
    } else {
        DateStamp {
            year: st.year - 1,
            month: 12,
            day: 31,
            hour: st.hour,
            minute: st.minute,
            second: st.second,
        }
    }
}

/// A value rendered in decimal and padded with zeros to two places.
pub open spec fn pad2(n: int) -> Seq<char> {
    if n < 10 {
        seq!['0'] + dec_rep(n)
    } else {
        dec_rep(n)
    }
}

/// A value rendered in decimal and padded with zeros to four places.
pub open spec fn pad4(n: int) -> Seq<char> {
    if n < 10 {
        seq!['0', '0', '0'] + dec_rep(n)
    } else if n < 100 {
        seq!['0', '0'] + dec_rep(n)
    } else if n < 1000 {
        seq!['0'] + dec_rep(n)
    } else {
        dec_rep(n)
    }
}

/// Renders a value to two places.
fn pad2_chars(n: u64) -> (r: Vec<char>)
    requires
        n < 100,
    ensures
        r@ == pad2(n as int),
{
    if n < 10 {
        let mut r: Vec<char> = Vec::new();
        r.push('0');
        let d = u64_dec_chars(n);
        append_chars(&mut r, &d);
        proof {
            assert(r@ =~= seq!['0'] + dec_rep(n as int));
        }
        r
    } else {
        u64_dec_chars(n)
    }
}

/// Renders a value to four places.
fn pad4_chars(n: u64) -> (r: Vec<char>)
    ensures
        r@ == pad4(n as int),
{
    if n < 10 {
        let mut r: Vec<char> = Vec::new();
        r.push('0');
        r.push('0');
        r.push('0');
        let d = u64_dec_chars(n);
        append_chars(&mut r, &d);
        proof {
            assert(r@ =~= seq!['0', '0', '0'] + dec_rep(n as int));
        }
        r
    } else if n < 100 {
        let mut r: Vec<char> = Vec::new();
        r.push('0');
        r.push('0');
        let d = u64_dec_chars(n);
        append_chars(&mut r, &d);
        proof {
            assert(r@ =~= seq!['0', '0'] + dec_rep(n as int));
        }
        r
    } else if n < 1000 {
        let mut r: Vec<char> = Vec::new();
        r.push('0');
        let d = u64_dec_chars(n);
        append_chars(&mut r, &d);
        proof {
            assert(r@ =~= seq!['0'] + dec_rep(n as int));
        }
        r
    } else {
        u64_dec_chars(n)
    }
}

/// How a stamp reads in the structured event query's time filter:
/// year-month-day, a capital tee, and the time, all zero-padded.
pub open spec fn stamp_text(st: DateStamp) -> Seq<char> {
    pad4(st.year as int) + seq!['-'] + pad2(st.month as int) + seq!['-'] + pad2(st.day as int)
        + seq!['T'] + pad2(st.hour as int) + seq![':'] + pad2(st.minute as int) + seq![':'] + pad2(
        st.second as int,
    )
}

/// Renders a stamp for the event query's time filter.
pub fn format_stamp(st: &DateStamp) -> (r: String)
    requires
        stamp_valid(*st),
    ensures
        r@ == stamp_text(*st),
{
    let mut s = pad4_chars(st.year as u64);
    s.push('-');
    let mo = pad2_chars(st.month as u64);
    append_chars(&mut s, &mo);
    s.push('-');
    let da = pad2_chars(st.day as u64);
    append_chars(&mut s, &da);
    s.push('T');
    let ho = pad2_chars(st.hour as u64);
    append_chars(&mut s, &ho);
    s.push(':');
    let mi = pad2_chars(st.minute as u64);
    append_chars(&mut s, &mi);
    s.push(':');
    let se = pad2_chars(st.second as u64);
    append_chars(&mut s, &se);
    proof {
        assert(s@ =~= stamp_text(*st));
    }
    chars_string(&s)
}

/// The value of a fixed run of digits.
pub open spec fn digits_val(s: Seq<char>, from: int, to: int) -> int
    decreases to - from when from <= to
{
    if from >= to {
        0
    } else {
        digits_val(s, from, to - 1) * 10 + digit_val(s[to - 1])
    }
}

/// Whether every character of a range is a digit.
pub open spec fn digits_in(s: Seq<char>, from: int, to: int) -> bool {
    forall|i: int| from <= i < to ==> is_digit(#[trigger] s[i])
}

/// Reads the fixed run of digits `[from, to)` of `v`.
fn read_digits(v: &Vec<char>, from: usize, to: usize) -> (r: Option<u64>)
    requires
        from <= to <= v@.len(),
        to - from <= 8,
    ensures
        match r {
            Some(x) => digits_in(v@, from as int, to as int) && x == digits_val(
                v@,
                from as int,
                to as int,
            ) && x < pow10(to - from as int),
            None => !digits_in(v@, from as int, to as int),
        },
{
    let mut acc: u64 = 0;
    let mut i: usize = from;
    proof {
        lemma_pow10_table();
    }
    while i < to
        invariant
            from <= i <= to <= v@.len(),
            to - from <= 8,
            digits_in(v@, from as int, i as int),
            acc == digits_val(v@, from as int, i as int),
        decreases to - i,
    {
        let c = v[i];
        if !('0' <= c && c <= '9') {
            assert(!is_digit(v@[i as int]));
            return None;
        }
        let d = digit_value(c);
        proof {
            lemma_pow10_table();
            lemma_digits_val_bound(v@, from as int, i as int);
            assert(pow10(i - from as int) <= pow10(7)) by {
                lemma_pow10_mono(i - from as int, 7);
            }
            assert(acc * 10 + d < 100000000) by (nonlinear_arith)
                requires
                    acc < 10000000,
                    d < 10,
            ;
            assert(digits_val(v@, from as int, i + 1 as int) == acc * 10 + d);
        }
        acc = acc * 10 + d;
        i = i + 1;
    }
    proof {
        lemma_digits_val_bound(v@, from as int, to as int);
    }
    Some(acc)
}

/// A run of digits is bounded by ten to its length.
proof fn lemma_digits_val_bound(s: Seq<char>, from: int, to: int)
    requires
        from <= to,
        digits_in(s, from, to),
    ensures
        0 <= digits_val(s, from, to) < pow10(to - from),
    decreases to - from,
{
    if from < to {
        lemma_digits_val_bound(s, from, to - 1);
        assert(is_digit(s[to - 1]));
        assert(digits_val(s, from, to - 1) * 10 + digit_val(s[to - 1]) < pow10(to - from)) by (
        nonlinear_arith)
            requires
                0 <= digits_val(s, from, to - 1) < pow10(to - from - 1),
                0 <= digit_val(s[to - 1]) < 10,
                pow10(to - from) == pow10(to - from - 1) * 10,
        ;
    }
}

/// Powers of ten grow with the exponent.
proof fn lemma_pow10_mono(a: int, b: int)
    requires
        0 <= a <= b,
    ensures
        pow10(a) <= pow10(b),
    decreases b - a,
{
    if a < b {
        lemma_pow10_mono(a, b - 1);
        lemma_pow10_pos(b - 1);
        assert(pow10(b) == pow10(b - 1) * 10);
        assert(pow10(b - 1) <= pow10(b - 1) * 10) by (nonlinear_arith)
            requires
                pow10(b - 1) >= 1,
        ;
    }
}

/// Powers of ten are at least one.
proof fn lemma_pow10_pos(k: int)
    requires
        k >= 0,
    ensures
        pow10(k) >= 1,
    decreases k,
{
    if k > 0 {
        lemma_pow10_pos(k - 1);
        assert(pow10(k) == pow10(k - 1) * 10);
        assert(pow10(k - 1) * 10 >= 1) by (nonlinear_arith)
            requires
                pow10(k - 1) >= 1,
        ;
    }
}

/// The small powers of ten, spelled out.
proof fn lemma_pow10_table()
    ensures
        pow10(0) == 1,
        pow10(1) == 10,
        pow10(2) == 100,
        pow10(3) == 1000,
        pow10(4) == 10000,
        pow10(5) == 100000,
        pow10(6) == 1000000,
        pow10(7) == 10000000,
        pow10(8) == 100000000,
{
    assert(pow10(0) == 1);
    assert(pow10(1) == 10);
    assert(pow10(2) == 100);
    assert(pow10(3) == 1000);
    assert(pow10(4) == 10000);
    assert(pow10(5) == 100000);
    assert(pow10(6) == 1000000);
    assert(pow10(7) == 10000000);
    assert(pow10(8) == 100000000);
}

/// Ten to a nonnegative power.
pub open spec fn pow10(k: int) -> int
    decreases k when k >= 0
{
    if k <= 0 {
        1
    } else {
        pow10(k - 1) * 10
    }
}

/// What a fourteen-character stamp parses to: four digits of year, then
/// two each of month, day, hour, minute and second, accepted only when
/// every run is digits and the whole names a real date and time.
pub open spec fn parsed_stamp(s: Seq<char>) -> Option<DateStamp> {
    if s.len() < 14 {
        None
    } else if digits_in(s, 0, 14) {
        let st = DateStamp {
            year: digits_val(s, 0, 4) as i64,
            month: digits_val(s, 4, 6) as u32,
            day: digits_val(s, 6, 8) as u32,
            hour: digits_val(s, 8, 10) as u32,
            minute: digits_val(s, 10, 12) as u32,
            second: digits_val(s, 12, 14) as u32,
        };
        if stamp_valid(st) {
            Some(st)
        } else {
            None
        }
    } else {
        None
    }
}

/// Parses the leading fourteen characters of a source stamp (the sources
/// write year, month, day, hour, minute, second as digit runs).
pub fn parse_stamp14(s: &str) -> (r: Option<DateStamp>)
    ensures
        r == parsed_stamp(s@),
{
    let v = str_chars(s);
    if v.len() < 14 {
        return None;
    }
    let year = read_digits(&v, 0, 4);
    let month = read_digits(&v, 4, 6);
    let day = read_digits(&v, 6, 8);
    let hour = read_digits(&v, 8, 10);
    let minute = read_digits(&v, 10, 12);
    let second = read_digits(&v, 12, 14);
    match (year, month, day, hour, minute, second) {
        (Some(y), Some(mo), Some(da), Some(ho), Some(mi), Some(se)) => {
            proof {
                lemma_pow10_table();
            }
            let st = DateStamp {
                year: y as i64,
                month: mo as u32,
                day: da as u32,
                hour: ho as u32,
                minute: mi as u32,
                second: se as u32,
            };
            proof {
                assert(digits_in(s@, 0, 14));
            }
            let valid = 1 <= st.year && 1 <= st.month && st.month <= 12 && 1 <= st.day && st.day
                <= month_days(st.year, st.month as u32) && st.hour < 24 && st.minute < 60
                && st.second < 60;
            if valid {
                Some(st)
            } else {
                None
            }
        },
        _ => {
            proof {
                assert(!digits_in(s@, 0, 14));
            }
            None
        },
    }
}

/// What an eight-character date parses to: four digits of year, two each
/// of month and day.
pub open spec fn parsed_date(s: Seq<char>) -> Option<DateStamp> {
    if s.len() < 8 {
        None
    } else if digits_in(s, 0, 8) {
        let st = DateStamp {
            year: digits_val(s, 0, 4) as i64,
            month: digits_val(s, 4, 6) as u32,
            day: digits_val(s, 6, 8) as u32,
            hour: 0,
            minute: 0,
            second: 0,
        };
        if stamp_valid(st) {
            Some(st)
        } else {
            None
        }
    } else {
        None
    }
}

/// Parses the leading eight characters of a source date.
pub fn parse_date8(s: &str) -> (r: Option<DateStamp>)
    ensures
        r == parsed_date(s@),
{
    let v = str_chars(s);
    if v.len() < 8 {
        return None;
    }
    let year = read_digits(&v, 0, 4);
    let month = read_digits(&v, 4, 6);
    let day = read_digits(&v, 6, 8);
    match (year, month, day) {
        (Some(y), Some(mo), Some(da)) => {
            proof {
                lemma_pow10_table();
            }
            let st = DateStamp {
                year: y as i64,
                month: mo as u32,
                day: da as u32,
                hour: 0,
                minute: 0,
                second: 0,
            };
            proof {
                assert(digits_in(s@, 0, 8));
            }
            let valid = 1 <= st.year && 1 <= st.month && st.month <= 12 && 1 <= st.day && st.day
                <= month_days(st.year, st.month as u32);
            if valid {
                Some(st)
            } else {
                None
            }
        },
        _ => {
            proof {
                assert(!digits_in(s@, 0, 8));
            }
            None
        },
    }
}

/// What the time filter of the event query reads for a given clock value:
/// the same time one day earlier, rendered; empty when the clock's year
/// falls outside the four-digit range.
pub open spec fn window_text(st: DateStamp) -> Seq<char> {
    if stamp_valid(st) && st.year > 1 {
        stamp_text(day_before_spec(st))
    } else {
        Seq::<char>::empty()
    }
}

/// The start of the default event window: one day before now, in the
/// query's stamp form. What the clock read is not pinned; the result is
/// the window text of some in-range clock value, and empty when the clock
/// could not be read at all.
pub fn default_event_window_start() -> (r: String)
    ensures
        exists|st: DateStamp|
            1 <= #[trigger] st.month <= 12 && 1 <= st.day <= 31 && st.hour < 24 && st.minute < 60
                && st.second < 60 && r@ == window_text(st),
{
    let now = match now_civil_utc() {
        Some(now) => now,
        None => {
            let r = String::new();
            proof {
                let unread = DateStamp { year: 0, month: 1, day: 1, hour: 0, minute: 0, second: 0 };
                assert(1 <= unread.month <= 12 && 1 <= unread.day <= 31 && unread.hour < 24
                    && unread.minute < 60 && unread.second < 60 && r@ == window_text(unread));
            }
            return r;
        },
    };
    let ghost clock = now;
    let day_ok = now.day <= month_days(now.year, now.month);
    if 1 < now.year && now.year <= 9999 && day_ok {
        let start = day_before(&now);
        let r = format_stamp(&start);
        proof {
            assert(r@ == window_text(clock));
        }
        r
    } else {
        let r = String::new();
        proof {
            assert(r@ == window_text(clock));
        }
        r
    }
}

/// Relies on `std::time::SystemTime::now`/`duration_since` for the clock
/// reading and on `chrono::DateTime::from_timestamp` and its calendar
/// accessors for the civil fields: the current civil date and time in the
/// universal zone. Nothing when the clock reads before the epoch or beyond
/// the calendar's range; of a returned stamp, the month is one to twelve,
/// the day one to thirty-one, the hour below twenty-four, the minute and
/// the second below sixty (a leap second is carried in the fractional
/// part, which is not read). The year is whatever the clock says.
#[verifier::external_body]
fn now_civil_utc() -> (r: Option<DateStamp>)
    ensures
        r matches Some(st) ==> 1 <= st.month <= 12 && 1 <= st.day <= 31 && st.hour < 24
            && st.minute < 60 && st.second < 60,
{
    let elapsed = match std::time::SystemTime::now().duration_since(std::time::UNIX_EPOCH) {
        Ok(d) => d,
        Err(_) => return None,
    };
    let now = chrono::DateTime::from_timestamp(elapsed.as_secs() as i64, elapsed.subsec_nanos())?;
    Some(DateStamp {
        year: now.year() as i64,
        month: now.month(),
        day: now.day(),
        hour: now.hour(),
        minute: now.minute(),
        second: now.second(),
    })
}

/// The seconds from one stamp to another, the first taken as the earlier:
/// a clock that reads before the start yields the wrapped difference, as a
/// machine counter would.
pub open spec fn seconds_between_spec(from: DateStamp, to: DateStamp) -> u64 {
    (epoch_seconds_spec(to) - epoch_seconds_spec(from)) as u64
}

/// Counts the seconds from one stamp to another.
pub fn seconds_between(from: &DateStamp, to: &DateStamp) -> (r: u64)
    requires
        stamp_valid(*from),
        stamp_valid(*to),
    ensures
        r == seconds_between_spec(*from, *to),
{
    let a = epoch_seconds(from);
    let b = epoch_seconds(to);
    proof {
        lemma_epoch_bounds(*from);
        lemma_epoch_bounds(*to);
    }
    let diff: i64 = b - a;
    #[verifier::truncate] (diff as u64)
}

/// Epoch seconds of a valid stamp stay well inside the signed range.
proof fn lemma_epoch_bounds(st: DateStamp)
    requires
        stamp_valid(st),
    ensures
        -1000000000000 <= epoch_seconds_spec(st) <= 1000000000000,
{
    let y = st.year as int;
    let m = st.month as int;
    let d = st.day as int;
    let ys = if m <= 2 {
        y - 1
    } else {
        y
    };
    let era = ys / 400;
    let yoe = ys - era * 400;
    assert(0 <= era <= 24 && 0 <= yoe < 400) by (nonlinear_arith)
        requires
            era == ys / 400,
            yoe == ys - era * 400,
            0 <= ys <= 9999,
    ;
    let mp = if m > 2 {
        m - 3
    } else {
        m + 9
    };
    let doy = (153 * mp + 2) / 5 + d - 1;
    assert(0 <= doy <= 365);
    let doe = yoe * 365 + yoe / 4 - yoe / 100 + doy;
    assert(0 <= doe <= 146096) by (nonlinear_arith)
        requires
            doe == yoe * 365 + yoe / 4 - yoe / 100 + doy,
            0 <= yoe < 400,
            0 <= doy <= 365,
    ;
    let days = era * 146097 + doe - 719468;
    assert(-719468 <= days <= 24 * 146097 + 146096 - 719468);
    assert(days * 86400 <= 1000000000000 - 86400) by (nonlinear_arith)
        requires
            -719468 <= days <= 2933864,
    ;
    assert(days * 86400 >= -1000000000000) by (nonlinear_arith)
        requires
            -719468 <= days <= 2933864,
    ;
}

} // verus!
