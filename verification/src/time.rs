//! Spans of time, the system clock, and HTTP dates.
//!
//! A `Duration` is read through the number of nanoseconds it spans, which
//! determines it; every delay this library computes is computed on that
//! number and turned back into a `Duration` at the end.
use vstd::prelude::*;
use std::time::{Duration, SystemTime};
use crate::text::{
    all_digits, chars_of, copy_range, ends_with, find_from, find_seq, parse_i64, parse_i64_spec,
    range_eq, split_first, split_on,
};

verus! {

#[verifier::external_type_specification]
#[verifier::external_body]
pub struct ExSystemTime(SystemTime);

/// The number of nanoseconds `d` spans, as `Duration::as_nanos` reports it.
pub uninterp spec fn span_nanos(d: Duration) -> nat;

/// The longest span a `Duration` holds: `u64::MAX` seconds and
/// 999 999 999 nanoseconds.
pub open spec fn max_span() -> nat {
    0xFFFF_FFFF_FFFF_FFFF * 1_000_000_000 + 999_999_999
}

/// The nanoseconds `d` spans.
///
/// Wraps `Duration::as_nanos`, which std documents as the total number of
/// whole nanoseconds; a `Duration` holds a `u64` of seconds and fewer than a
/// billion nanoseconds, so the total is at most [`max_span`].
#[verifier::external_body]
pub(crate) fn nanos_of(d: &Duration) -> (n: u128)
    ensures
        n == span_nanos(*d),
        n <= max_span(),
{
    d.as_nanos()
}

/// A `Duration` of `secs` seconds and `nanos` nanoseconds.
///
/// Wraps `Duration::new`, which std documents as spanning `secs` seconds plus
/// `nanos` nanoseconds; with `nanos` below a billion no carry into the seconds
/// occurs, so it does not panic.
#[verifier::external_body]
fn duration_new(secs: u64, nanos: u32) -> (d: Duration)
    requires
        nanos < 1_000_000_000,
    ensures
        span_nanos(d) == secs * 1_000_000_000 + nanos,
{
    Duration::new(secs, nanos)
}

/// The current wall-clock time.
///
/// Wraps `SystemTime::now`; nothing is promised of the reading.
#[verifier::external_body]
fn system_now() -> SystemTime {
    SystemTime::now()
}

/// How long after the Unix epoch `t` lies, or `None` when it lies before.
///
/// Wraps `SystemTime::duration_since(UNIX_EPOCH)`; nothing is promised of the
/// value, which reflects how the machine's clock is set.
#[verifier::external_body]
fn since_epoch(t: &SystemTime) -> Option<Duration> {
    t.duration_since(std::time::UNIX_EPOCH).ok()
}

/// A `Duration` spanning exactly `n` nanoseconds.
pub fn duration_of_nanos(n: u128) -> (d: Duration)
    requires
        n <= max_span(),
    ensures
        span_nanos(d) == n,
{
    let secs = n / 1_000_000_000;
    let sub = n % 1_000_000_000;
    duration_new(secs as u64, sub as u32)
}

/// A `Duration` of `secs` whole seconds.
pub fn duration_from_secs(secs: u64) -> (d: Duration)
    ensures
        span_nanos(d) == secs * 1_000_000_000,
{
    duration_new(secs, 0)
}

/// A `Duration` of `ms` milliseconds.
pub fn duration_from_millis(ms: u64) -> (d: Duration)
    ensures
        span_nanos(d) == ms * 1_000_000,
{
    let sub = ((ms % 1000) as u32) * 1_000_000;
    duration_new(ms / 1000, sub)
}

/// A `Duration` of `n` nanoseconds.
pub fn duration_from_nanos(n: u64) -> (d: Duration)
    ensures
        span_nanos(d) == n,
{
    duration_of_nanos(n as u128)
}

/// The nanoseconds into its second of a wall-clock reading taken as the
/// time since the epoch; zero for a reading that lies before the epoch.
pub open spec fn subsec_of_reading(reading: Option<Duration>) -> nat {
    match reading {
        Some(d) => span_nanos(d) % 1_000_000_000,
        None => 0,
    }
}

/// The whole seconds of a wall-clock reading taken as the time since the
/// epoch; zero for a reading that lies before the epoch.
pub open spec fn secs_of_reading(reading: Option<Duration>) -> nat {
    match reading {
        Some(d) => span_nanos(d) / 1_000_000_000,
        None => 0,
    }
}

/// The nanoseconds of the current second on the wall clock, or zero when the
/// clock reads before the epoch.
pub fn clock_subsec_nanos() -> (r: u32)
    ensures
        r < 1_000_000_000,
        exists|reading: Option<Duration>| r == #[trigger] subsec_of_reading(reading),
{
    let reading = since_epoch(&system_now());
    let r = match &reading {
        Some(d) => (nanos_of(d) % 1_000_000_000) as u32,
        None => 0,
    };
    assert(r == subsec_of_reading(reading));
    r
}

/// Whole seconds since the Unix epoch on the wall clock, or zero when the
/// clock reads before the epoch.
pub(crate) fn clock_epoch_secs() -> (r: u64)
    ensures
        exists|reading: Option<Duration>| r == #[trigger] secs_of_reading(reading),
{
    let reading = since_epoch(&system_now());
    let r = match &reading {
        Some(d) => (nanos_of(d) / 1_000_000_000) as u64,
        None => 0,
    };
    assert(r == secs_of_reading(reading));
    r
}

/// The month an IMF-fixdate abbreviation names, January being 1.
pub open spec fn month_number(name: Seq<char>) -> Option<int> {
    if name == seq!['J', 'a', 'n'] {
        Some(1)
    } else if name == seq!['F', 'e', 'b'] {
        Some(2)
    } else if name == seq!['M', 'a', 'r'] {
        Some(3)
    } else if name == seq!['A', 'p', 'r'] {
        Some(4)
    } else if name == seq!['M', 'a', 'y'] {
        Some(5)
    } else if name == seq!['J', 'u', 'n'] {
        Some(6)
    } else if name == seq!['J', 'u', 'l'] {
        Some(7)
    } else if name == seq!['A', 'u', 'g'] {
        Some(8)
    } else if name == seq!['S', 'e', 'p'] {
        Some(9)
    } else if name == seq!['O', 'c', 't'] {
        Some(10)
    } else if name == seq!['N', 'o', 'v'] {
        Some(11)
    } else if name == seq!['D', 'e', 'c'] {
        Some(12)
    } else {
        None
    }
}

/// Days from 1970-01-01 to the given civil date, counting backwards for
/// dates before it: the proleptic Gregorian calendar, as Howard Hinnant's
/// `days_from_civil` computes it.
pub open spec fn days_from_civil(year: int, month: int, day: int) -> int {
    let y = if month <= 2 {
        year - 1
    } else {
        year
    };
    let m = if month <= 2 {
        month + 9
    } else {
        month - 3
    };
    let era = y / 400;
    let year_of_era = y - era * 400;
    let day_of_year = (153 * m + 2) / 5 + day - 1;
    let day_of_era = year_of_era * 365 + year_of_era / 4 - year_of_era / 100 + day_of_year;
    era * 146_097 + day_of_era - 719_468
}

/// Seconds since the epoch of a civil date and time, or `None` where the
/// seconds of the day count, or the total, does not fit an `i64`.
pub open spec fn civil_seconds(
    year: int,
    month: int,
    day: int,
    hour: int,
    minute: int,
    second: int,
) -> Option<int> {
    let day_secs = days_from_civil(year, month, day) * 86_400;
    let total = day_secs + hour * 3_600 + minute * 60 + second;
    if day_secs < i64::MIN || day_secs > i64::MAX || total < i64::MIN || total > i64::MAX {
        None
    } else {
        Some(total)
    }
}

/// The clock fields of `time`, `HH:MM:SS`, when it has at least three
/// `:`-separated pieces that read as integers.
pub open spec fn clock_fields(time: Seq<char>) -> Option<(int, int, int)> {
    let c = split_on(time, ':');
    if c.len() < 3 {
        None
    } else {
        match (parse_i64_spec(c[0]), parse_i64_spec(c[1]), parse_i64_spec(c[2])) {
            (Some(h), Some(m), Some(s)) => Some((h as int, m as int, s as int)),
            _ => None,
        }
    }
}

/// An IMF-fixdate (`Sun, 06 Nov 1994 08:49:37 GMT`) read as seconds since
/// the Unix epoch, a date before the epoch reading as the epoch.
///
/// The text must end in ` GMT` and hold `, `; what precedes the first `, `
/// (the weekday) is not read. What follows it is split on single spaces into
/// day, month abbreviation, year and clock, the clock on `:`; any further
/// pieces are not read.
pub open spec fn httpdate_spec(raw: Seq<char>) -> Option<u64> {
    if !ends_with(raw, seq![' ', 'G', 'M', 'T']) {
        None
    } else {
        let head = raw.subrange(0, raw.len() - 4);
        match find_from(head, seq![',', ' '], 0) {
            None => None,
            Some(i) => {
                let parts = split_on(head.subrange(i + 2, head.len() as int), ' ');
                if parts.len() < 4 {
                    None
                } else {
                    match (
                        parse_i64_spec(parts[0]),
                        month_number(parts[1]),
                        parse_i64_spec(parts[2]),
                        clock_fields(parts[3]),
                    ) {
                        (Some(day), Some(month), Some(year), Some((h, mi, s))) => {
                            match civil_seconds(year as int, month, day as int, h, mi, s) {
                                Some(t) => if t < 0 {
                                    Some(0)
                                } else {
                                    Some(t as u64)
                                },
                                None => None,
                            }
                        },
                        _ => None,
                    }
                }
            },
        }
    }
}

/// The month number of the abbreviation `v`.
fn month_of(v: &[char]) -> (r: Option<i64>)
    ensures
        r matches Some(m) ==> month_number(v@) == Some(m as int),
        r is None ==> month_number(v@) is None,
{
    if v.len() != 3 {
        return None;
    }
    let (a, b, c) = (v[0], v[1], v[2]);
    assert(v@ =~= seq![a, b, c]);
    if a == 'J' && b == 'a' && c == 'n' {
        Some(1)
    } else if a == 'F' && b == 'e' && c == 'b' {
        Some(2)
    } else if a == 'M' && b == 'a' && c == 'r' {
        Some(3)
    } else if a == 'A' && b == 'p' && c == 'r' {
        Some(4)
    } else if a == 'M' && b == 'a' && c == 'y' {
        Some(5)
    } else if a == 'J' && b == 'u' && c == 'n' {
        Some(6)
    } else if a == 'J' && b == 'u' && c == 'l' {
        Some(7)
    } else if a == 'A' && b == 'u' && c == 'g' {
        Some(8)
    } else if a == 'S' && b == 'e' && c == 'p' {
        Some(9)
    } else if a == 'O' && b == 'c' && c == 't' {
        Some(10)
    } else if a == 'N' && b == 'o' && c == 'v' {
        Some(11)
    } else if a == 'D' && b == 'e' && c == 'c' {
        Some(12)
    } else {
        None
    }
}

/// Reads all of `v` as `i64::from_str` does.
fn whole_i64(v: &[char]) -> (r: Option<i64>)
    ensures
        r == parse_i64_spec(v@),
{
    assert(v@.subrange(0, v@.len() as int) =~= v@);
    parse_i64(v, 0, v.len())
}

/// The clock fields of `v`.
fn clock_of(v: &[char]) -> (r: Option<(i64, i64, i64)>)
    ensures
        r matches Some((h, m, s)) ==> clock_fields(v@) == Some((h as int, m as int, s as int)),
        r is None ==> clock_fields(v@) is None,
{
    let (p0, t0) = split_first(v, ':');
    let t0 = match t0 {
        Some(t) => t,
        None => return None,
    };
    let (p1, t1) = split_first(t0.as_slice(), ':');
    let t1 = match t1 {
        Some(t) => t,
        None => return None,
    };
    let (p2, _t2) = split_first(t1.as_slice(), ':');
    let h = match whole_i64(p0.as_slice()) {
        Some(x) => x,
        None => return None,
    };
    let m = match whole_i64(p1.as_slice()) {
        Some(x) => x,
        None => return None,
    };
    let s = match whole_i64(p2.as_slice()) {
        Some(x) => x,
        None => return None,
    };
    Some((h, m, s))
}

/// `floor(y / 400)` for any `y` an `i64` can hold.
fn era_of(y: i128) -> (r: i128)
    requires
        -0x8000_0000_0000_0001 <= y <= 0x7FFF_FFFF_FFFF_FFFF,
    ensures
        r == y / 400,
        -0x0100_0000_0000_0000 <= r <= 0x0100_0000_0000_0000,
{
    let shifted: u128 = (y + 400 * 0x0080_0000_0000_0000) as u128;
    let q: i128 = (shifted / 400) as i128;
    let r = q - 0x0080_0000_0000_0000;
    assert(r == y / 400) by (nonlinear_arith)
        requires
            shifted == y + 400 * 0x0080_0000_0000_0000,
            q == shifted / 400,
            r == q - 0x0080_0000_0000_0000,
            shifted >= 0,
    ;
    assert(-0x0100_0000_0000_0000 <= r <= 0x0100_0000_0000_0000) by (nonlinear_arith)
        requires
            shifted == y + 400 * 0x0080_0000_0000_0000,
            q == shifted / 400,
            r == q - 0x0080_0000_0000_0000,
            shifted >= 0,
            -0x8000_0000_0000_0001 <= y <= 0x7FFF_FFFF_FFFF_FFFF,
    ;
    r
}

/// Seconds since the epoch of a civil date and time, when it fits.
fn civil_secs(year: i64, month: i64, day: i64, hour: i64, minute: i64, second: i64) -> (r: Option<
    i64,
>)
    requires
        1 <= month <= 12,
    ensures
        r matches Some(t) ==> civil_seconds(
            year as int,
            month as int,
            day as int,
            hour as int,
            minute as int,
            second as int,
        ) == Some(t as int),
        r is None ==> civil_seconds(
            year as int,
            month as int,
            day as int,
            hour as int,
            minute as int,
            second as int,
        ) is None,
{
    let y: i128 = if month <= 2 {
        year as i128 - 1
    } else {
        year as i128
    };
    let m: i128 = if month <= 2 {
        month as i128 + 9
    } else {
        month as i128 - 3
    };
    let era = era_of(y);
    let year_of_era = y - era * 400;
    assert(0 <= year_of_era < 400) by (nonlinear_arith)
        requires
            era == y / 400,
            year_of_era == y - era * 400,
    ;
    let yoe = year_of_era as u32;
    let doy_base = ((153 * (m as u32) + 2) / 5) as i128;
    let day_of_year = doy_base + day as i128 - 1;
    let day_of_era = (yoe as i128) * 365 + (yoe / 4) as i128 - (yoe / 100) as i128
        + day_of_year;
    assert(-0x0100_0000_0000_0000 * 146_097 <= era * 146_097 <= 0x0100_0000_0000_0000 * 146_097)
        by (nonlinear_arith)
        requires
            -0x0100_0000_0000_0000 <= era <= 0x0100_0000_0000_0000,
    ;
    let days = era * 146_097 + day_of_era - 719_468;
    proof {
        assert(days == days_from_civil(year as int, month as int, day as int));
    }
    assert(-0x0100_0000_0000_0000 * 146_098 * 86_400 <= days * 86_400
        <= 0x0100_0000_0000_0000 * 146_098 * 86_400) by (nonlinear_arith)
        requires
            -0x0100_0000_0000_0000 * 146_098 <= days <= 0x0100_0000_0000_0000 * 146_098,
    ;
    let day_secs = days * 86_400;
    let total = day_secs + hour as i128 * 3_600 + minute as i128 * 60 + second as i128;
    if day_secs < i64::MIN as i128 || day_secs > i64::MAX as i128 || total < i64::MIN as i128
        || total > i64::MAX as i128 {
        None
    } else {
        Some(total as i64)
    }
}

/// Parses an IMF-fixdate (`Sun, 06 Nov 1994 08:49:37 GMT`) to a Unix
/// timestamp.
///
/// The one format RFC 9110 requires a server to send; obsolete formats are
/// not accepted. A date before 1970, which a server with an unset clock
/// sends, reads as the epoch: an elapsed wait is no wait.
pub fn httpdate(raw: &str) -> (r: Option<u64>)
    ensures
        r == httpdate_spec(raw@),
{
    let h = chars_of(raw);
    let n = h.len();
    let gmt: [char; 4] = [' ', 'G', 'M', 'T'];
    if n < 4 || !range_eq(h.as_slice(), n - 4, n, &gmt) {
        proof {
            assert(gmt@ =~= seq![' ', 'G', 'M', 'T']);
        }
        return None;
    }
    proof {
        assert(gmt@ =~= seq![' ', 'G', 'M', 'T']);
    }
    let head = copy_range(h.as_slice(), 0, n - 4);
    let sep: [char; 2] = [',', ' '];
    assert(sep@ =~= seq![',', ' ']);
    let ghost hd = raw@.subrange(0, raw@.len() - 4);
    assert(head@ == hd);
    assert(ends_with(raw@, seq![' ', 'G', 'M', 'T']));
    let found = find_seq(head.as_slice(), sep.as_slice(), 0);
    let i = match found {
        Some(i) => i,
        None => {
            assert(find_from(hd, seq![',', ' '], 0) is None);
            return None;
        },
    };
    assert(find_from(hd, seq![',', ' '], 0) == Some(i as int));
    let rest = copy_range(head.as_slice(), i + 2, head.len());
    let (p0, t0) = split_first(rest.as_slice(), ' ');
    let t0 = match t0 {
        Some(t) => t,
        None => return None,
    };
    let (p1, t1) = split_first(t0.as_slice(), ' ');
    let t1 = match t1 {
        Some(t) => t,
        None => return None,
    };
    let (p2, t2) = split_first(t1.as_slice(), ' ');
    let t2 = match t2 {
        Some(t) => t,
        None => return None,
    };
    let (p3, _t3) = split_first(t2.as_slice(), ' ');
    let ghost parts = split_on(rest@, ' ');
    assert(parts[0] == p0@ && parts[1] == p1@ && parts[2] == p2@ && parts[3] == p3@);
    let day = match whole_i64(p0.as_slice()) {
        Some(x) => x,
        None => return None,
    };
    let month = match month_of(p1.as_slice()) {
        Some(x) => x,
        None => return None,
    };
    let year = match whole_i64(p2.as_slice()) {
        Some(x) => x,
        None => return None,
    };
    let (hour, minute, second) = match clock_of(p3.as_slice()) {
        Some(c) => c,
        None => return None,
    };
    match civil_secs(year, month, day, hour, minute, second) {
        Some(t) => if t < 0 {
            Some(0)
        } else {
            Some(t as u64)
        },
        None => None,
    }
}

} // verus!
