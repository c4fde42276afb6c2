use vstd::prelude::*;

verus! {

/// An instant, as seconds and nanoseconds since 1970-01-01T00:00:00Z.
#[derive(Clone, Copy, Debug, PartialEq, Eq, Structural)]
pub struct Timestamp {
    pub secs: i64,
    pub nanos: u32,
}

pub open spec fn is_digit(c: char) -> bool {
    '0' <= c && c <= '9'
}

pub open spec fn digit(c: char) -> int {
    c as int - '0' as int
}

pub open spec fn all_digits(s: Seq<char>, lo: int, hi: int) -> bool {
    forall|i: int| lo <= i < hi ==> is_digit(#[trigger] s[i])
}

pub open spec fn two_digits(s: Seq<char>, i: int) -> int {
    10 * digit(s[i]) + digit(s[i + 1])
}

pub open spec fn four_digits(s: Seq<char>, i: int) -> int {
    100 * two_digits(s, i) + two_digits(s, i + 2)
}

/// The first index at or after `i` that holds no digit.
pub open spec fn digits_end(s: Seq<char>, i: int) -> int
    decreases s.len() - i,
{
    if 0 <= i < s.len() && is_digit(s[i]) {
        digits_end(s, i + 1)
    } else {
        i
    }
}

/// Where the zone designator starts: after the seconds, or after the
/// fraction of a second where there is one.
pub open spec fn zone_start(s: Seq<char>) -> int {
    if s.len() > 19 && s[19] == '.' {
        digits_end(s, 20)
    } else {
        19
    }
}

/// The nanoseconds that the fraction digits in `[i, end)` stand for, the
/// digit at `i` being worth `place`; digits past the ninth are dropped.
pub open spec fn frac_nanos(s: Seq<char>, i: int, end: int, place: int) -> int
    decreases end - i,
{
    if i >= end || place == 0 {
        0
    } else {
        digit(s[i]) * place + frac_nanos(s, i + 1, end, place / 10)
    }
}

pub open spec fn is_leap_year(y: int) -> bool {
    y % 4 == 0 && (y % 100 != 0 || y % 400 == 0)
}

pub open spec fn days_in_month(y: int, m: int) -> int {
    if m == 2 {
        if is_leap_year(y) { 29 } else { 28 }
    } else if m == 4 || m == 6 || m == 9 || m == 11 {
        30
    } else {
        31
    }
}

/// Days in the months of a year that come before month `m`.
pub open spec fn days_before_month(y: int, m: int) -> int
    decreases m,
{
    if m <= 1 {
        0
    } else {
        days_before_month(y, m - 1) + days_in_month(y, m - 1)
    }
}

/// Leap years among the years `0 .. y`, for `y >= 0`.
pub open spec fn leap_years_before(y: int) -> int {
    (y + 3) / 4 - (y + 99) / 100 + (y + 399) / 400
}

/// Days from 0000-01-01 to the given date, in the proleptic Gregorian
/// calendar.
pub open spec fn day_number(y: int, m: int, d: int) -> int {
    365 * y + leap_years_before(y) + days_before_month(y, m) + d - 1
}

/// `day_number(1970, 1, 1)`.
pub const UNIX_EPOCH_DAY: u64 = 719528;

/// The text has the shape `YYYY-MM-DDTHH:MM:SS[.F...](Z|+HH:MM|-HH:MM)`.
pub open spec fn has_shape(s: Seq<char>) -> bool {
    let z = zone_start(s);
    &&& s.len() >= 20
    &&& all_digits(s, 0, 4)
    &&& s[4] == '-'
    &&& all_digits(s, 5, 7)
    &&& s[7] == '-'
    &&& all_digits(s, 8, 10)
    &&& s[10] == 'T'
    &&& all_digits(s, 11, 13)
    &&& s[13] == ':'
    &&& all_digits(s, 14, 16)
    &&& s[16] == ':'
    &&& all_digits(s, 17, 19)
    &&& (s[19] == '.' ==> z > 20)
    &&& z < s.len()
    &&& ((s[z] == 'Z' && s.len() == z + 1) || ((s[z] == '+' || s[z] == '-') && s.len() == z + 6
        && all_digits(s, z + 1, z + 3) && s[z + 3] == ':' && all_digits(s, z + 4, z + 6)))
}

pub open spec fn year_of(s: Seq<char>) -> int {
    four_digits(s, 0)
}

pub open spec fn month_of(s: Seq<char>) -> int {
    two_digits(s, 5)
}

pub open spec fn day_of(s: Seq<char>) -> int {
    two_digits(s, 8)
}

pub open spec fn hour_of(s: Seq<char>) -> int {
    two_digits(s, 11)
}

pub open spec fn minute_of(s: Seq<char>) -> int {
    two_digits(s, 14)
}

pub open spec fn second_of(s: Seq<char>) -> int {
    two_digits(s, 17)
}

pub open spec fn offset_hours_of(s: Seq<char>) -> int {
    if s[zone_start(s)] == 'Z' { 0 } else { two_digits(s, zone_start(s) + 1) }
}

pub open spec fn offset_minutes_of(s: Seq<char>) -> int {
    if s[zone_start(s)] == 'Z' { 0 } else { two_digits(s, zone_start(s) + 4) }
}

/// The offset from UTC, in seconds.
pub open spec fn offset_of(s: Seq<char>) -> int {
    let o = 3600 * offset_hours_of(s) + 60 * offset_minutes_of(s);
    if s[zone_start(s)] == '-' { -o } else { o }
}

/// Each field of a well-shaped text lies in its range.
pub open spec fn in_range(s: Seq<char>) -> bool {
    &&& 1 <= month_of(s) <= 12
    &&& 1 <= day_of(s) <= days_in_month(year_of(s), month_of(s))
    &&& hour_of(s) <= 23
    &&& minute_of(s) <= 59
    &&& second_of(s) <= 59
    &&& offset_hours_of(s) <= 23
    &&& offset_minutes_of(s) <= 59
}

pub open spec fn epoch_secs_of(s: Seq<char>) -> int {
    (day_number(year_of(s), month_of(s), day_of(s)) - UNIX_EPOCH_DAY) * 86400 + 3600 * hour_of(s)
        + 60 * minute_of(s) + second_of(s) - offset_of(s)
}

pub open spec fn nanos_of(s: Seq<char>) -> int {
    if s[19] == '.' {
        frac_nanos(s, 20, zone_start(s), 100_000_000)
    } else {
        0
    }
}

/// The instant that an RFC 3339 date-time text names, if it names one.
pub open spec fn timestamp_of(s: Seq<char>) -> Option<Timestamp> {
    if has_shape(s) && in_range(s) {
        Some(Timestamp { secs: epoch_secs_of(s) as i64, nanos: nanos_of(s) as u32 })
    } else {
        None
    }
}

fn digit_at(s: &str, i: usize) -> (r: Option<i64>)
    requires
        i < s@.len(),
    ensures
        r is Some <==> is_digit(s@[i as int]),
        r matches Some(d) ==> d == digit(s@[i as int]) && 0 <= d <= 9,
{
    let c = s.get_char(i);
    if '0' <= c && c <= '9' {
        Some((c as u32 - '0' as u32) as i64)
    } else {
        None
    }
}

fn two_digits_at(s: &str, i: usize) -> (r: Option<i64>)
    requires
        i + 1 < s@.len() <= usize::MAX,
    ensures
        r is Some <==> all_digits(s@, i as int, i + 2),
        r matches Some(v) ==> v == two_digits(s@, i as int) && 0 <= v <= 99,
{
    let hi = digit_at(s, i);
    let lo = digit_at(s, i + 1);
    match (hi, lo) {
        (Some(h), Some(l)) => Some(10 * h + l),
        _ => {
            assert(!is_digit(s@[i as int]) || !is_digit(s@[i + 1]));
            None
        },
    }
}

fn char_is(s: &str, i: usize, c: char) -> (r: bool)
    requires
        i < s@.len(),
    ensures
        r == (s@[i as int] == c),
{
    s.get_char(i) == c
}

fn month_length(y: i64, m: i64) -> (r: i64)
    ensures
        r == days_in_month(y as int, m as int),
{
    if m == 2 {
        if y % 4 == 0 && (y % 100 != 0 || y % 400 == 0) {
            29
        } else {
            28
        }
    } else if m == 4 || m == 6 || m == 9 || m == 11 {
        30
    } else {
        31
    }
}

fn days_before(y: i64, m: i64) -> (r: i64)
    requires
        1 <= m <= 12,
    ensures
        r == days_before_month(y as int, m as int),
        0 <= r <= 366,
{
    let mut acc: i64 = 0;
    let mut k: i64 = 1;
    while k < m
        invariant
            1 <= k <= m <= 12,
            acc == days_before_month(y as int, k as int),
            0 <= acc <= 31 * (k - 1),
        decreases m - k,
    {
        acc = acc + month_length(y, k);
        k = k + 1;
    }
    acc
}

/// Reads an RFC 3339 date-time with an explicit offset, such as
/// `2019-08-06T12:00:00Z` or `2019-08-06T14:00:00.25+02:00`.
pub fn parse_timestamp(s: &str) -> (r: Option<Timestamp>)
    ensures
        r == timestamp_of(s@),
{
    let n = s.unicode_len();
    if n < 20 {
        return None;
    }
    let y_hi = match two_digits_at(s, 0) {
        Some(v) => v,
        None => return None,
    };
    let y_lo = match two_digits_at(s, 2) {
        Some(v) => v,
        None => return None,
    };
    assert(all_digits(s@, 0, 4));
    let month = match two_digits_at(s, 5) {
        Some(v) => v,
        None => return None,
    };
    let day = match two_digits_at(s, 8) {
        Some(v) => v,
        None => return None,
    };
    let hour = match two_digits_at(s, 11) {
        Some(v) => v,
        None => return None,
    };
    let minute = match two_digits_at(s, 14) {
        Some(v) => v,
        None => return None,
    };
    let second = match two_digits_at(s, 17) {
        Some(v) => v,
        None => return None,
    };
    if !char_is(s, 4, '-') || !char_is(s, 7, '-') || !char_is(s, 10, 'T') || !char_is(s, 13, ':')
        || !char_is(s, 16, ':') {
        return None;
    }
    let year = 100 * y_hi + y_lo;
    // The fraction of a second, if any, runs up to the zone designator.
    let mut z: usize = 19;
    let mut nanos: i64 = 0;
    if char_is(s, 19, '.') {
        z = 20;
        while z < n && digit_at(s, z).is_some()
            invariant
                20 <= z <= n,
                n == s@.len(),
                digits_end(s@, z as int) == digits_end(s@, 20),
            decreases n - z,
        {
            z = z + 1;
        }
        if z == 20 {
            return None;
        }
        proof {
            lemma_digits_end_all_digits(s@, 20);
        }
        let mut i: usize = 20;
        let mut place: i64 = 100_000_000;
        while i < z && place > 0
            invariant
                20 <= i <= z <= n,
                n == s@.len(),
                z == digits_end(s@, 20),
                all_digits(s@, 20, z as int),
                0 <= place <= 100_000_000,
                0 <= nanos,
                nanos + 10 * place <= 1_000_000_000,
                nanos + frac_nanos(s@, i as int, z as int, place as int) == frac_nanos(
                    s@,
                    20,
                    z as int,
                    100_000_000,
                ),
            decreases z - i,
        {
            assert(is_digit(s@[i as int]));
            let d = match digit_at(s, i) {
                Some(d) => d,
                None => 0,
            };
            assert(10 * (place / 10) <= place) by (nonlinear_arith);
            assert(d * place <= 9 * place) by (nonlinear_arith)
                requires
                    d <= 9,
                    place >= 0,
            ;
            nanos = nanos + d * place;
            place = place / 10;
            i = i + 1;
        }
        proof {
            if place == 0 && i < z {
                lemma_frac_nanos_no_place(s@, i as int, z as int);
            }
        }
    }
    if z >= n {
        return None;
    }
    let offset: i64;
    let mut off_hours: i64 = 0;
    let mut off_minutes: i64 = 0;
    if char_is(s, z, 'Z') {
        if n - z != 1 {
            return None;
        }
        offset = 0;
    } else if char_is(s, z, '+') || char_is(s, z, '-') {
        if n - z != 6 {
            return None;
        }
        off_hours = match two_digits_at(s, z + 1) {
            Some(v) => v,
            None => return None,
        };
        if !char_is(s, z + 3, ':') {
            return None;
        }
        off_minutes = match two_digits_at(s, z + 4) {
            Some(v) => v,
            None => return None,
        };
        let o = 3600 * off_hours + 60 * off_minutes;
        offset = if char_is(s, z, '-') {
            -o
        } else {
            o
        };
    } else {
        return None;
    }
    assert(has_shape(s@));
    if month < 1 || month > 12 || day < 1 || day > month_length(year, month) || hour > 23 || minute
        > 59 || second > 59 || off_hours > 23 || off_minutes > 59 {
        return None;
    }
    let leaps = (year + 3) / 4 - (year + 99) / 100 + (year + 399) / 400;
    let days = 365 * year + leaps + days_before(year, month) + day - 1;
    let secs = (days - UNIX_EPOCH_DAY as i64) * 86400 + 3600 * hour + 60 * minute + second - offset;
    Some(Timestamp { secs, nanos: nanos as u32 })
}

proof fn lemma_digits_end_all_digits(s: Seq<char>, i: int)
    requires
        0 <= i,
    ensures
        i <= digits_end(s, i),
        all_digits(s, i, digits_end(s, i)),
    decreases s.len() - i,
{
    if 0 <= i < s.len() && is_digit(s[i]) {
        lemma_digits_end_all_digits(s, i + 1);
    }
}

proof fn lemma_frac_nanos_no_place(s: Seq<char>, i: int, end: int)
    ensures
        frac_nanos(s, i, end, 0) == 0,
{
}

} // verus!
