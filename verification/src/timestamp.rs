//! Segment timestamps. A segment identifier embeds its creation time as
//! `..YYYYMMDD_HHMMSS..`; the parser finds the last such pattern in the
//! identifier (earlier digits belong to the URL, not the stamp), checks
//! that it denotes a real calendar time, and yields a `Timestamp`.
//! An identifier without a well-formed stamp cannot be ordered and is a
//! hard error for that segment.
use vstd::prelude::*;

verus! {

/// A naive (timezone-free) calendar time, second precision.
#[derive(Clone, Copy, Debug, PartialEq, Eq, Structural)]
pub struct Timestamp {
    pub year: u16,
    pub month: u8,
    pub day: u8,
    pub hour: u8,
    pub minute: u8,
    pub second: u8,
}

pub open spec fn is_leap_year(y: int) -> bool {
    y % 4 == 0 && (y % 100 != 0 || y % 400 == 0)
}

pub open spec fn days_in_month(y: int, m: int) -> int {
    if m == 2 {
        if is_leap_year(y) {
            29
        } else {
            28
        }
    } else if m == 4 || m == 6 || m == 9 || m == 11 {
        30
    } else {
        31
    }
}

impl Timestamp {
    /// The fields denote a real calendar time.
    pub open spec fn valid(self) -> bool {
        &&& self.year <= 9999
        &&& 1 <= self.month <= 12
        &&& 1 <= self.day <= days_in_month(self.year as int, self.month as int)
        &&& self.hour < 24
        &&& self.minute < 60
        &&& self.second < 60
    }

    /// The fields packed as the decimal number `YYYYMMDDHHMMSS`. For valid
    /// timestamps this packing orders chronologically.
    pub open spec fn spec_key(self) -> int {
        ((((self.year * 100 + self.month) * 100 + self.day) * 100 + self.hour) * 100
            + self.minute) * 100 + self.second
    }

    /// Decimal packing of the fields, the comparison key used by the
    /// segment queue.
    pub fn key(&self) -> (k: u64)
        ensures
            k == self.spec_key(),
    {
        ((((self.year as u64 * 100 + self.month as u64) * 100 + self.day as u64) * 100
            + self.hour as u64) * 100 + self.minute as u64) * 100 + self.second as u64
    }

    /// Seconds between midnight 1970-01-01 and this naive time, on the
    /// proleptic Gregorian calendar.
    pub open spec fn spec_epoch_seconds(self) -> int {
        spec_epoch_days(self.year as int, self.month as int, self.day as int) * 86400
            + self.hour * 3600 + self.minute * 60 + self.second
    }

    pub fn epoch_seconds(&self) -> (s: i64)
        requires
            self.valid(),
        ensures
            s == self.spec_epoch_seconds(),
    {
        let days = epoch_days(self.year, self.month, self.day);
        days * 86400 + self.hour as i64 * 3600 + self.minute as i64 * 60 + self.second as i64
    }

    /// Do the fields denote a real calendar time?
    pub fn is_valid(&self) -> (r: bool)
        ensures
            r == self.valid(),
    {
        check_valid(self)
    }

    /// `true` when `self` is strictly earlier in the packed-key order.
    pub fn before(&self, other: &Timestamp) -> (r: bool)
        ensures
            r == (self.spec_key() < other.spec_key()),
    {
        self.key() < other.key()
    }
}

/// Days between 1970-01-01 and the given civil date, negative for earlier
/// dates. The computation groups years into 400-year eras (146097 days
/// each) counted from 0000-03-01, shifted by one era so every intermediate
/// value stays non-negative.
pub open spec fn spec_epoch_days(y: int, m: int, d: int) -> int {
    let ys = (if m <= 2 {
        y - 1
    } else {
        y
    }) + 400;
    let era = ys / 400;
    let yoe = ys % 400;
    let mp = if m > 2 {
        m - 3
    } else {
        m + 9
    };
    let doy = (153 * mp + 2) / 5 + d - 1;
    let doe = yoe * 365 + yoe / 4 - yoe / 100 + doy;
    era * 146097 + doe - 865565
}

/// Days since 1970-01-01 of a civil date, negative before the epoch.
pub fn epoch_days(y: u16, m: u8, d: u8) -> (r: i64)
    requires
        y <= 9999,
        1 <= m <= 12,
        1 <= d <= days_in_month(y as int, m as int),
    ensures
        r == spec_epoch_days(y as int, m as int, d as int),
{
    let ys: u32 = if m <= 2 {
        y as u32 + 399
    } else {
        y as u32 + 400
    };
    let era: u32 = ys / 400;
    let yoe: u32 = ys % 400;
    let mp: u32 = if m > 2 {
        m as u32 - 3
    } else {
        m as u32 + 9
    };
    let doy: u32 = (153 * mp + 2) / 5 + d as u32 - 1;
    let doe: u32 = yoe * 365 + yoe / 4 - yoe / 100 + doy;
    era as i64 * 146097 + doe as i64 - 865565
}

/// ASCII decimal digit.
pub open spec fn is_digit(b: u8) -> bool {
    48 <= b <= 57
}

/// Value of the `n` decimal digits of `s` starting at `i`.
pub open spec fn digits_value(s: Seq<u8>, i: int, n: int) -> int
    decreases n,
{
    if n <= 0 {
        0
    } else {
        digits_value(s, i, n - 1) * 10 + (s[i + n - 1] - 48)
    }
}

/// The stamp pattern `YYYYMMDD_HHMMSS` (eight digits, underscore, six
/// digits) starts at position `i` of `s`.
pub open spec fn pattern_at(s: Seq<u8>, i: int) -> bool {
    &&& 0 <= i
    &&& i + 15 <= s.len()
    &&& forall|k: int| i <= k < i + 8 ==> is_digit(s[k])
    &&& s[i + 8] == 95u8
    &&& forall|k: int| i + 9 <= k < i + 15 ==> is_digit(s[k])
}

/// The largest position at or below `i` where the pattern starts, or -1.
pub open spec fn last_pattern_from(s: Seq<u8>, i: int) -> int
    decreases i + 1,
{
    if i < 0 {
        -1
    } else if pattern_at(s, i) {
        i
    } else {
        last_pattern_from(s, i - 1)
    }
}

/// Position of the last stamp pattern in `s`, or -1 when there is none.
pub open spec fn last_pattern_idx(s: Seq<u8>) -> int {
    last_pattern_from(s, s.len() - 15)
}

/// The timestamp whose digits start at position `i` of `s`.
pub open spec fn ts_at(s: Seq<u8>, i: int) -> Timestamp {
    Timestamp {
        year: digits_value(s, i, 4) as u16,
        month: digits_value(s, i + 4, 2) as u8,
        day: digits_value(s, i + 6, 2) as u8,
        hour: digits_value(s, i + 9, 2) as u8,
        minute: digits_value(s, i + 11, 2) as u8,
        second: digits_value(s, i + 13, 2) as u8,
    }
}

/// Does the stamp pattern start at `i`?
fn check_pattern_at(s: &[u8], i: usize) -> (r: bool)
    requires
        i + 15 <= s@.len() <= usize::MAX,
    ensures
        r == pattern_at(s@, i as int),
{
    let mut k: usize = 0;
    while k < 8
        invariant
            k <= 8,
            i + 15 <= s@.len() <= usize::MAX,
            forall|j: int| i <= j < i + k ==> is_digit(s@[j]),
        decreases 8 - k,
    {
        let b = s[i + k];
        if b < 48 || b > 57 {
            assert(!is_digit(s@[i + k as int]));
            return false;
        }
        k += 1;
    }
    if s[i + 8] != 95 {
        return false;
    }
    let mut k: usize = 9;
    while k < 15
        invariant
            9 <= k <= 15,
            i + 15 <= s@.len() <= usize::MAX,
            forall|j: int| i + 9 <= j < i + k ==> is_digit(s@[j]),
        decreases 15 - k,
    {
        let b = s[i + k];
        if b < 48 || b > 57 {
            assert(!is_digit(s@[i + k as int]));
            return false;
        }
        k += 1;
    }
    true
}

/// Position of the last stamp pattern in `s`, scanning from the tail as
/// the greedy identifier match does.
fn find_stamp(s: &[u8]) -> (r: Option<usize>)
    ensures
        match r {
            Some(i) => last_pattern_idx(s@) == i && pattern_at(s@, i as int),
            None => last_pattern_idx(s@) == -1,
        },
{
    let total = s.len();
    if total < 15 {
        assert(last_pattern_from(s@, s@.len() - 15) == -1);
        return None;
    }
    let mut i: usize = total - 15;
    loop
        invariant
            i <= s@.len() - 15,
            s@.len() <= usize::MAX,
            last_pattern_idx(s@) == last_pattern_from(s@, i as int),
        decreases i + 1,
    {
        if check_pattern_at(s, i) {
            return Some(i);
        }
        if i == 0 {
            assert(last_pattern_from(s@, 0) == last_pattern_from(s@, -1));
            return None;
        }
        i -= 1;
    }
}

/// Value of the `n <= 4` digits of `s` starting at `i`.
fn parse_digits(s: &[u8], i: usize, n: usize) -> (v: u16)
    requires
        n <= 4,
        i + n <= s@.len() <= usize::MAX,
        forall|k: int| i <= k < i + n ==> is_digit(s@[k]),
    ensures
        v == digits_value(s@, i as int, n as int),
        v <= 9999,
        n <= 2 ==> v <= 99,
{
    let mut v: u16 = 0;
    let mut k: usize = 0;
    while k < n
        invariant
            k <= n <= 4,
            i + n <= s@.len() <= usize::MAX,
            forall|j: int| i <= j < i + n ==> is_digit(s@[j]),
            v == digits_value(s@, i as int, k as int),
            k == 0 ==> v == 0,
            k == 1 ==> v <= 9,
            k == 2 ==> v <= 99,
            k == 3 ==> v <= 999,
            k == 4 ==> v <= 9999,
        decreases n - k,
    {
        let b = s[i + k];
        assert(is_digit(s@[i + k as int]));
        v = v * 10 + (b - 48) as u16;
        k += 1;
    }
    v
}

/// Parse the timestamp embedded in a segment identifier: the last
/// `YYYYMMDD_HHMMSS` pattern, accepted only when it denotes a real
/// calendar time. `None` marks the identifier malformed.
pub fn parse_timestamp(s: &[u8]) -> (r: Option<Timestamp>)
    ensures
        match r {
            Some(ts) => {
                &&& last_pattern_idx(s@) >= 0
                &&& ts == ts_at(s@, last_pattern_idx(s@))
                &&& ts.valid()
            },
            None => last_pattern_idx(s@) == -1 || !ts_at(
                s@,
                last_pattern_idx(s@),
            ).valid(),
        },
{
    let total = s.len();
    let i = match find_stamp(s) {
        Some(i) => i,
        None => {
            return None;
        },
    };
    assert(i + 15 <= total <= usize::MAX);
    let year = parse_digits(s, i, 4);
    let month = parse_digits(s, i + 4, 2) as u8;
    let day = parse_digits(s, i + 6, 2) as u8;
    let hour = parse_digits(s, i + 9, 2) as u8;
    let minute = parse_digits(s, i + 11, 2) as u8;
    let second = parse_digits(s, i + 13, 2) as u8;
    let ts = Timestamp { year, month, day, hour, minute, second };
    if check_valid(&ts) {
        Some(ts)
    } else {
        None
    }
}

/// Do the fields denote a real calendar time?
fn check_valid(ts: &Timestamp) -> (r: bool)
    ensures
        r == ts.valid(),
{
    if ts.year > 9999 || ts.month < 1 || ts.month > 12 {
        return false;
    }
    let dim: u8 = match ts.month {
        2 => {
            if ts.year % 4 == 0 && (ts.year % 100 != 0 || ts.year % 400 == 0) {
                29
            } else {
                28
            }
        },
        4 | 6 | 9 | 11 => 30,
        _ => 31,
    };
    1 <= ts.day && ts.day <= dim && ts.hour < 24 && ts.minute < 60 && ts.second < 60
}

/// `a` comes before `b` in calendar-field order, most significant field
/// first.
pub open spec fn lex_before(a: Timestamp, b: Timestamp) -> bool {
    ||| a.year < b.year
    ||| (a.year == b.year && a.month < b.month)
    ||| (a.year == b.year && a.month == b.month && a.day < b.day)
    ||| (a.year == b.year && a.month == b.month && a.day == b.day && a.hour < b.hour)
    ||| (a.year == b.year && a.month == b.month && a.day == b.day && a.hour == b.hour
        && a.minute < b.minute)
    ||| (a.year == b.year && a.month == b.month && a.day == b.day && a.hour == b.hour
        && a.minute == b.minute && a.second < b.second)
}

/// On valid timestamps the packed key orders exactly as the calendar
/// fields do, most significant first: the queue's key comparisons are
/// calendar comparisons.
pub proof fn lemma_key_orders_fields(a: Timestamp, b: Timestamp)
    requires
        a.valid(),
        b.valid(),
    ensures
        a.spec_key() < b.spec_key() <==> lex_before(a, b),
{
}

/// Fourteen decimal digits and nothing else: the compact form
/// `YYYYMMDDHHMMSS` that program schedules carry.
pub open spec fn compact_pattern(s: Seq<u8>) -> bool {
    s.len() == 14 && forall|k: int| 0 <= k < 14 ==> is_digit(s[k])
}

/// The timestamp the fourteen compact digits denote.
pub open spec fn compact_ts(s: Seq<u8>) -> Timestamp {
    Timestamp {
        year: digits_value(s, 0, 4) as u16,
        month: digits_value(s, 4, 2) as u8,
        day: digits_value(s, 6, 2) as u8,
        hour: digits_value(s, 8, 2) as u8,
        minute: digits_value(s, 10, 2) as u8,
        second: digits_value(s, 12, 2) as u8,
    }
}

/// Parse a compact `YYYYMMDDHHMMSS` string, accepted only when it is
/// exactly fourteen digits denoting a real calendar time.
pub fn parse_compact(s: &[u8]) -> (r: Option<Timestamp>)
    ensures
        match r {
            Some(ts) => compact_pattern(s@) && ts == compact_ts(s@) && ts.valid(),
            None => !compact_pattern(s@) || !compact_ts(s@).valid(),
        },
{
    if s.len() != 14 {
        return None;
    }
    let mut k: usize = 0;
    while k < 14
        invariant
            k <= 14,
            s@.len() == 14,
            forall|j: int| 0 <= j < k ==> is_digit(s@[j]),
        decreases 14 - k,
    {
        let b = s[k];
        if b < 48 || b > 57 {
            assert(!is_digit(s@[k as int]));
            return None;
        }
        k += 1;
    }
    let ts = Timestamp {
        year: parse_digits(s, 0, 4),
        month: parse_digits(s, 4, 2) as u8,
        day: parse_digits(s, 6, 2) as u8,
        hour: parse_digits(s, 8, 2) as u8,
        minute: parse_digits(s, 10, 2) as u8,
        second: parse_digits(s, 12, 2) as u8,
    };
    if check_valid(&ts) {
        Some(ts)
    } else {
        None
    }
}

} // verus!
