//! Dates and times in UTC.

use std::time::{Duration, SystemTime};
use vstd::prelude::*;

use crate::text::{
    all_digits, chars_of, decimal, digit, is_among, is_digit, lemma_decimal, lemma_split_first,
    lemma_zero_padded, number, padded_of, parse_number, split, split_on, string_of, text_lt, views,
    without_trailing, zero_padded,
};

verus! {

// ---------------------------------------------------------------------------
// The calendar
// ---------------------------------------------------------------------------

/// A leap year of the Gregorian calendar.
pub open spec fn is_leap(year: int) -> bool {
    (year % 4 == 0 && year % 100 != 0) || year % 400 == 0
}

/// The number of days of a year.
pub open spec fn year_days(year: int) -> int {
    if is_leap(year) {
        366
    } else {
        365
    }
}

/// The number of days of a month, which is counted from 1.
pub open spec fn month_days(year: int, month: int) -> int {
    if month == 2 {
        if is_leap(year) {
            29
        } else {
            28
        }
    } else if month == 4 || month == 6 || month == 9 || month == 11 {
        30
    } else {
        31
    }
}

/// The number of days from the beginning of 1970 to the beginning of `year`.
pub open spec fn days_before_year(year: int) -> int
    decreases year,
{
    if year <= 1970 {
        0
    } else {
        days_before_year(year - 1) + year_days(year - 1)
    }
}

/// The number of days from the beginning of `year` to the beginning of `month`.
pub open spec fn days_before_month(year: int, month: int) -> int
    decreases month,
{
    if month <= 1 {
        0
    } else {
        days_before_month(year, month - 1) + month_days(year, month - 1)
    }
}

/// A date with a time of day.
#[verifier::ext_equal]
pub struct DateTime {
    pub year: int,
    pub month: int,
    pub day: int,
    pub hour: int,
    pub minute: int,
    pub second: int,
}

impl DateTime {
    /// There is such a time, and not before 1970.
    pub open spec fn valid(self) -> bool {
        &&& 1970 <= self.year
        &&& 1 <= self.month <= 12
        &&& 1 <= self.day <= month_days(self.year, self.month)
        &&& 0 <= self.hour < 24
        &&& 0 <= self.minute < 60
        &&& 0 <= self.second < 60
    }

    /// The days from the beginning of 1970 to this day.
    pub open spec fn days(self) -> int {
        days_before_year(self.year) + days_before_month(self.year, self.month) + self.day - 1
    }

    /// The seconds from the beginning of 1970 to this time.
    pub open spec fn seconds(self) -> int {
        self.days() * 86400 + self.hour * 3600 + self.minute * 60 + self.second
    }

    /// This time comes before `other`, field by field.
    pub open spec fn earlier(self, other: DateTime) -> bool {
        if self.year != other.year {
            self.year < other.year
        } else if self.month != other.month {
            self.month < other.month
        } else if self.day != other.day {
            self.day < other.day
        } else if self.hour != other.hour {
            self.hour < other.hour
        } else if self.minute != other.minute {
            self.minute < other.minute
        } else {
            self.second < other.second
        }
    }
}

/// The year in which a day lies that is `days` days behind the beginning of `year`, and its
/// number in that year.
pub open spec fn year_from(days: int, year: int) -> (int, int)
    decreases days,
{
    if days < year_days(year) {
        (year, days)
    } else {
        year_from(days - year_days(year), year + 1)
    }
}

/// The month in which a day lies that is `days` days behind the beginning of `month`, and its
/// number in that month.
pub open spec fn month_from(days: int, year: int, month: int) -> (int, int)
    decreases 12 - month,
{
    if month >= 12 || days < month_days(year, month) {
        (month, days)
    } else {
        month_from(days - month_days(year, month), year, month + 1)
    }
}

/// The date and time that lies `secs` seconds behind the beginning of 1970.
pub open spec fn datetime(secs: int) -> DateTime {
    let (year, day_of_year) = year_from(secs / 86400, 1970);
    let (month, day) = month_from(day_of_year, year, 1);
    DateTime {
        year,
        month,
        day: day + 1,
        hour: (secs / 3600) % 24,
        minute: (secs / 60) % 60,
        second: secs % 60,
    }
}

/// Whether `year` is a leap year.
pub fn is_leap_year(year: u64) -> (r: bool)
    ensures
        r == is_leap(year as int),
{
    (year % 4 == 0 && year % 100 != 0) || year % 400 == 0
}

/// The numbers of days of the months of a year.
pub fn months_in_year(year: u64) -> (r: [u8; 12])
    ensures
        forall|i: int| 0 <= i < 12 ==> #[trigger] r@[i] == month_days(year as int, i + 1),
{
    let feb: u8 = if is_leap_year(year) {
        29
    } else {
        28
    };
    [31, feb, 31, 30, 31, 30, 31, 31, 30, 31, 30, 31]
}

/// The date and time (year, month, day, hour, minute, second) that lies `secs` seconds behind
/// the beginning of 1970.
pub fn seconds_to_datetime(secs: u64) -> (r: (u64, u8, u8, u8, u8, u8))
    ensures
        datetime(secs as int) == (DateTime {
            year: r.0 as int,
            month: r.1 as int,
            day: r.2 as int,
            hour: r.3 as int,
            minute: r.4 as int,
            second: r.5 as int,
        }),
{
    let sec: u8 = (secs % 60) as u8;
    let min: u8 = ((secs / 60) % 60) as u8;
    let hour: u8 = ((secs / 3600) % 24) as u8;
    let mut days: u64 = secs / 86400;
    let mut year: u64 = 1970;
    let ghost all = (secs / 86400) as int;
    while days >= 366 || (days >= 365 && !is_leap_year(year))
        invariant
            year_from(all, 1970) == year_from(days as int, year as int),
            year - 1970 <= all - days,
            all == secs / 86400,
            days <= all,
            1970 <= year,
        decreases days,
    {
        let n: u64 = if is_leap_year(year) {
            366
        } else {
            365
        };
        days = days - n;
        year = year + 1;
    }
    let months = months_in_year(year);
    let ghost in_year = days as int;
    let mut month: u8 = 1;
    while month < 12 && days >= months[(month - 1) as usize] as u64
        invariant
            1 <= month <= 12,
            forall|i: int| 0 <= i < 12 ==> #[trigger] months@[i] == month_days(year as int, i + 1),
            month_from(in_year, year as int, 1) == month_from(
                days as int,
                year as int,
                month as int,
            ),
            days <= in_year,
            in_year < 366,
        decreases 12 - month,
    {
        assert(months@[month - 1] == month_days(year as int, month as int));
        days = days - months[(month - 1) as usize] as u64;
        month = month + 1;
    }
    assert(month < 12 ==> months@[month - 1] == month_days(year as int, month as int));
    proof {
        lemma_month_from(in_year, year as int, 1);
    }
    let day: u8 = (days + 1) as u8;
    (year, month, day, hour, min, sec)
}

/// The number of days from the beginning of 1970 to the given day, in a month counted from 1.
/// A month beyond the twelfth counts as if it followed the twelfth.
pub fn date_to_days(year: u16, month: u8, day: u8) -> (r: u32)
    requires
        1 <= month,
        days_before_year(year as int) + days_before_month(
            year as int,
            if month > 13 {
                13
            } else {
                month as int
            },
        ) + day >= 1,
    ensures
        r == days_before_year(year as int) + days_before_month(
            year as int,
            if month > 13 {
                13
            } else {
                month as int
            },
        ) + day - 1,
{
    let mut days: u32 = 0;
    let mut y: u16 = 1970;
    while y < year
        invariant
            1970 <= y,
            y <= year || y == 1970,
            days == days_before_year(y as int),
            days <= (y - 1970) * 366,
        decreases year - y,
    {
        days = days + if is_leap_year(y as u64) {
            366u32
        } else {
            365u32
        };
        y = y + 1;
    }
    assert(days == days_before_year(year as int));
    let months = months_in_year(year as u64);
    let ghost before = days;
    let last: u8 = if month > 13 {
        13
    } else {
        month
    };
    let mut m: u8 = 1;
    while m < last
        invariant
            1 <= m <= last <= 13,
            before <= 65536 * 366,
            days == before + days_before_month(year as int, m as int),
            days <= before + (m - 1) * 31,
            forall|i: int| 0 <= i < 12 ==> #[trigger] months@[i] == month_days(year as int, i + 1),
        decreases last - m,
    {
        assert(months@[m - 1] == month_days(year as int, m as int));
        days = days + months[(m - 1) as usize] as u32;
        m = m + 1;
    }
    days + day as u32 - 1
}

// ---------------------------------------------------------------------------
// Proofs about the calendar
// ---------------------------------------------------------------------------

proof fn lemma_days_before_month(year: int, month: int)
    requires
        1 <= month <= 13,
    ensures
        0 <= days_before_month(year, month),
        days_before_month(year, 13) == year_days(year),
        days_before_month(year, month) + (if month <= 12 {
            month_days(year, month)
        } else {
            0
        }) <= year_days(year),
{
    reveal_with_fuel(days_before_month, 14);
}

proof fn lemma_month_from(days: int, year: int, month: int)
    requires
        1 <= month <= 12,
        0 <= days,
        days_before_month(year, month) + days < year_days(year),
    ensures
        ({
            let (m, d) = month_from(days, year, month);
            &&& month <= m <= 12
            &&& 0 <= d < month_days(year, m)
            &&& days_before_month(year, m) + d == days_before_month(year, month) + days
        }),
    decreases 12 - month,
{
    if month < 12 && days >= month_days(year, month) {
        lemma_month_from(days - month_days(year, month), year, month + 1);
    } else {
        lemma_days_before_month(year, month);
        if month == 12 {
            lemma_days_before_month(year, 13);
            assert(days_before_month(year, 13) == days_before_month(year, 12) + month_days(
                year,
                12,
            ));
        }
    }
}

proof fn lemma_month_from_back(d: int, year: int, from: int, month: int)
    requires
        1 <= from <= month <= 12,
        0 <= d < month_days(year, month),
    ensures
        month_from(
            days_before_month(year, month) - days_before_month(year, from) + d,
            year,
            from,
        ) == (month, d),
    decreases month - from,
{
    if from < month {
        lemma_month_from_back(d, year, from + 1, month);
        lemma_months_grow(year, from + 1, month);
    }
}

proof fn lemma_months_grow(year: int, a: int, b: int)
    requires
        1 <= a <= b,
    ensures
        days_before_month(year, a) <= days_before_month(year, b),
    decreases b - a,
{
    if a < b {
        lemma_months_grow(year, a, b - 1);
    }
}

proof fn lemma_year_from(days: int, year: int)
    requires
        0 <= days,
        1970 <= year,
    ensures
        ({
            let (y, d) = year_from(days, year);
            &&& year <= y
            &&& 0 <= d < year_days(y)
            &&& days_before_year(y) + d == days_before_year(year) + days
        }),
    decreases days,
{
    if days >= year_days(year) {
        lemma_year_from(days - year_days(year), year + 1);
    }
}

proof fn lemma_year_from_back(d: int, from: int, year: int)
    requires
        1970 <= from <= year,
        0 <= d < year_days(year),
    ensures
        year_from(days_before_year(year) - days_before_year(from) + d, from) == (year, d),
    decreases year - from,
{
    if from < year {
        lemma_year_from_back(d, from + 1, year);
        lemma_years_grow(from + 1, year);
    }
}

proof fn lemma_years_grow(a: int, b: int)
    requires
        1970 <= a <= b,
    ensures
        days_before_year(a) <= days_before_year(b),
    decreases b - a,
{
    if a < b {
        lemma_years_grow(a, b - 1);
    }
}

/// The days, hours, minutes and seconds in a number of seconds make it up.
#[verifier::spinoff_prover]
proof fn lemma_time_of_day(secs: int)
    requires
        0 <= secs,
    ensures
        secs == (secs / 86400) * 86400 + ((secs / 3600) % 24) * 3600 + ((secs / 60) % 60) * 60
            + secs % 60,
        0 <= secs / 86400,
        0 <= (secs / 3600) % 24 < 24,
        0 <= (secs / 60) % 60 < 60,
        0 <= secs % 60 < 60,
{
}

/// Every second since 1970 has a valid date and time, and that lies as many seconds behind the
/// beginning of 1970.
#[verifier::spinoff_prover]
#[verifier::rlimit(40)]
pub proof fn law_datetime_is_valid(secs: int)
    requires
        0 <= secs,
    ensures
        datetime(secs).valid(),
        datetime(secs).seconds() == secs,
{
    let t = datetime(secs);
    let days = secs / 86400;
    lemma_year_from(days, 1970);
    let (year, in_year) = year_from(days, 1970);
    lemma_month_from(in_year, year, 1);
    lemma_time_of_day(secs);
    assert(t.days() == days);
}

/// Every valid date and time is the one of its own second.
pub proof fn law_seconds_determine_datetime(t: DateTime)
    requires
        t.valid(),
    ensures
        0 <= t.seconds(),
        datetime(t.seconds()) == t,
{
    lemma_days_before_month(t.year, t.month);
    let in_year = days_before_month(t.year, t.month) + t.day - 1;
    lemma_year_from_back(in_year, 1970, t.year);
    lemma_month_from_back(t.day - 1, t.year, 1, t.month);
    lemma_years_grow(1970, t.year);
    lemma_parts_of_seconds(t.days(), t.hour, t.minute, t.second);
}

proof fn lemma_parts_of_seconds(days: int, hour: int, minute: int, second: int)
    requires
        0 <= days,
        0 <= hour < 24,
        0 <= minute < 60,
        0 <= second < 60,
    ensures
        ({
            let secs = days * 86400 + hour * 3600 + minute * 60 + second;
            &&& 0 <= secs
            &&& secs / 86400 == days
            &&& (secs / 3600) % 24 == hour
            &&& (secs / 60) % 60 == minute
            &&& secs % 60 == second
        }),
{
    let secs = days * 86400 + hour * 3600 + minute * 60 + second;
    assert(secs / 86400 == days);
    assert(secs / 3600 == days * 24 + hour);
    assert(secs / 60 == days * 1440 + hour * 60 + minute);
}

/// Of two seconds the earlier one has the earlier date and time.
pub proof fn law_datetime_keeps_order(a: int, b: int)
    requires
        0 <= a < b,
    ensures
        datetime(a).earlier(datetime(b)),
{
    law_datetime_is_valid(a);
    law_datetime_is_valid(b);
    let s = datetime(a);
    let t = datetime(b);
    if !s.earlier(t) {
        lemma_later_is_not_less(t, s);
    }
}

proof fn lemma_later_is_not_less(a: DateTime, b: DateTime)
    requires
        a.valid(),
        b.valid(),
        !b.earlier(a),
    ensures
        a.seconds() <= b.seconds(),
{
    lemma_days_before_month(a.year, a.month);
    lemma_days_before_month(b.year, b.month);
    if a.year < b.year {
        lemma_years_grow(a.year + 1, b.year);
        assert(a.days() < b.days());
    } else if a.year == b.year && a.month < b.month {
        lemma_months_grow(a.year, a.month + 1, b.month);
        assert(a.days() < b.days());
    }
}

// ---------------------------------------------------------------------------
// Texts
// ---------------------------------------------------------------------------

/// `n` with at least `width` digits.
pub open spec fn field(n: int, width: nat) -> Seq<char> {
    zero_padded(decimal(n as nat), width)
}

/// A session ID: `YYYYMMDDHHmmss`.
pub open spec fn timestamp_text(t: DateTime) -> Seq<char> {
    field(t.year, 4) + field(t.month, 2) + field(t.day, 2) + field(t.hour, 2) + field(t.minute, 2)
        + field(t.second, 2)
}

/// A time in ISO 8601: `YYYY-MM-DDTHH:MM:SSZ`.
pub open spec fn iso8601_text(t: DateTime) -> Seq<char> {
    field(t.year, 4) + seq!['-'] + field(t.month, 2) + seq!['-'] + field(t.day, 2) + seq!['T']
        + field(t.hour, 2) + seq![':'] + field(t.minute, 2) + seq![':'] + field(t.second, 2) + seq![
        'Z',
    ]
}

/// The session ID for the given second: `YYYYMMDDHHmmss`.
pub fn timestamp_id(secs: u64) -> (r: String)
    ensures
        r@ == timestamp_text(datetime(secs as int)),
{
    let (year, month, day, h, m, s) = seconds_to_datetime(secs);
    let mut r = padded_of(year, 4);
    r.append(padded_of(month as u64, 2).as_str());
    r.append(padded_of(day as u64, 2).as_str());
    r.append(padded_of(h as u64, 2).as_str());
    r.append(padded_of(m as u64, 2).as_str());
    r.append(padded_of(s as u64, 2).as_str());
    r
}

/// The given second as ISO 8601: `YYYY-MM-DDTHH:MM:SSZ`.
pub fn iso8601(secs: u64) -> (r: String)
    ensures
        r@ == iso8601_text(datetime(secs as int)),
{
    let (year, month, day, h, m, s) = seconds_to_datetime(secs);
    let mut r = padded_of(year, 4);
    r.push('-');
    r.append(padded_of(month as u64, 2).as_str());
    r.push('-');
    r.append(padded_of(day as u64, 2).as_str());
    r.push('T');
    r.append(padded_of(h as u64, 2).as_str());
    r.push(':');
    r.append(padded_of(m as u64, 2).as_str());
    r.push(':');
    r.append(padded_of(s as u64, 2).as_str());
    r.push('Z');
    assert(r@ =~= iso8601_text(datetime(secs as int)));
    r
}

// ---------------------------------------------------------------------------
// The clock
// ---------------------------------------------------------------------------

/// `std::time::SystemTime`, a reading of the system's clock.
#[verifier::external_type_specification]
#[verifier::external_body]
pub struct ExSystemTime(SystemTime);

/// `SystemTime::now` reads the system's clock; nothing is promised of the reading.
#[verifier::external_body]
fn clock_now() -> SystemTime {
    SystemTime::now()
}

/// The time from the beginning of 1970 to a reading of the clock, or nothing if the reading lies
/// before it.
pub uninterp spec fn time_since_epoch(t: SystemTime) -> Option<Duration>;

/// `SystemTime::duration_since` gives the time since the beginning of 1970, or an error if the
/// reading lies before it; the result depends on the reading alone.
#[verifier::external_body]
fn since_epoch(t: SystemTime) -> (r: Option<Duration>)
    ensures
        r == time_since_epoch(t),
{
    t.duration_since(std::time::UNIX_EPOCH).ok()
}

/// The whole seconds of a span of time.
pub uninterp spec fn seconds_in(d: Duration) -> u64;

/// `Duration::as_secs` gives the whole seconds of a span of time; the result depends on the span
/// alone.
#[verifier::external_body]
fn whole_seconds(d: Duration) -> (r: u64)
    ensures
        r == seconds_in(d),
{
    d.as_secs()
}

/// The whole seconds from the beginning of 1970 to a reading of the clock, or 0 if the reading
/// lies before it.
pub open spec fn seconds_at(t: SystemTime) -> u64 {
    match time_since_epoch(t) {
        Some(d) => seconds_in(d),
        None => 0,
    }
}

/// The seconds since the beginning of 1970 by the system's clock, or 0 if it stands before.
fn unix_seconds() -> (r: u64)
    ensures
        exists|t: SystemTime| r == #[trigger] seconds_at(t),
{
    let t = clock_now();
    let ghost reading = t;
    let r: u64 = match since_epoch(t) {
        Some(d) => whole_seconds(d),
        None => 0,
    };
    assert(r == seconds_at(reading));
    r
}

/// Generate a session ID from current UTC time: `YYYYMMDDHHmmss`.
pub fn current_timestamp_id() -> (r: String)
    ensures
        exists|secs: u64| r@ == #[trigger] timestamp_text(datetime(secs as int)),
        exists|t: SystemTime| r@ == timestamp_text(datetime(#[trigger] seconds_at(t) as int)),
{
    let secs = unix_seconds();
    timestamp_id(secs)
}

/// The second from which on an ID is looked for: the given one, or an earlier one where too few
/// seconds follow it.
pub open spec fn search_start(secs: u64, ids: nat) -> int {
    if secs + ids > u64::MAX {
        u64::MAX - ids
    } else {
        secs as int
    }
}

/// `s` is the first second from `start` on whose ID is not in use.
pub open spec fn is_first_free(start: int, s: int, in_use: Seq<Seq<char>>) -> bool {
    &&& start <= s
    &&& !in_use.contains(timestamp_text(datetime(s)))
    &&& forall|k: int| start <= k < s ==> in_use.contains(timestamp_text(#[trigger] datetime(k)))
}

/// `id` is the ID of the first second from `secs` on whose ID is not in use.
pub open spec fn is_free_id(id: Seq<char>, secs: u64, in_use: Seq<Seq<char>>) -> bool {
    exists|s: int|
        is_first_free(search_start(secs, in_use.len()), s, in_use) && id == timestamp_text(
            #[trigger] datetime(s),
        )
}

/// A session ID that is not in use: that of the given second, or of the first one after it whose
/// ID is free.
pub fn free_timestamp_id(secs: u64, in_use: &Vec<String>) -> (r: String)
    ensures
        !views(in_use@).contains(r@),
        is_free_id(r@, secs, views(in_use@)),
        exists|s: u64| r@ == #[trigger] timestamp_text(datetime(s as int)),
{
    let n: u64 = in_use.len() as u64;
    let ghost ids = views(in_use@);
    let start: u64 = if secs > u64::MAX - n {
        u64::MAX - n
    } else {
        secs
    };
    let mut s: u64 = start;
    loop
        invariant
            ids == views(in_use@),
            ids.len() == n,
            start == search_start(secs, ids.len()),
            start <= s <= start + n <= u64::MAX,
            forall|k: int|
                start <= k < s ==> ids.contains(timestamp_text(#[trigger] datetime(k))),
        decreases start + n - s,
    {
        let id = timestamp_id(s);
        if !is_among(in_use, id.as_str()) {
            assert(is_first_free(start as int, s as int, ids));
            return id;
        }
        assert(ids.contains(timestamp_text(datetime(s as int))));
        proof {
            lemma_few_ids_are_in_use(start as int, s + 1, ids);
        }
        s += 1;
    }
}

/// A new session ID by the clock, which is not in use.
pub fn new_timestamp_id(in_use: &Vec<String>) -> (r: String)
    ensures
        !views(in_use@).contains(r@),
        exists|t: SystemTime| is_free_id(r@, #[trigger] seconds_at(t), views(in_use@)),
        exists|s: u64| r@ == #[trigger] timestamp_text(datetime(s as int)),
{
    let secs = unix_seconds();
    free_timestamp_id(secs, in_use)
}

/// Format current UTC time as ISO 8601 (`YYYY-MM-DDTHH:MM:SSZ`).
pub fn current_iso8601() -> (r: String)
    ensures
        exists|secs: u64| r@ == #[trigger] iso8601_text(datetime(secs as int)),
        exists|t: SystemTime| r@ == iso8601_text(datetime(#[trigger] seconds_at(t) as int)),
{
    let secs = unix_seconds();
    iso8601(secs)
}

// ---------------------------------------------------------------------------
// Reading ISO 8601
// ---------------------------------------------------------------------------

/// The first index at which `c` stands in `s`, or the length of `s`.
pub open spec fn index_of_char(s: Seq<char>, c: char) -> int
    decreases s.len(),
{
    if s.len() == 0 || s[0] == c {
        0
    } else {
        1 + index_of_char(s.skip(1), c)
    }
}

/// The number that a text stands for, if it is one and no greater than `max`.
pub open spec fn bounded(s: Seq<char>, max: int) -> Option<int> {
    match number(s) {
        Some(n) => if n <= max {
            Some(n as int)
        } else {
            None
        },
        None => None,
    }
}

/// The days and the seconds that the fields of a date and a time stand for.
pub open spec fn fields_seconds(date: Seq<Seq<char>>, time: Seq<Seq<char>>) -> Option<int> {
    match (
        bounded(date[0], 65535),
        bounded(date[1], 255),
        bounded(date[2], 255),
        bounded(time[0], u64::MAX as int),
        bounded(time[1], u64::MAX as int),
        bounded(time[2], u64::MAX as int),
    ) {
        (Some(year), Some(month), Some(day), Some(h), Some(m), Some(s)) => {
            let days = days_before_year(year) + days_before_month(
                year,
                if month > 13 {
                    13
                } else {
                    month
                },
            ) + day - 1;
            let total = days * 86400 + h * 3600 + m * 60 + s;
            if month >= 1 && days >= 0 && total <= u64::MAX {
                Some(total)
            } else {
                None
            }
        },
        _ => None,
    }
}

/// The seconds that a text in the form of ISO 8601 stands for.
pub open spec fn iso8601_seconds(s: Seq<char>) -> Option<int> {
    let t = without_trailing(s, 'Z');
    let at = index_of_char(t, 'T');
    if at >= t.len() {
        None
    } else {
        let date = split(t.take(at), '-');
        let time = split(t.skip(at + 1), ':');
        if date.len() < 3 || time.len() < 3 {
            None
        } else {
            fields_seconds(date, time)
        }
    }
}

/// `s` without the characters `c` at its end, and the place of the first `mark` in it.
fn trim_and_find(v: &Vec<char>, c: char, mark: char) -> (r: (usize, usize))
    ensures
        r.1 <= r.0 <= v@.len(),
        without_trailing(v@, c) == v@.take(r.0 as int),
        index_of_char(v@.take(r.0 as int), mark) == r.1,
{
    let mut n: usize = v.len();
    assert(v@.take(n as int) =~= v@);
    while n > 0 && v[n - 1] == c
        invariant
            n <= v@.len(),
            without_trailing(v@, c) == without_trailing(v@.take(n as int), c),
        decreases n,
    {
        assert(v@.take(n as int).drop_last() =~= v@.take(n - 1));
        n -= 1;
    }
    let ghost t = v@.take(n as int);
    let mut at: usize = 0;
    assert(t.skip(0) =~= t);
    while at < n && v[at] != mark
        invariant
            at <= n <= v@.len(),
            t == v@.take(n as int),
            index_of_char(t, mark) == at + index_of_char(t.skip(at as int), mark),
        decreases n - at,
    {
        assert(t.skip(at as int)[0] == v@[at as int]);
        assert(t.skip(at as int).skip(1) =~= t.skip(at + 1));
        at += 1;
    }
    assert(at < n ==> t.skip(at as int)[0] == v@[at as int]);
    (n, at)
}

/// Parse an ISO 8601 string (`YYYY-MM-DDTHH:MM:SSZ`) to Unix seconds.
pub fn parse_iso8601_secs(s: &str) -> (r: Option<u64>)
    ensures
        match r {
            Some(n) => iso8601_seconds(s@) == Some(n as int),
            None => iso8601_seconds(s@) is None,
        },
{
    let v = chars_of(s);
    let (n, at) = trim_and_find(&v, 'Z', 'T');
    let ghost t = v@.take(n as int);
    if at >= n {
        return None;
    }
    let date_str = string_of(v.as_slice(), 0, at);
    let time_str = string_of(v.as_slice(), at + 1, n);
    assert(date_str@ =~= t.take(at as int));
    assert(time_str@ =~= t.skip(at + 1));
    let dp = split_on(date_str.as_str(), '-');
    let tp = split_on(time_str.as_str(), ':');
    assert(dp@.len() == views(dp@).len() && tp@.len() == views(tp@).len());
    if dp.len() < 3 || tp.len() < 3 {
        return None;
    }
    proof {
        assert(views(dp@)[0] == dp@[0]@ && views(dp@)[1] == dp@[1]@ && views(dp@)[2] == dp@[2]@);
        assert(views(tp@)[0] == tp@[0]@ && views(tp@)[1] == tp@[1]@ && views(tp@)[2] == tp@[2]@);
    }
    let year: u64 = match parse_number(dp[0].as_str(), 65535) {
        Some(x) => x,
        None => return None,
    };
    let month: u64 = match parse_number(dp[1].as_str(), 255) {
        Some(x) => x,
        None => return None,
    };
    let day: u64 = match parse_number(dp[2].as_str(), 255) {
        Some(x) => x,
        None => return None,
    };
    let h: u64 = match parse_number(tp[0].as_str(), u64::MAX) {
        Some(x) => x,
        None => return None,
    };
    let m: u64 = match parse_number(tp[1].as_str(), u64::MAX) {
        Some(x) => x,
        None => return None,
    };
    let sec: u64 = match parse_number(tp[2].as_str(), u64::MAX) {
        Some(x) => x,
        None => return None,
    };
    if month == 0 {
        return None;
    }
    proof {
        let mm = if month > 13 {
            13
        } else {
            month as int
        };
        lemma_days_before_month(year as int, mm);
        if year <= 1970 {
            assert(days_before_year(year as int) == 0);
        } else {
            lemma_years_grow(1970, year as int);
        }
        if day == 0 && (year > 1970 || month > 1) {
            if year > 1970 {
                lemma_years_grow(1971, year as int);
                assert(days_before_year(1971) == days_before_year(1970) + year_days(1970));
            }
            if month > 1 {
                lemma_months_grow(year as int, 2, mm);
                assert(days_before_month(year as int, 2) == days_before_month(year as int, 1)
                    + month_days(year as int, 1));
            }
        }
        if year <= 1970 && month <= 1 && day == 0 {
            assert(days_before_month(year as int, mm) == 0);
        }
    }
    if day == 0 && year <= 1970 && month <= 1 {
        return None;
    }
    let days: u64 = date_to_days(year as u16, month as u8, day as u8) as u64;
    let total: u128 = days as u128 * 86400 + h as u128 * 3600 + m as u128 * 60 + sec as u128;
    if total > u64::MAX as u128 {
        return None;
    }
    Some(total as u64)
}

// ---------------------------------------------------------------------------
// Laws of the texts
// ---------------------------------------------------------------------------

/// The last `w` decimal digits of `n`.
spec fn last_digits(n: int, w: nat) -> Seq<char>
    decreases w,
{
    if w == 0 {
        seq![]
    } else {
        last_digits(n / 10, (w - 1) as nat).push(digit(n % 10))
    }
}

/// Ten to the power of `w`.
spec fn ten_to(w: nat) -> int
    decreases w,
{
    if w == 0 {
        1
    } else {
        10 * ten_to((w - 1) as nat)
    }
}

proof fn lemma_field_digits(n: int, w: nat)
    requires
        0 <= n < ten_to(w),
        1 <= w,
    ensures
        field(n, w) == last_digits(n, w),
        field(n, w).len() == w,
        all_digits(field(n, w)),
    decreases w,
{
    lemma_decimal(n as nat);
    lemma_zero_padded(decimal(n as nat), w);
    lemma_last_digits_of_decimal(n, w);
}

proof fn lemma_last_digits_of_decimal(n: int, w: nat)
    requires
        0 <= n < ten_to(w),
        1 <= w,
    ensures
        decimal(n as nat).len() <= w,
        field(n, w) =~= last_digits(n, w),
        last_digits(n, w).len() == w,
    decreases w,
{
    if n < 10 {
        lemma_last_digits_of_zero((w - 1) as nat);
        assert(n / 10 == 0 && n % 10 == n);
        assert(field(n, w) =~= last_digits(n, w));
    } else {
        assert(w > 1) by {
            if w == 1 {
                assert(ten_to(1) == 10 * ten_to(0));
            }
        }
        lemma_last_digits_of_decimal(n / 10, (w - 1) as nat);
        assert(decimal(n as nat) == decimal((n / 10) as nat).push(digit(n % 10)));
        assert(field(n, w) =~= field(n / 10, (w - 1) as nat).push(digit(n % 10)));
    }
}

proof fn lemma_last_digits_of_zero(w: nat)
    ensures
        last_digits(0, w) =~= Seq::new(w, |i: int| '0'),
    decreases w,
{
    if w > 0 {
        lemma_last_digits_of_zero((w - 1) as nat);
        assert(digit(0) == '0');
    }
}

proof fn lemma_text_lt_common_front(p: Seq<char>, x: Seq<char>, y: Seq<char>)
    ensures
        text_lt(p + x, p + y) == text_lt(x, y),
    decreases p.len(),
{
    if p.len() > 0 {
        assert((p + x).skip(1) =~= p.skip(1) + x);
        assert((p + y).skip(1) =~= p.skip(1) + y);
        lemma_text_lt_common_front(p.skip(1), x, y);
    } else {
        assert(p + x =~= x);
        assert(p + y =~= y);
    }
}

proof fn lemma_text_lt_with_tails(x: Seq<char>, y: Seq<char>, u: Seq<char>, v: Seq<char>)
    requires
        x.len() == y.len(),
        text_lt(x, y),
    ensures
        text_lt(x + u, y + v),
    decreases x.len(),
{
    assert(x.len() > 0);
    if x[0] == y[0] {
        lemma_text_lt_with_tails(x.skip(1), y.skip(1), u, v);
        assert((x + u).skip(1) =~= x.skip(1) + u);
        assert((y + v).skip(1) =~= y.skip(1) + v);
    }
}

proof fn lemma_last_digits_keep_order(a: int, b: int, w: nat)
    requires
        0 <= a < b < ten_to(w),
    ensures
        text_lt(last_digits(a, w), last_digits(b, w)),
        last_digits(a, w).len() == w,
        last_digits(b, w).len() == w,
    decreases w,
{
    lemma_last_digits_len(a, w);
    lemma_last_digits_len(b, w);
    let x = last_digits(a / 10, (w - 1) as nat);
    let y = last_digits(b / 10, (w - 1) as nat);
    let p = seq![digit(a % 10)];
    let q = seq![digit(b % 10)];
    assert(last_digits(a, w) =~= x + p);
    assert(last_digits(b, w) =~= y + q);
    if a / 10 < b / 10 {
        lemma_last_digits_keep_order(a / 10, b / 10, (w - 1) as nat);
        lemma_text_lt_with_tails(x, y, p, q);
    } else {
        assert(a / 10 == b / 10);
        lemma_text_lt_common_front(x, p, q);
        assert(p[0] != q[0]);
    }
}

proof fn lemma_last_digits_len(n: int, w: nat)
    ensures
        last_digits(n, w).len() == w,
    decreases w,
{
    if w > 0 {
        lemma_last_digits_len(n / 10, (w - 1) as nat);
    }
}

proof fn lemma_fields_keep_order(a: int, b: int, w: nat, u: Seq<char>, v: Seq<char>)
    requires
        0 <= a < b < ten_to(w),
        1 <= w,
    ensures
        text_lt(field(a, w) + u, field(b, w) + v),
{
    lemma_field_digits(a, w);
    lemma_field_digits(b, w);
    lemma_last_digits_keep_order(a, b, w);
    lemma_text_lt_with_tails(field(a, w), field(b, w), u, v);
}

proof fn lemma_valid_fields(t: DateTime)
    requires
        t.valid(),
        t.year <= 9999,
    ensures
        t.year < ten_to(4),
        t.month < ten_to(2),
        t.day < ten_to(2),
        t.hour < ten_to(2),
        t.minute < ten_to(2),
        t.second < ten_to(2),
{
    reveal_with_fuel(ten_to, 5);
}

/// Up to the year 9999 a session ID has fourteen digits, and the order of the IDs is the order
/// of the seconds that they were made in.
pub proof fn law_timestamp_ids_sort_by_time(a: int, b: int)
    requires
        0 <= a < b,
        datetime(b).year <= 9999,
    ensures
        timestamp_text(datetime(a)).len() == 14,
        timestamp_text(datetime(b)).len() == 14,
        all_digits(timestamp_text(datetime(b))),
        text_lt(timestamp_text(datetime(a)), timestamp_text(datetime(b))),
{
    let s = datetime(a);
    let t = datetime(b);
    law_datetime_is_valid(a);
    law_datetime_is_valid(b);
    law_datetime_keeps_order(a, b);
    lemma_valid_fields(s);
    lemma_valid_fields(t);
    lemma_timestamp_shape(s);
    lemma_timestamp_shape(t);
    lemma_timestamp_tail(s);
    lemma_timestamp_tail(t);
    if s.year < t.year {
        lemma_fields_keep_order(s.year, t.year, 4, tail_month(s), tail_month(t));
    } else {
        lemma_text_lt_common_front(field(s.year, 4), tail_month(s), tail_month(t));
        lemma_tails_keep_order(s, t);
    }
}

/// Two seconds never have the same session ID.
pub proof fn law_timestamp_ids_are_distinct(a: int, b: int)
    requires
        0 <= a,
        0 <= b,
        timestamp_text(datetime(a)) == timestamp_text(datetime(b)),
    ensures
        a == b,
{
    let s = datetime(a);
    let t = datetime(b);
    law_datetime_is_valid(a);
    law_datetime_is_valid(b);
    lemma_two_digits(s);
    lemma_two_digits(t);
    lemma_field(s.year, 4);
    lemma_field(t.year, 4);
    let x = timestamp_text(s);
    let n = field(s.year, 4).len() as int;
    assert(n == x.len() - 10 && n == field(t.year, 4).len());
    assert(x.take(n) =~= field(s.year, 4));
    assert(x.take(n) =~= field(t.year, 4));
    assert(x.subrange(n, n + 2) =~= field(s.month, 2));
    assert(x.subrange(n, n + 2) =~= field(t.month, 2));
    assert(x.subrange(n + 2, n + 4) =~= field(s.day, 2));
    assert(x.subrange(n + 2, n + 4) =~= field(t.day, 2));
    assert(x.subrange(n + 4, n + 6) =~= field(s.hour, 2));
    assert(x.subrange(n + 4, n + 6) =~= field(t.hour, 2));
    assert(x.subrange(n + 6, n + 8) =~= field(s.minute, 2));
    assert(x.subrange(n + 6, n + 8) =~= field(t.minute, 2));
    assert(x.subrange(n + 8, n + 10) =~= field(s.second, 2));
    assert(x.subrange(n + 8, n + 10) =~= field(t.second, 2));
}

proof fn lemma_two_digits(t: DateTime)
    requires
        t.valid(),
    ensures
        field(t.month, 2).len() == 2 && number(field(t.month, 2)) == Some(t.month as nat),
        field(t.day, 2).len() == 2 && number(field(t.day, 2)) == Some(t.day as nat),
        field(t.hour, 2).len() == 2 && number(field(t.hour, 2)) == Some(t.hour as nat),
        field(t.minute, 2).len() == 2 && number(field(t.minute, 2)) == Some(t.minute as nat),
        field(t.second, 2).len() == 2 && number(field(t.second, 2)) == Some(t.second as nat),
{
    reveal_with_fuel(ten_to, 3);
    lemma_field_digits(t.month, 2);
    lemma_field_digits(t.day, 2);
    lemma_field_digits(t.hour, 2);
    lemma_field_digits(t.minute, 2);
    lemma_field_digits(t.second, 2);
    lemma_field(t.month, 2);
    lemma_field(t.day, 2);
    lemma_field(t.hour, 2);
    lemma_field(t.minute, 2);
    lemma_field(t.second, 2);
}

/// No more consecutive seconds have IDs in use than there are IDs.
proof fn lemma_few_ids_are_in_use(from: int, to: int, in_use: Seq<Seq<char>>)
    requires
        0 <= from <= to,
        forall|k: int| from <= k < to ==> in_use.contains(timestamp_text(#[trigger] datetime(k))),
    ensures
        to - from <= in_use.len(),
{
    let taken = Seq::new((to - from) as nat, |i: int| timestamp_text(datetime(from + i)));
    assert(taken.no_duplicates()) by {
        assert forall|i: int, j: int|
            0 <= i < taken.len() && 0 <= j < taken.len() && i != j implies taken[i] != taken[j] by {
            if taken[i] == taken[j] {
                law_timestamp_ids_are_distinct(from + i, from + j);
            }
        }
    }
    taken.unique_seq_to_set();
    in_use.lemma_cardinality_of_set();
    vstd::seq_lib::seq_to_set_is_finite(in_use);
    assert(taken.to_set().subset_of(in_use.to_set())) by {
        assert forall|x: Seq<char>| taken.to_set().contains(x) implies in_use.to_set().contains(
            x,
        ) by {
            let i = choose|i: int| 0 <= i < taken.len() && taken[i] == x;
            assert(in_use.contains(timestamp_text(datetime(from + i))));
        }
    }
    vstd::set_lib::lemma_len_subset(taken.to_set(), in_use.to_set());
}

/// The session ID from the month on.
spec fn tail_month(t: DateTime) -> Seq<char> {
    field(t.month, 2) + tail_day(t)
}

/// The session ID from the day on.
spec fn tail_day(t: DateTime) -> Seq<char> {
    field(t.day, 2) + tail_hour(t)
}

/// The session ID from the hour on.
spec fn tail_hour(t: DateTime) -> Seq<char> {
    field(t.hour, 2) + tail_minute(t)
}

/// The session ID from the minute on.
spec fn tail_minute(t: DateTime) -> Seq<char> {
    field(t.minute, 2) + field(t.second, 2)
}

proof fn lemma_timestamp_tail(t: DateTime)
    ensures
        timestamp_text(t) == field(t.year, 4) + tail_month(t),
{
    lemma_six(
        field(t.year, 4),
        field(t.month, 2),
        field(t.day, 2),
        field(t.hour, 2),
        field(t.minute, 2),
        field(t.second, 2),
    );
}

proof fn lemma_six(
    a: Seq<char>,
    b: Seq<char>,
    c: Seq<char>,
    d: Seq<char>,
    e: Seq<char>,
    f: Seq<char>,
)
    ensures
        a + b + c + d + e + f == a + (b + (c + (d + (e + f)))),
{
    assert(a + b + c + d + e + f =~= a + (b + (c + (d + (e + f)))));
}

proof fn lemma_tails_keep_order(s: DateTime, t: DateTime)
    requires
        s.valid(),
        t.valid(),
        s.year == t.year,
        s.year <= 9999,
        s.earlier(t),
    ensures
        text_lt(tail_month(s), tail_month(t)),
{
    lemma_valid_fields(s);
    lemma_valid_fields(t);
    if s.month < t.month {
        lemma_fields_keep_order(s.month, t.month, 2, tail_day(s), tail_day(t));
    } else {
        lemma_text_lt_common_front(field(s.month, 2), tail_day(s), tail_day(t));
        if s.day < t.day {
            lemma_fields_keep_order(s.day, t.day, 2, tail_hour(s), tail_hour(t));
        } else {
            lemma_text_lt_common_front(field(s.day, 2), tail_hour(s), tail_hour(t));
            if s.hour < t.hour {
                lemma_fields_keep_order(s.hour, t.hour, 2, tail_minute(s), tail_minute(t));
            } else {
                lemma_text_lt_common_front(field(s.hour, 2), tail_minute(s), tail_minute(t));
                let ss = field(s.second, 2);
                let ts = field(t.second, 2);
                if s.minute < t.minute {
                    lemma_fields_keep_order(s.minute, t.minute, 2, ss, ts);
                } else {
                    lemma_text_lt_common_front(field(s.minute, 2), ss, ts);
                    lemma_fields_keep_order(s.second, t.second, 2, seq![], seq![]);
                    assert(ss + Seq::<char>::empty() =~= ss);
                    assert(ts + Seq::<char>::empty() =~= ts);
                }
            }
        }
    }
}

proof fn lemma_timestamp_shape(t: DateTime)
    requires
        t.valid(),
        t.year <= 9999,
    ensures
        timestamp_text(t).len() == 14,
        all_digits(timestamp_text(t)),
{
    lemma_valid_fields(t);
    lemma_field_digits(t.year, 4);
    lemma_field_digits(t.month, 2);
    lemma_field_digits(t.day, 2);
    lemma_field_digits(t.hour, 2);
    lemma_field_digits(t.minute, 2);
    lemma_field_digits(t.second, 2);
    let x = timestamp_text(t);
    assert forall|i: int| 0 <= i < x.len() implies is_digit(#[trigger] x[i]) by {
        if i < 4 {
            assert(x[i] == field(t.year, 4)[i]);
        } else if i < 6 {
            assert(x[i] == field(t.month, 2)[i - 4]);
        } else if i < 8 {
            assert(x[i] == field(t.day, 2)[i - 6]);
        } else if i < 10 {
            assert(x[i] == field(t.hour, 2)[i - 8]);
        } else if i < 12 {
            assert(x[i] == field(t.minute, 2)[i - 10]);
        } else {
            assert(x[i] == field(t.second, 2)[i - 12]);
        }
    }
}

proof fn lemma_field(n: int, w: nat)
    requires
        0 <= n,
    ensures
        field(n, w).len() > 0,
        all_digits(field(n, w)),
        number(field(n, w)) == Some(n as nat),
        forall|i: int|
            0 <= i < field(n, w).len() ==> (#[trigger] field(n, w)[i]) != '-' && field(n, w)[i]
                != ':' && field(n, w)[i] != 'T' && field(n, w)[i] != 'Z',
{
    lemma_decimal(n as nat);
    lemma_zero_padded(decimal(n as nat), w);
    assert forall|i: int| 0 <= i < field(n, w).len() implies (#[trigger] field(n, w)[i]) != '-'
        && field(n, w)[i] != ':' && field(n, w)[i] != 'T' && field(n, w)[i] != 'Z' by {
        assert(is_digit(field(n, w)[i]));
    }
}

proof fn lemma_index_of_char(a: Seq<char>, c: char, b: Seq<char>)
    requires
        forall|i: int| 0 <= i < a.len() ==> a[i] != c,
    ensures
        index_of_char(a + seq![c] + b, c) == a.len(),
    decreases a.len(),
{
    let s = a + seq![c] + b;
    if a.len() > 0 {
        assert(s.skip(1) =~= a.skip(1) + seq![c] + b);
        assert forall|i: int| 0 <= i < a.skip(1).len() implies a.skip(1)[i] != c by {
            assert(a.skip(1)[i] == a[i + 1]);
        }
        assert(s[0] == a[0]);
        lemma_index_of_char(a.skip(1), c, b);
    } else {
        assert(s[0] == c);
    }
}

proof fn lemma_three_pieces(a: Seq<char>, b: Seq<char>, c: Seq<char>, sep: char)
    requires
        forall|i: int| 0 <= i < a.len() ==> a[i] != sep,
        forall|i: int| 0 <= i < b.len() ==> b[i] != sep,
        forall|i: int| 0 <= i < c.len() ==> c[i] != sep,
    ensures
        split(a + seq![sep] + b + seq![sep] + c, sep) =~= seq![a, b, c],
{
    lemma_split_first(a, sep, b + seq![sep] + c);
    lemma_split_first(b, sep, c);
    lemma_split_first(c, sep, seq![]);
    assert(a + seq![sep] + b + seq![sep] + c =~= a + seq![sep] + (b + seq![sep] + c));
}

/// No character of the text separates the parts of a time.
spec fn is_part(x: Seq<char>) -> bool {
    &&& x.len() > 0
    &&& forall|i: int|
        0 <= i < x.len() ==> (#[trigger] x[i]) != '-' && x[i] != ':' && x[i] != 'T' && x[i] != 'Z'
}

proof fn lemma_date_has_no_t(y: Seq<char>, mo: Seq<char>, d: Seq<char>)
    requires
        is_part(y) && is_part(mo) && is_part(d),
    ensures
        forall|i: int|
            #![auto]
            0 <= i < (y + seq!['-'] + mo + seq!['-'] + d).len() ==> (y + seq!['-'] + mo + seq!['-']
                + d)[i] != 'T',
{
    let date = y + seq!['-'] + mo + seq!['-'] + d;
    assert forall|i: int| 0 <= i < date.len() implies #[trigger] date[i] != 'T' by {
        if i < y.len() {
            assert(date[i] == y[i]);
        } else if i == y.len() {
        } else if i < y.len() + 1 + mo.len() {
            assert(date[i] == mo[i - y.len() - 1]);
        } else if i == y.len() + 1 + mo.len() {
        } else {
            assert(date[i] == d[i - y.len() - mo.len() - 2]);
        }
    }
}

/// A date and a time, put together, come apart again.
proof fn lemma_date_and_time(date: Seq<char>, time: Seq<char>)
    requires
        forall|i: int| 0 <= i < date.len() ==> date[i] != 'T',
        time.len() > 0,
        time.last() != 'Z',
    ensures
        without_trailing(date + seq!['T'] + time + seq!['Z'], 'Z') == date + seq!['T'] + time,
        index_of_char(date + seq!['T'] + time, 'T') == date.len(),
        (date + seq!['T'] + time).take(date.len() as int) == date,
        (date + seq!['T'] + time).skip(date.len() + 1int) == time,
{
    let body = date + seq!['T'] + time;
    let whole = body + seq!['Z'];
    assert(whole.drop_last() =~= body);
    assert(body.last() == time.last());
    assert(without_trailing(body, 'Z') == body);
    assert(without_trailing(whole, 'Z') == without_trailing(body, 'Z'));
    lemma_index_of_char(date, 'T', time);
    assert(body.take(date.len() as int) =~= date);
    assert(body.skip(date.len() + 1int) =~= time);
}

/// What is written in ISO 8601 reads as the second that it was written for, as far as the
/// reader knows years.
#[verifier::spinoff_prover]
pub proof fn law_iso8601_round_trip(secs: u64)
    requires
        datetime(secs as int).year <= 65535,
    ensures
        iso8601_seconds(iso8601_text(datetime(secs as int))) == Some(secs as int),
{
    let t = datetime(secs as int);
    law_datetime_is_valid(secs as int);
    let (y, mo, d, h, mi, s) = (
        field(t.year, 4),
        field(t.month, 2),
        field(t.day, 2),
        field(t.hour, 2),
        field(t.minute, 2),
        field(t.second, 2),
    );
    lemma_field(t.year, 4);
    lemma_field(t.month, 2);
    lemma_field(t.day, 2);
    lemma_field(t.hour, 2);
    lemma_field(t.minute, 2);
    lemma_field(t.second, 2);
    let date = y + seq!['-'] + mo + seq!['-'] + d;
    let time = h + seq![':'] + mi + seq![':'] + s;
    lemma_date_has_no_t(y, mo, d);
    assert(time.last() == s[s.len() - 1]);
    lemma_date_and_time(date, time);
    assert(iso8601_text(t) =~= date + seq!['T'] + time + seq!['Z']);
    lemma_three_pieces(y, mo, d, '-');
    lemma_three_pieces(h, mi, s, ':');
    assert(t.days() >= 0) by {
        lemma_days_before_month(t.year, t.month);
        lemma_years_grow(1970, t.year);
    }
}

} // verus!
