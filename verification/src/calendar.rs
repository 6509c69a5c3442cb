//! Conversion of raw RTC readings into calendar timestamps.
//!
//! A raw sample counts whole seconds since 1970-01-01T00:00:00 plus a
//! sub-second fraction in nanoseconds. Conversion follows the proleptic
//! Gregorian calendar and is exact: the resulting timestamp maps back to
//! precisely the seconds value it came from, and the sub-second fraction is
//! carried through unchanged. Samples whose year would not fit the timestamp
//! type are rejected, never wrapped.

use vstd::prelude::*;
use vstd::arithmetic::div_mod::lemma_fundamental_div_mod;
use vstd::arithmetic::div_mod::lemma_fundamental_div_mod_converse;
use crate::NANOS_PER_SEC;

verus! {

/// The calendar year that second zero of the time source falls in.
pub const EPOCH_YEAR: u16 = 1970;

/// The largest year a `CalendarTimestamp` can carry.
pub const MAX_YEAR: u16 = 65535;

/// Seconds in one day.
pub const SECS_PER_DAY: u64 = 86_400;

/// Seconds in one hour.
pub const SECS_PER_HOUR: u64 = 3_600;

/// Seconds in one minute.
pub const SECS_PER_MINUTE: u64 = 60;

/// The unconverted value read from the real-time clock: whole seconds since
/// the epoch and a sub-second fraction in nanoseconds.
#[derive(Clone, Copy, PartialEq, Eq, Structural, Debug)]
pub struct RawTimeSample {
    pub seconds_since_epoch: u64,
    pub subsec_nanos: u32,
}

/// A calendar date and time of day, with the sub-second fraction of the
/// sample it was derived from.
#[derive(Clone, Copy, PartialEq, Eq, Structural, Debug)]
pub struct CalendarTimestamp {
    pub year: u16,
    pub month: u8,
    pub day: u8,
    pub hour: u8,
    pub minute: u8,
    pub second: u8,
    pub subsec_nanos: u32,
}

/// Why a raw sample could not be converted.
#[derive(Clone, Copy, PartialEq, Eq, Structural, Debug)]
pub enum ConversionError {
    /// The sample lies beyond the last representable year.
    YearOutOfRange,
}

/// Gregorian leap-year rule.
pub open spec fn is_leap_year(y: int) -> bool {
    y % 4 == 0 && (y % 100 != 0 || y % 400 == 0)
}

/// Number of days in year `y`.
pub open spec fn days_in_year(y: int) -> int {
    if is_leap_year(y) {
        366
    } else {
        365
    }
}

/// Number of days in month `m` of year `y` (months count from 1).
pub open spec fn days_in_month(y: int, m: int) -> int {
    if m == 2 {
        if is_leap_year(y) {
            29
        } else {
            28
        }
    } else if m == 4 || m == 6 || m == 9 || m == 11 {
        30
    } else {
        31
    }
}

/// Days from the epoch up to the first day of year `y`.
pub open spec fn days_before_year(y: int) -> int
    decreases y - (EPOCH_YEAR as int),
{
    if y <= EPOCH_YEAR as int {
        0
    } else {
        days_before_year(y - 1) + days_in_year(y - 1)
    }
}

/// Days from the start of year `y` up to the first day of month `m`.
pub open spec fn days_before_month(y: int, m: int) -> int
    decreases m,
{
    if m <= 1 {
        0
    } else {
        days_before_month(y, m - 1) + days_in_month(y, m - 1)
    }
}

/// Day index (counting from the epoch) of the calendar date `y-m-d`.
pub open spec fn epoch_days_of(y: int, m: int, d: int) -> int {
    days_before_year(y) + days_before_month(y, m) + (d - 1)
}

/// The seconds-since-epoch instant a calendar timestamp denotes.
pub open spec fn timestamp_of(c: CalendarTimestamp) -> int {
    epoch_days_of(c.year as int, c.month as int, c.day as int) * (SECS_PER_DAY as int) + (c.hour
        as int) * (SECS_PER_HOUR as int) + (c.minute as int) * (SECS_PER_MINUTE as int) + (c.second
        as int)
}

/// A calendar timestamp whose fields all lie in their calendar ranges.
pub open spec fn valid_timestamp(c: CalendarTimestamp) -> bool {
    &&& EPOCH_YEAR <= c.year
    &&& 1 <= c.month <= 12
    &&& 1 <= c.day as int <= days_in_month(c.year as int, c.month as int)
    &&& c.hour < 24
    &&& c.minute < 60
    &&& c.second < 60
    &&& c.subsec_nanos < NANOS_PER_SEC
}

/// First seconds value past the last representable calendar day.
pub open spec fn max_representable_secs() -> int {
    days_before_year(MAX_YEAR as int + 1) * (SECS_PER_DAY as int)
}

/// Seconds values that convert to a representable calendar timestamp.
pub open spec fn in_calendar_range(secs: int) -> bool {
    0 <= secs < max_representable_secs()
}

/// Gregorian leap-year rule.
pub fn leap_year(y: u16) -> (r: bool)
    ensures
        r == is_leap_year(y as int),
{
    y % 4 == 0 && (y % 100 != 0 || y % 400 == 0)
}

/// Number of days in year `y`.
pub fn year_length(y: u16) -> (r: u16)
    ensures
        r as int == days_in_year(y as int),
{
    if leap_year(y) {
        366
    } else {
        365
    }
}

/// Number of days in month `m` of year `y`.
pub fn month_length(y: u16, m: u8) -> (r: u8)
    requires
        1 <= m <= 12,
    ensures
        r as int == days_in_month(y as int, m as int),
{
    if m == 2 {
        if leap_year(y) {
            29
        } else {
            28
        }
    } else if m == 4 || m == 6 || m == 9 || m == 11 {
        30
    } else {
        31
    }
}

/// One year of days stacked on `days_before_year`.
proof fn lemma_days_before_year_succ(y: int)
    requires
        EPOCH_YEAR as int <= y,
    ensures
        days_before_year(y + 1) == days_before_year(y) + days_in_year(y),
{
}

/// `days_before_year` grows with the year, by at least a whole year per step.
pub proof fn lemma_days_before_year_mono(y1: int, y2: int)
    requires
        EPOCH_YEAR as int <= y1 <= y2,
    ensures
        days_before_year(y1) <= days_before_year(y2),
        y1 < y2 ==> days_before_year(y1) + days_in_year(y1) <= days_before_year(y2),
    decreases y2 - y1,
{
    if y1 < y2 {
        lemma_days_before_year_mono(y1, y2 - 1);
        lemma_days_before_year_succ(y2 - 1);
    }
}

/// Converts a raw time sample to the calendar timestamp that denotes the
/// same instant. Succeeds exactly when the sample's day falls before the end
/// of the last representable year; the result then determines the sample:
/// its fields are in range, it maps back to the same seconds value, and it
/// keeps the sub-second fraction.
pub fn to_calendar(s: &RawTimeSample) -> (r: Result<CalendarTimestamp, ConversionError>)
    requires
        s.subsec_nanos < NANOS_PER_SEC,
    ensures
        r is Ok <==> in_calendar_range(s.seconds_since_epoch as int),
        r matches Ok(c) ==> valid_timestamp(c) && timestamp_of(c) == s.seconds_since_epoch as int
            && c.subsec_nanos == s.subsec_nanos,
        r is Err ==> r == Err::<CalendarTimestamp, ConversionError>(
            ConversionError::YearOutOfRange,
        ),
{
    let secs: u64 = s.seconds_since_epoch;
    let total_days: u64 = secs / SECS_PER_DAY;
    let sod: u64 = secs % SECS_PER_DAY;
    proof {
        lemma_fundamental_div_mod(secs as int, SECS_PER_DAY as int);
    }
    let hour: u64 = sod / SECS_PER_HOUR;
    let rem: u64 = sod % SECS_PER_HOUR;
    proof {
        lemma_fundamental_div_mod(sod as int, SECS_PER_HOUR as int);
    }
    let minute: u64 = rem / SECS_PER_MINUTE;
    let second: u64 = rem % SECS_PER_MINUTE;
    proof {
        lemma_fundamental_div_mod(rem as int, SECS_PER_MINUTE as int);
    }

    let mut year: u16 = EPOCH_YEAR;
    let mut days: u64 = total_days;
    let mut ylen: u64 = year_length(year) as u64;
    while days >= ylen
        invariant
            EPOCH_YEAR <= year <= MAX_YEAR,
            ylen as int == days_in_year(year as int),
            days_before_year(year as int) + days as int == total_days as int,
            secs == s.seconds_since_epoch,
            total_days as int == secs as int / SECS_PER_DAY as int,
            secs as int == total_days as int * SECS_PER_DAY as int + sod as int,
            0 <= (sod as int) < (SECS_PER_DAY as int),
        decreases days,
    {
        if year == MAX_YEAR {
            proof {
                lemma_days_before_year_succ(MAX_YEAR as int);
                assert(total_days as int >= days_before_year(MAX_YEAR as int + 1));
                assert(secs as int >= max_representable_secs());
            }
            return Err(ConversionError::YearOutOfRange);
        }
        days = days - ylen;
        year = year + 1;
        proof {
            lemma_days_before_year_succ(year as int - 1);
        }
        ylen = year_length(year) as u64;
    }

    proof {
        lemma_days_before_year_succ(year as int);
        lemma_days_before_year_mono(year as int + 1, MAX_YEAR as int + 1);
        assert(total_days as int + 1 <= days_before_year(MAX_YEAR as int + 1));
        assert((secs as int) < max_representable_secs());
    }

    let mut month: u8 = 1;
    let mut mlen: u64 = month_length(year, month) as u64;
    while days >= mlen
        invariant
            1 <= month <= 12,
            EPOCH_YEAR <= year <= MAX_YEAR,
            mlen as int == days_in_month(year as int, month as int),
            days_before_year(year as int) + days_before_month(year as int, month as int) + days
                as int == total_days as int,
            days_before_month(year as int, month as int) + (days as int) < days_in_year(
                year as int,
            ),
        decreases days,
    {
        proof {
            if month == 12 {
                lemma_days_before_month_full(year as int);
                assert(days_before_month(year as int, 13) == days_before_month(year as int, 12)
                    + days_in_month(year as int, 12));
                assert(false);
            }
        }
        days = days - mlen;
        month = month + 1;
        mlen = month_length(year, month) as u64;
    }

    let day: u8 = days as u8 + 1;
    let c = CalendarTimestamp {
        year,
        month,
        day,
        hour: hour as u8,
        minute: minute as u8,
        second: second as u8,
        subsec_nanos: s.subsec_nanos,
    };
    proof {
        assert(epoch_days_of(year as int, month as int, day as int) == total_days as int);
        assert(timestamp_of(c) == secs as int);
    }
    Ok(c)
}

/// The days of the twelve months fill the year exactly.
pub proof fn lemma_days_before_month_full(y: int)
    ensures
        days_before_month(y, 13) == days_in_year(y),
{
    reveal_with_fuel(days_before_month, 13);
}

/// `days_before_month` grows with the month, by a whole month per step.
pub proof fn lemma_days_before_month_mono(y: int, m1: int, m2: int)
    requires
        1 <= m1 <= m2 <= 13,
    ensures
        days_before_month(y, m1) <= days_before_month(y, m2),
        m1 < m2 ==> days_before_month(y, m1) + days_in_month(y, m1) <= days_before_month(y, m2),
    decreases m2 - m1,
{
    if m1 < m2 {
        lemma_days_before_month_mono(y, m1, m2 - 1);
    }
}

/// A valid date's day index falls inside its own year: at or past the
/// year's first day, and strictly before the next year's first day.
pub proof fn lemma_epoch_days_in_year(c: CalendarTimestamp)
    requires
        valid_timestamp(c),
    ensures
        days_before_year(c.year as int) <= epoch_days_of(
            c.year as int,
            c.month as int,
            c.day as int,
        ) < days_before_year(c.year as int + 1),
        0 <= days_before_month(c.year as int, c.month as int) + (c.day - 1) < days_in_year(
            c.year as int,
        ),
{
    let y: int = c.year as int;
    let m: int = c.month as int;
    lemma_days_before_month_mono(y, 1, m);
    lemma_days_before_month_mono(y, m, 13);
    lemma_days_before_month_full(y);
    lemma_days_before_year_succ(y);
}

/// Converts a calendar timestamp back to its seconds-since-epoch value.
pub fn to_seconds(c: &CalendarTimestamp) -> (r: u64)
    requires
        valid_timestamp(*c),
    ensures
        r as int == timestamp_of(*c),
{
    let mut days: u64 = 0;
    let mut y: u16 = EPOCH_YEAR;
    while y < c.year
        invariant
            EPOCH_YEAR <= y <= c.year,
            days as int == days_before_year(y as int),
            days as int <= 366 * ((y as int) - (EPOCH_YEAR as int)),
        decreases c.year as int - y as int,
    {
        proof {
            lemma_days_before_year_succ(y as int);
        }
        days = days + year_length(y) as u64;
        y = y + 1;
    }
    let mut m: u8 = 1;
    while m < c.month
        invariant
            1 <= m <= c.month,
            c.month <= 12,
            EPOCH_YEAR <= c.year,
            days as int == days_before_year(c.year as int) + days_before_month(
                c.year as int,
                m as int,
            ),
            days as int <= 366 * ((c.year as int) - (EPOCH_YEAR as int)) + 31 * (m as int),
        decreases c.month as int - m as int,
    {
        days = days + month_length(c.year, m) as u64;
        m = m + 1;
    }
    days = days + (c.day - 1) as u64;
    proof {
        assert(days as int == epoch_days_of(c.year as int, c.month as int, c.day as int));
        assert(days as int <= 366 * 65536);
    }
    days * SECS_PER_DAY + (c.hour as u64) * SECS_PER_HOUR + (c.minute as u64) * SECS_PER_MINUTE + (
    c.second as u64)
}

/// Denoting the same instant with the same sub-second fraction, two valid
/// calendar timestamps are equal. The conversion from seconds is therefore
/// unambiguous: a fixed raw sample has exactly one valid calendar form, and
/// mapping a converted timestamp back to seconds and converting again
/// reproduces it unchanged.
pub proof fn lemma_timestamp_of_injective(a: CalendarTimestamp, b: CalendarTimestamp)
    requires
        valid_timestamp(a),
        valid_timestamp(b),
        timestamp_of(a) == timestamp_of(b),
        a.subsec_nanos == b.subsec_nanos,
    ensures
        a == b,
{
    let t: int = timestamp_of(a);
    let da: int = epoch_days_of(a.year as int, a.month as int, a.day as int);
    let db: int = epoch_days_of(b.year as int, b.month as int, b.day as int);
    let ra: int = (a.hour as int) * (SECS_PER_HOUR as int) + (a.minute as int) * (SECS_PER_MINUTE
        as int) + (a.second as int);
    let rb: int = (b.hour as int) * (SECS_PER_HOUR as int) + (b.minute as int) * (SECS_PER_MINUTE
        as int) + (b.second as int);
    lemma_epoch_days_in_year(a);
    lemma_epoch_days_in_year(b);
    lemma_days_before_year_mono(EPOCH_YEAR as int, a.year as int);
    lemma_days_before_year_mono(EPOCH_YEAR as int, b.year as int);
    lemma_fundamental_div_mod_converse(t, SECS_PER_DAY as int, da, ra);
    lemma_fundamental_div_mod_converse(t, SECS_PER_DAY as int, db, rb);
    assert(da == db && ra == rb);

    lemma_fundamental_div_mod_converse(
        ra,
        SECS_PER_HOUR as int,
        a.hour as int,
        (a.minute as int) * (SECS_PER_MINUTE as int) + (a.second as int),
    );
    lemma_fundamental_div_mod_converse(
        rb,
        SECS_PER_HOUR as int,
        b.hour as int,
        (b.minute as int) * (SECS_PER_MINUTE as int) + (b.second as int),
    );
    assert(a.hour == b.hour);
    lemma_fundamental_div_mod_converse(
        (a.minute as int) * (SECS_PER_MINUTE as int) + (a.second as int),
        SECS_PER_MINUTE as int,
        a.minute as int,
        a.second as int,
    );
    lemma_fundamental_div_mod_converse(
        (b.minute as int) * (SECS_PER_MINUTE as int) + (b.second as int),
        SECS_PER_MINUTE as int,
        b.minute as int,
        b.second as int,
    );
    assert(a.minute == b.minute && a.second == b.second);

    if a.year < b.year {
        lemma_days_before_year_mono(a.year as int + 1, b.year as int);
        assert(false);
    }
    if b.year < a.year {
        lemma_days_before_year_mono(b.year as int + 1, a.year as int);
        assert(false);
    }
    assert(a.year == b.year);

    let y: int = a.year as int;
    if a.month < b.month {
        lemma_days_before_month_mono(y, a.month as int, b.month as int);
        assert(false);
    }
    if b.month < a.month {
        lemma_days_before_month_mono(y, b.month as int, a.month as int);
        assert(false);
    }
    assert(a.month == b.month);
    assert(a.day == b.day);
}

/// Every valid calendar timestamp denotes an instant the conversion accepts:
/// its seconds value lies in the representable range.
pub proof fn lemma_valid_timestamp_in_range(c: CalendarTimestamp)
    requires
        valid_timestamp(c),
    ensures
        in_calendar_range(timestamp_of(c)),
{
    lemma_epoch_days_in_year(c);
    lemma_days_before_year_mono(EPOCH_YEAR as int, c.year as int);
    lemma_days_before_year_mono(c.year as int + 1, MAX_YEAR as int + 1);
    let d: int = epoch_days_of(c.year as int, c.month as int, c.day as int);
    assert(0 <= d);
    assert(d + 1 <= days_before_year(MAX_YEAR as int + 1));
    assert(d * (SECS_PER_DAY as int) + (SECS_PER_DAY as int) <= days_before_year(
        MAX_YEAR as int + 1,
    ) * (SECS_PER_DAY as int)) by (nonlinear_arith)
        requires
            d + 1 <= days_before_year(MAX_YEAR as int + 1),
    ;
    assert(timestamp_of(c) < max_representable_secs());
    assert(0 <= timestamp_of(c)) by (nonlinear_arith)
        requires
            0 <= d,
            timestamp_of(c) == d * (SECS_PER_DAY as int) + (c.hour as int) * (SECS_PER_HOUR as int)
                + (c.minute as int) * (SECS_PER_MINUTE as int) + (c.second as int),
            0 <= c.hour as int,
            0 <= c.minute as int,
            0 <= c.second as int,
    ;
}

} // verus!
