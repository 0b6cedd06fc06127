//! From the reading of a meter's clock to an instant in a time zone.
//!
//! A time stamp says what the local clock showed. Once a year, when the
//! clocks are set back, an hour of local time comes twice: the daylight
//! saving flag of the time stamp then tells the first pass from the second.
//! The time zone itself is looked up by the `jiff` or the `chrono` crate.

use vstd::prelude::*;

use crate::tst::Tst;

verus! {

/// Whether `year` is a leap year of the Gregorian calendar.
pub open spec fn is_leap_year(year: int) -> bool {
    year % 4 == 0 && (year % 100 != 0 || year % 400 == 0)
}

/// The number of days of `month` in `year`.
pub open spec fn days_in_month(year: int, month: int) -> int {
    if month == 2 {
        if is_leap_year(year) {
            29
        } else {
            28
        }
    } else if month == 4 || month == 6 || month == 9 || month == 11 {
        30
    } else {
        31
    }
}

/// Whether the day exists in the Gregorian calendar.
pub open spec fn is_calendar_date(year: int, month: int, day: int) -> bool {
    1 <= month <= 12 && 1 <= day <= days_in_month(year, month)
}

/// Whether the time exists on a clock of 24 hours without leap seconds.
pub open spec fn is_clock_time(hour: int, minute: int, second: int) -> bool {
    0 <= hour <= 23 && 0 <= minute <= 59 && 0 <= second <= 59
}

/// `jiff::tz::TimeZone`, which is carried through as it is: nothing is known of
/// what it holds.
#[verifier::external_type_specification]
#[verifier::external_body]
pub struct ExJiffTimeZone(jiff::tz::TimeZone);

/// `jiff::Zoned`, which is carried through as it is: nothing is known of
/// what it holds.
#[verifier::external_type_specification]
#[verifier::external_body]
pub struct ExJiffZoned(jiff::Zoned);

/// `jiff::civil::DateTime`, which is carried through as it is: nothing is known of
/// what it holds.
#[verifier::external_type_specification]
#[verifier::external_body]
pub struct ExJiffDateTime(jiff::civil::DateTime);

/// `jiff::tz::AmbiguousZoned`, which is carried through as it is: nothing is known of
/// what it holds.
#[verifier::external_type_specification]
#[verifier::external_body]
pub struct ExJiffAmbiguousZoned(jiff::tz::AmbiguousZoned);

/// Calls `jiff::civil::DateTime::new` with no fraction of a second. Its
/// documentation says that it fails unless the year is between -9999 and
/// 9999, the day exists in the calendar, and the time exists on the clock;
/// the contract says no more.
#[verifier::external_body]
fn jiff_civil(year: i16, month: i8, day: i8, hour: i8, minute: i8, second: i8) -> (r: Option<
    jiff::civil::DateTime,
>)
    ensures
        r.is_some() == (-9999 <= year <= 9999 && is_calendar_date(
            year as int,
            month as int,
            day as int,
        ) && is_clock_time(hour as int, minute as int, second as int)),
{
    jiff::civil::DateTime::new(year, month, day, hour, minute, second, 0).ok()
}

/// Calls `jiff::tz::TimeZone::to_ambiguous_zoned`, which looks the local
/// time up in the time zone. Nothing is claimed of what it finds.
#[verifier::external_body]
fn jiff_ambiguous(timezone: &jiff::tz::TimeZone, local: jiff::civil::DateTime) -> (r:
    jiff::tz::AmbiguousZoned)
{
    timezone.to_ambiguous_zoned(local)
}

/// Which of two instants to take where a local time came twice.
#[derive(Debug, Clone, Copy, PartialEq, Eq, Structural)]
pub enum Disambiguation {
    Earlier,
    Later,
}

/// Calls `jiff::tz::AmbiguousZoned::disambiguate` with the strategy of the
/// same name. Nothing is claimed of the instant that comes back.
#[verifier::external_body]
fn jiff_disambiguate(ambiguous: jiff::tz::AmbiguousZoned, strategy: Disambiguation) -> (r: Option<
    jiff::Zoned,
>)
{
    let strategy = match strategy {
        Disambiguation::Earlier => jiff::tz::Disambiguation::Earlier,
        Disambiguation::Later => jiff::tz::Disambiguation::Later,
    };
    ambiguous.disambiguate(strategy).ok()
}

/// `chrono::NaiveDate`, which is carried through as it is: nothing is known of
/// what it holds.
#[verifier::external_type_specification]
#[verifier::external_body]
pub struct ExChronoNaiveDate(chrono::NaiveDate);

/// `chrono::NaiveTime`, which is carried through as it is: nothing is known of
/// what it holds.
#[verifier::external_type_specification]
#[verifier::external_body]
pub struct ExChronoNaiveTime(chrono::NaiveTime);

/// `chrono::NaiveDateTime`, which is carried through as it is: nothing is known of
/// what it holds.
#[verifier::external_type_specification]
#[verifier::external_body]
pub struct ExChronoNaiveDateTime(chrono::NaiveDateTime);

/// What a time zone makes of a local time.
#[derive(Debug, Clone, Copy, PartialEq, Eq)]
pub enum LocalTime<T> {
    /// The local time never came: the clocks were set forward over it.
    Skipped,
    /// The local time came once.
    Single(T),
    /// The local time came twice: the earlier instant, then the later one.
    Ambiguous(T, T),
}

/// Calls `chrono::NaiveDate::from_ymd_opt`. Its documentation says that it
/// gives no date where the day does not exist in the calendar or the year
/// is out of its range; the contract speaks of the years from 0 to 65535
/// only, which are all within that range.
#[verifier::external_body]
fn chrono_date(year: i32, month: u32, day: u32) -> (r: Option<chrono::NaiveDate>)
    requires
        0 <= year <= 0xffff,
    ensures
        r.is_some() == is_calendar_date(year as int, month as int, day as int),
{
    chrono::NaiveDate::from_ymd_opt(year, month, day)
}

/// Calls `chrono::NaiveTime::from_hms_opt`. Its documentation says that it
/// gives no time where the hour, the minute or the second is invalid, and
/// its examples show 23, 59 and 59 to be the last valid ones.
#[verifier::external_body]
fn chrono_time(hour: u32, minute: u32, second: u32) -> (r: Option<chrono::NaiveTime>)
    ensures
        r.is_some() == is_clock_time(hour as int, minute as int, second as int),
{
    chrono::NaiveTime::from_hms_opt(hour, minute, second)
}

/// Calls `chrono::NaiveDateTime::new`, which joins a date and a time.
#[verifier::external_body]
fn chrono_local(date: chrono::NaiveDate, time: chrono::NaiveTime) -> (r: chrono::NaiveDateTime) {
    chrono::NaiveDateTime::new(date, time)
}

/// The instant that a time stamp stands for, out of what its time zone
/// makes of the local time: where the local time came twice, the earlier
/// instant when the daylight saving flag `dst` is set, and the later one
/// when it is not.
pub open spec fn resolved<T>(local: LocalTime<T>, dst: bool) -> Option<T> {
    match local {
        LocalTime::Skipped => None,
        LocalTime::Single(at) => Some(at),
        LocalTime::Ambiguous(earlier, later) => Some(
            if dst {
                earlier
            } else {
                later
            },
        ),
    }
}

/// Picks the instant that a time stamp stands for: see [`resolved`].
pub fn resolve<T>(local: LocalTime<T>, dst: bool) -> (r: Option<T>)
    ensures
        r == resolved(local, dst),
{
    match local {
        LocalTime::Skipped => None,
        LocalTime::Single(at) => Some(at),
        LocalTime::Ambiguous(earlier, later) => Some(
            if dst {
                earlier
            } else {
                later
            },
        ),
    }
}

impl Tst {
    /// Whether the time stamp names a day of the calendar and a time of the
    /// clock.
    pub open spec fn is_calendar_time(self) -> bool {
        is_calendar_date(self.year as int, self.month as int, self.day as int) && is_clock_time(
            self.hour as int,
            self.minute as int,
            self.second as int,
        )
    }

    /// Which instant the time stamp stands for where its local time came
    /// twice: the earlier one when the daylight saving flag is set, and the
    /// later one when it is not.
    pub fn disambiguation(&self) -> (r: Disambiguation)
        ensures
            r == if self.dst {
                Disambiguation::Earlier
            } else {
                Disambiguation::Later
            },
    {
        if self.dst {
            Disambiguation::Earlier
        } else {
            Disambiguation::Later
        }
    }

    /// Convert current [Tst] to [jiff::Zoned] in the indicated timezone
    ///
    /// A time stamp that names no day of the calendar or no time of the
    /// clock, or a year after 9999, gives `None`. Where the local time comes
    /// twice in the time zone, the time zone is asked for the instant that
    /// [`disambiguation`](Tst::disambiguation) names.
    pub fn to_jiff(&self, timezone: &jiff::tz::TimeZone) -> (r: Option<jiff::Zoned>)
        ensures
            r.is_some() ==> self.is_calendar_time() && self.year <= 9999,
    {
        let year: i16 = if self.year > 0x7fff {
            0x7fff
        } else {
            self.year as i16
        };
        let local = match jiff_civil(
            year,
            saturate(self.month),
            saturate(self.day),
            saturate(self.hour),
            saturate(self.minute),
            saturate(self.second),
        ) {
            Some(local) => local,
            None => {
                return None;
            },
        };
        jiff_disambiguate(jiff_ambiguous(timezone, local), self.disambiguation())
    }

    /// The local time of the time stamp as `chrono` holds one, for a time
    /// zone to look up. A time stamp that names no day of the calendar or no
    /// time of the clock gives `None`.
    pub fn to_chrono_local(&self) -> (r: Option<chrono::NaiveDateTime>)
        ensures
            r.is_some() == self.is_calendar_time(),
    {
        let date = match chrono_date(self.year as i32, self.month as u32, self.day as u32) {
            Some(date) => date,
            None => {
                return None;
            },
        };
        let time = match chrono_time(self.hour as u32, self.minute as u32, self.second as u32) {
            Some(time) => time,
            None => {
                return None;
            },
        };
        Some(chrono_local(date, time))
    }
}

/// `value` as an `i8`, and the largest `i8` where it does not fit.
fn saturate(value: u8) -> (r: i8)
    ensures
        r == if value > 127 {
            127
        } else {
            value as int
        },
{
    if value > 127 {
        127
    } else {
        value as i8
    }
}

} // verus!
