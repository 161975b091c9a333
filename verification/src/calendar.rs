//! Calendar days and bookable instants.
//!
//! An [`AppointmentDay`] is a date of the proleptic Gregorian calendar, with
//! no time of day.  An [`AppointmentSlot`] is one minute of such a day on the
//! civil clock of Europe/Madrid, together with the instant that this civil
//! time names.

use vstd::prelude::*;
use vstd::string::StringExecFns;
use chrono::TimeZone;
use chrono::Timelike;
use crate::text::{four_digit_text, four_digits, two_digit_text, two_digits};

verus! {

/// The first year that a day can lie in.
pub const MIN_YEAR: i32 = -262143;

/// The last year that a day can lie in.
pub const MAX_YEAR: i32 = 262142;

/// Whether a year of the proleptic Gregorian calendar has a 29th of
/// February.
pub open spec fn is_leap_year(year: int) -> bool {
    year % 4 == 0 && (year % 100 != 0 || year % 400 == 0)
}

/// The number of days of a month.
pub open spec fn days_in_month(year: int, month: int) -> int {
    if month == 2 {
        if is_leap_year(year) {
            29
        } else {
            28
        }
    } else if month == 4 || month == 6 || month == 9 || month == 11 {
        30
    } else {
        31
    }
}

/// Whether a year, a month and a day of the month name a calendar date.
pub open spec fn valid_date(year: int, month: int, day: int) -> bool {
    &&& MIN_YEAR <= year <= MAX_YEAR
    &&& 1 <= month <= 12
    &&& 1 <= day <= days_in_month(year, month)
}

/// A calendar date as three numbers.
pub struct Date {
    pub year: int,
    pub month: int,
    pub day: int,
}

/// The year that a 32-bit unsigned number stands for when its bits are read
/// as a signed number.
pub open spec fn signed_year(year: u32) -> int {
    if year <= i32::MAX {
        year as int
    } else {
        year - 0x1_0000_0000
    }
}

/// How a year is written: in four digits from 0 to 9999, and otherwise with
/// its sign and at least four digits.
pub open spec fn year_text(year: int) -> Seq<char> {
    if 0 <= year <= 9999 {
        four_digits(year as nat)
    } else if year < 0 {
        seq!['-'] + four_digits((-year) as nat)
    } else {
        seq!['+'] + four_digits(year as nat)
    }
}

/// A date written as day, month and year with `/` between them, day and
/// month in two digits.
pub open spec fn day_month_year(date: Date) -> Seq<char> {
    two_digits(date.day as nat) + seq!['/'] + two_digits(date.month as nat) + seq!['/']
        + year_text(date.year)
}

/// A date written as year, month and day with `-` between them, month and
/// day in two digits.
pub open spec fn year_month_day(date: Date) -> Seq<char> {
    year_text(date.year) + seq!['-'] + two_digits(date.month as nat) + seq!['-'] + two_digits(
        date.day as nat,
    )
}

/// A calendar date on which an office may have openings.
#[derive(Debug, Clone, Copy, PartialEq, Eq, Structural)]
pub struct AppointmentDay {
    year: i32,
    month: u8,
    day: u8,
}

impl View for AppointmentDay {
    type V = Date;

    closed spec fn view(&self) -> Date {
        Date { year: self.year as int, month: self.month as int, day: self.day as int }
    }
}

impl DeepView for AppointmentDay {
    type V = Date;

    open spec fn deep_view(&self) -> Date {
        self@
    }
}

fn leap_year(year: i32) -> (leap: bool)
    requires
        MIN_YEAR <= year <= MAX_YEAR,
    ensures
        leap == is_leap_year(year as int),
{
    let shifted: u32 = (year + 400000) as u32;
    shifted % 4 == 0 && (shifted % 100 != 0 || shifted % 400 == 0)
}

fn month_length(year: i32, month: u8) -> (days: u8)
    requires
        MIN_YEAR <= year <= MAX_YEAR,
    ensures
        days == days_in_month(year as int, month as int),
{
    if month == 2 {
        if leap_year(year) {
            29
        } else {
            28
        }
    } else if month == 4 || month == 6 || month == 9 || month == 11 {
        30
    } else {
        31
    }
}

impl AppointmentDay {
    #[verifier::type_invariant]
    spec fn well_formed(self) -> bool {
        valid_date(self.year as int, self.month as int, self.day as int)
    }

    /// The day with the given year, month and day of the month, where these
    /// name a calendar date.
    pub fn from_ymd(year: i32, month: u8, day: u8) -> (date: Option<AppointmentDay>)
        ensures
            date is Some <==> valid_date(year as int, month as int, day as int),
            date matches Some(d) ==> d@ == (Date {
                year: year as int,
                month: month as int,
                day: day as int,
            }),
    {
        if year < MIN_YEAR || year > MAX_YEAR {
            return None;
        }
        if month < 1 || month > 12 {
            return None;
        }
        if day < 1 || day > month_length(year, month) {
            return None;
        }
        Some(AppointmentDay { year, month, day })
    }

    /// The year.
    pub fn year(&self) -> (year: i32)
        ensures
            year == self@.year,
            MIN_YEAR <= year <= MAX_YEAR,
    {
        proof {
            use_type_invariant(self);
        }
        self.year
    }

    /// The month, from 1 to 12.
    pub fn month(&self) -> (month: u8)
        ensures
            month == self@.month,
            1 <= month <= 12,
    {
        proof {
            use_type_invariant(self);
        }
        self.month
    }

    /// The day of the month, from 1 to the length of the month.
    pub fn day(&self) -> (day: u8)
        ensures
            day == self@.day,
            valid_date(self@.year, self@.month, self@.day),
    {
        proof {
            use_type_invariant(self);
        }
        self.day
    }

    fn year_text(&self) -> (text: String)
        ensures
            text@ == year_text(self@.year),
    {
        proof {
            use_type_invariant(self);
            reveal_strlit("-");
            reveal_strlit("+");
        }
        if self.year < 0 {
            let mut text = "-".to_owned();
            let digits = four_digit_text((-self.year) as u32);
            text.append(digits.as_str());
            assert(text@ =~= year_text(self@.year));
            text
        } else if self.year > 9999 {
            let mut text = "+".to_owned();
            let digits = four_digit_text(self.year as u32);
            text.append(digits.as_str());
            assert(text@ =~= year_text(self@.year));
            text
        } else {
            four_digit_text(self.year as u32)
        }
    }

    /// Writes the day as the service expects it in a query: `DD/MM/YYYY`.
    pub fn query_text(&self) -> (text: String)
        ensures
            text@ == day_month_year(self@),
    {
        proof {
            use_type_invariant(self);
            reveal_strlit("/");
        }
        let mut text = two_digit_text(self.day);
        text.append("/");
        let month = two_digit_text(self.month);
        text.append(month.as_str());
        text.append("/");
        let year = self.year_text();
        text.append(year.as_str());
        assert(text@ =~= day_month_year(self@));
        text
    }

    /// Writes the day in the ISO 8601 form `YYYY-MM-DD`.
    pub fn iso_text(&self) -> (text: String)
        ensures
            text@ == year_month_day(self@),
    {
        proof {
            use_type_invariant(self);
            reveal_strlit("-");
        }
        let mut text = self.year_text();
        text.append("-");
        let month = two_digit_text(self.month);
        text.append(month.as_str());
        text.append("-");
        let day = two_digit_text(self.day);
        text.append(day.as_str());
        assert(text@ =~= year_month_day(self@));
        text
    }
}

/// The hour and the minute that `chrono::NaiveTime::parse_from_str` reads
/// from a text with the format `%H:%M`, or `None` where it rejects the text.
pub uninterp spec fn clock_time(text: Seq<char>) -> Option<(u8, u8)>;

/// The instant, in seconds since the Unix epoch, at which the clocks of
/// Europe/Madrid show the given civil time, as `chrono_tz` resolves it;
/// `None` where no instant or more than one shows that time.
pub uninterp spec fn madrid_instant(year: int, month: int, day: int, hour: int, minute: int)
    -> Option<i64>;

/// Reads a time of day with `chrono::NaiveTime::parse_from_str` and the
/// format `%H:%M`, and hands out its hour and its minute.  The result is the
/// time named [`clock_time`].
#[verifier::external_body]
pub(crate) fn parse_clock_time(text: &str) -> (time: Option<(u8, u8)>)
    ensures
        time == clock_time(text@),
{
    let time = chrono::NaiveTime::parse_from_str(text, "%H:%M").ok()?;
    Some((time.hour() as u8, time.minute() as u8))
}

/// Resolves a civil time in Europe/Madrid with
/// `chrono_tz::Tz::from_local_datetime`, and gives the instant's Unix
/// timestamp where exactly one instant shows that time.  The result is the
/// instant named [`madrid_instant`].
#[verifier::external_body]
pub(crate) fn madrid_timestamp(day: &AppointmentDay, hour: u8, minute: u8) -> (instant: Option<i64>)
    ensures
        instant == madrid_instant(day@.year, day@.month, day@.day, hour as int, minute as int),
{
    let date = chrono::NaiveDate::from_ymd_opt(day.year, day.month as u32, day.day as u32)?;
    let local = date.and_hms_opt(hour as u32, minute as u32, 0)?;
    chrono_tz::Europe::Madrid.from_local_datetime(&local).single().map(|t| t.timestamp())
}

/// One bookable minute as three readings of the same moment.
pub struct Instant {
    pub date: Date,
    pub hour: int,
    pub minute: int,
    pub timestamp: int,
}

/// A bookable instant: a minute of a day on the civil clock of Europe/Madrid,
/// and the Unix timestamp of that moment.
#[derive(Debug, Clone, Copy, PartialEq, Eq, Structural)]
pub struct AppointmentSlot {
    day: AppointmentDay,
    hour: u8,
    minute: u8,
    timestamp: i64,
}

impl View for AppointmentSlot {
    type V = Instant;

    closed spec fn view(&self) -> Instant {
        Instant {
            date: self.day@,
            hour: self.hour as int,
            minute: self.minute as int,
            timestamp: self.timestamp as int,
        }
    }
}

impl DeepView for AppointmentSlot {
    type V = Instant;

    open spec fn deep_view(&self) -> Instant {
        self@
    }
}

/// The instant at a civil time of a day, where the clocks of Europe/Madrid
/// show that time exactly once.
pub open spec fn instant_at(date: Date, hour: int, minute: int) -> Option<Instant> {
    if 0 <= hour < 24 && 0 <= minute < 60 {
        match madrid_instant(date.year, date.month, date.day, hour, minute) {
            Some(timestamp) => Some(Instant { date, hour, minute, timestamp: timestamp as int }),
            None => None,
        }
    } else {
        None
    }
}

impl AppointmentSlot {
    #[verifier::type_invariant]
    spec fn well_formed(self) -> bool {
        instant_at(self.day@, self.hour as int, self.minute as int) == Some(self@)
    }

    /// The slot at a civil time of a day, where the clocks of Europe/Madrid
    /// show that time exactly once.
    pub fn at(day: AppointmentDay, hour: u8, minute: u8) -> (slot: Option<AppointmentSlot>)
        ensures
            slot.deep_view() == instant_at(day@, hour as int, minute as int),
    {
        if hour >= 24 || minute >= 60 {
            return None;
        }
        match madrid_timestamp(&day, hour, minute) {
            Some(timestamp) => Some(AppointmentSlot { day, hour, minute, timestamp }),
            None => None,
        }
    }

    /// The civil day of the slot in Europe/Madrid.
    pub fn day(&self) -> (day: AppointmentDay)
        ensures
            day@ == self@.date,
    {
        self.day
    }

    /// The hour on the civil clock of Europe/Madrid.
    pub fn hour(&self) -> (hour: u8)
        ensures
            hour == self@.hour,
    {
        self.hour
    }

    /// The minute on the civil clock of Europe/Madrid.
    pub fn minute(&self) -> (minute: u8)
        ensures
            minute == self@.minute,
    {
        self.minute
    }

    /// The seconds from the Unix epoch to the slot: the instant that the
    /// slot's civil time names in Europe/Madrid.
    pub fn timestamp(&self) -> (timestamp: i64)
        ensures
            timestamp == self@.timestamp,
            instant_at(self@.date, self@.hour, self@.minute) == Some(self@),
    {
        proof {
            use_type_invariant(self);
        }
        self.timestamp
    }

}

} // verus!
