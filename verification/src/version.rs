//! Device information: version names and the build date of the firmware.

use vstd::prelude::*;
use chrono::NaiveDate;
use crate::error::ScannerError;
use crate::text::{push_upper_hex, upper_hex};

verus! {

/// The year that the device counts the years of its build date from.
pub const BUILD_YEAR_BASE: u16 = 2000;

/// The name of the version that a version register holds.
pub open spec fn version_text(byte: u8) -> Seq<char> {
    if byte == 0x64 {
        "V1.00"@
    } else if byte == 0x6e {
        "V1.10"@
    } else if byte == 0x78 {
        "V1.20"@
    } else if byte == 0x82 {
        "V1.30"@
    } else if byte == 0x8c {
        "V1.40"@
    } else {
        "unknown "@ + upper_hex(byte)
    }
}

/// Names the version that a version register holds: `V1.00` to `V1.40` for
/// the known values, `unknown` and the value in hexadecimal for any other.
pub fn version_name(byte: u8) -> (name: String)
    ensures
        name@ == version_text(byte),
{
    if byte == 0x64 {
        "V1.00".to_owned()
    } else if byte == 0x6e {
        "V1.10".to_owned()
    } else if byte == 0x78 {
        "V1.20".to_owned()
    } else if byte == 0x82 {
        "V1.30".to_owned()
    } else if byte == 0x8c {
        "V1.40".to_owned()
    } else {
        let mut name = "unknown ".to_owned();
        push_upper_hex(&mut name, byte);
        name
    }
}

/// Whether a year has 366 days in the Gregorian calendar.
pub open spec fn is_leap_year(year: int) -> bool {
    year % 4 == 0 && (year % 100 != 0 || year % 400 == 0)
}

/// The number of days of a month of the Gregorian calendar.
pub open spec fn days_in_month(year: int, month: int) -> int
    recommends
        1 <= month <= 12,
{
    if month == 2 {
        if is_leap_year(year) {
            29
        } else {
            28
        }
    } else if month == 4 || month == 6 || month == 9 || month == 11 {
        30
    } else {
        31
    }
}

/// Whether year, month and day name a day of the Gregorian calendar.
pub open spec fn is_calendar_date(year: int, month: int, day: int) -> bool {
    1 <= month <= 12 && 1 <= day <= days_in_month(year, month)
}

/// Asks `chrono::NaiveDate::from_ymd_opt` whether it makes a date of year,
/// month and day.
///
/// Trusted: for the years from 1 to 9999, all of which the type can hold, it
/// makes one exactly when the month is one of the twelve and the day exists
/// in that month of that year.
#[verifier::external_body]
fn date_exists(year: i32, month: u32, day: u32) -> (exists: bool)
    requires
        1 <= year <= 9999,
    ensures
        exists == is_calendar_date(year as int, month as int, day as int),
{
    NaiveDate::from_ymd_opt(year, month, day).is_some()
}

/// The day on which the firmware of the device was built.
#[derive(Clone, Copy, Debug, PartialEq, Eq, Structural)]
pub struct SoftwareDate {
    pub year: u16,
    pub month: u8,
    pub day: u8,
}

impl SoftwareDate {
    /// Whether the value names a day of the calendar. The dates that this
    /// library hands out do.
    pub open spec fn is_valid(self) -> bool {
        is_calendar_date(self.year as int, self.month as int, self.day as int)
    }

    /// The date that the three build date registers tell: the years since
    /// 2000, the month and the day; a failure where these name no day of the
    /// calendar.
    pub open spec fn reported(year: u8, month: u8, day: u8) -> Result<SoftwareDate, ScannerError> {
        let date = SoftwareDate { year: (BUILD_YEAR_BASE + year) as u16, month, day };
        if date.is_valid() {
            Ok(date)
        } else {
            Err(ScannerError::InvalidDate { year: date.year, month, day })
        }
    }

    /// Makes the date that the device reports in its three build date
    /// registers. Fails where they name no day of the calendar.
    pub fn from_registers(year: u8, month: u8, day: u8) -> (date: Result<SoftwareDate, ScannerError>)
        ensures
            date == Self::reported(year, month, day),
            date is Ok ==> date->Ok_0.is_valid(),
            date is Ok <==> is_calendar_date(BUILD_YEAR_BASE + year, month as int, day as int),
    {
        let full_year: u16 = BUILD_YEAR_BASE + year as u16;
        if date_exists(full_year as i32, month as u32, day as u32) {
            Ok(SoftwareDate { year: full_year, month, day })
        } else {
            Err(ScannerError::InvalidDate { year: full_year, month, day })
        }
    }
}

} // verus!
