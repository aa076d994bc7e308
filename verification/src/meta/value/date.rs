//! Calendar dates decoded from RFC 3339 timestamps.

use vstd::prelude::*;
use chrono::Datelike;

verus! {

/// What the date parser accepts, and the calendar day it reads:
/// `(year, month, day)`, a function of the input characters alone.
pub uninterp spec fn rfc3339_date(s: Seq<char>) -> Option<(int, int, int)>;

/// The calendar day of an RFC 3339 timestamp.
#[derive(Debug, Clone, Copy, PartialEq, Eq, Structural)]
pub struct DateIso8601 {
    pub year: i32,
    pub month: u8,
    pub day: u8,
}

impl DateIso8601 {
    /// Month and day stay within the calendar ranges.
    pub open spec fn wf(self) -> bool {
        1 <= self.month <= 12 && 1 <= self.day <= 31
    }
}

/// Relies on `chrono::DateTime::parse_from_rfc3339` and the `Datelike`
/// getters: the outcome and the calendar day depend on the input characters
/// alone, with the month in 1..=12 and the day in 1..=31.
#[verifier::external_body]
pub(crate) fn parse_rfc3339(s: &str) -> (r: Option<DateIso8601>)
    ensures
        (r is Some) == (rfc3339_date(s@) is Some),
        r matches Some(d) ==> rfc3339_date(s@) == Some(
            (d.year as int, d.month as int, d.day as int),
        ) && d.wf(),
{
    match chrono::DateTime::parse_from_rfc3339(s) {
        Ok(dt) => Some(DateIso8601 {
            year: dt.year(),
            month: dt.month() as u8,
            day: dt.day() as u8,
        }),
        Err(_) => None,
    }
}

impl DateIso8601 {
    /// Decode an RFC 3339 timestamp into its calendar day.
    pub fn from_str(s: &str) -> (r: Result<DateIso8601, crate::error::MetaError>)
        ensures
            (r is Ok) == (rfc3339_date(s@) is Some),
            r matches Ok(d) ==> rfc3339_date(s@) == Some(
                (d.year as int, d.month as int, d.day as int),
            ) && d.wf(),
            r matches Err(e) ==> e == crate::error::MetaError::DateParse,
    {
        match parse_rfc3339(s) {
            Some(d) => Ok(d),
            None => Err(crate::error::MetaError::DateParse),
        }
    }
}

} // verus!
