//! Points in time, as `chrono` reads them.
//!
//! The server writes its timestamps as text. Reading them is left to
//! `chrono`; what it read is kept as plain numbers, and the two short forms
//! in which a task card shows a point in time are written from those.

use crate::text::{decimal, u64_to_decimal};
use vstd::prelude::*;
use vstd::string::*;

verus! {

/// A point in time in UTC, by the fields of its date and its time of day.
#[derive(Clone, Copy, Debug, PartialEq, Eq, Structural)]
pub struct Timestamp {
    pub year: i32,
    pub month: u32,
    pub day: u32,
    pub hour: u32,
    pub minute: u32,
    pub second: u32,
    pub nanosecond: u32,
}

/// The point in time that `chrono` reads from a text under a format, taken
/// as UTC; `None` where the text does not fit the format or names no valid
/// point in time.
pub uninterp spec fn utc_datetime_from_str(text: Seq<char>, format: Seq<char>) -> Option<
    Timestamp,
>;

/// Calls `TimeZone::datetime_from_str` on `Utc`, and takes the fields of
/// what it read with the getters of `Datelike` and `Timelike`; an error
/// gives `None`. Trusted: the result depends on the text and the format
/// alone.
#[verifier::external_body]
#[allow(deprecated)]
pub(crate) fn datetime_from_str(text: &str, format: &str) -> (r: Option<Timestamp>)
    ensures
        r == utc_datetime_from_str(text@, format@),
{
    let at = chrono::TimeZone::datetime_from_str(&chrono::Utc, text, format).ok()?;
    Some(
        Timestamp {
            year: chrono::Datelike::year(&at),
            month: chrono::Datelike::month(&at),
            day: chrono::Datelike::day(&at),
            hour: chrono::Timelike::hour(&at),
            minute: chrono::Timelike::minute(&at),
            second: chrono::Timelike::second(&at),
            nanosecond: chrono::Timelike::nanosecond(&at),
        },
    )
}

/// Calls `Local::now` and displays it. The text depends on the clock and on
/// the time zone of the machine, so nothing is promised of it.
#[verifier::external_body]
pub(crate) fn local_now() -> String {
    chrono::Local::now().to_string()
}

/// A number in at least two decimal digits: a number below ten gets a
/// leading zero.
pub open spec fn two_digits(n: nat) -> Seq<char> {
    if n < 10 {
        seq!['0'] + decimal(n as int)
    } else {
        decimal(n as int)
    }
}

impl Timestamp {
    /// The year within its century, from 0 to 99.
    pub open spec fn short_year(self) -> nat {
        (self.year as int % 100) as nat
    }

    /// The time of day as hours and minutes, each in two digits, with a
    /// colon between them.
    pub open spec fn clock_text(self) -> Seq<char> {
        two_digits(self.hour as nat) + seq![':'] + two_digits(self.minute as nat)
    }

    /// The date as day, month and year within the century, each in two
    /// digits, with slashes between them.
    pub open spec fn date_text(self) -> Seq<char> {
        two_digits(self.day as nat) + seq!['/'] + two_digits(self.month as nat) + seq!['/']
            + two_digits(self.short_year())
    }

    /// Writes the time of day as hours and minutes.
    pub fn clock(&self) -> (r: String)
        ensures
            r@ == self.clock_text(),
    {
        proof {
            reveal_strlit(":");
            assert(":"@ =~= seq![':']);
        }
        let mut r = write_two_digits(self.hour as u64);
        r.append(":");
        r.append(write_two_digits(self.minute as u64).as_str());
        r
    }

    /// Writes the date as day, month and year within the century.
    pub fn date(&self) -> (r: String)
        ensures
            r@ == self.date_text(),
    {
        proof {
            reveal_strlit("/");
            assert("/"@ =~= seq!['/']);
        }
        let short_year: u64 = if self.year >= 0 {
            (self.year as u64) % 100
        } else {
            let below: u64 = ((-(self.year as i64)) as u64) % 100;
            if below == 0 {
                0
            } else {
                100 - below
            }
        };
        let mut r = write_two_digits(self.day as u64);
        r.append("/");
        r.append(write_two_digits(self.month as u64).as_str());
        r.append("/");
        r.append(write_two_digits(short_year).as_str());
        r
    }
}

fn write_two_digits(n: u64) -> (r: String)
    ensures
        r@ == two_digits(n as nat),
{
    if n < 10 {
        proof {
            reveal_strlit("0");
            assert("0"@ =~= seq!['0']);
        }
        let mut r = String::from_str("0");
        r.append(u64_to_decimal(n).as_str());
        r
    } else {
        u64_to_decimal(n)
    }
}

} // verus!
