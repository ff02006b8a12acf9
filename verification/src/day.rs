//! Days of the week.
//!
//! The library models a calendar date by the only part of it the logic
//! reads: its weekday. The current weekday comes from the system clock
//! through a single trusted call into chrono.

use vstd::prelude::*;

verus! {

/// A day of the week.
#[derive(Debug, Clone, Copy, PartialEq, Eq, Structural)]
pub enum Weekday {
    Mon,
    Tue,
    Wed,
    Thu,
    Fri,
    Sat,
    Sun,
}

/// Relies on `chrono::Local::now` and `chrono::Datelike::weekday` for the
/// weekday of the current local date. The result depends on the clock and
/// the time zone, so nothing is promised of it: every day of the week is a
/// possible outcome.
#[verifier::external_body]
pub fn current_weekday() -> Weekday {
    match chrono::Datelike::weekday(&chrono::Local::now()) {
        chrono::Weekday::Mon => Weekday::Mon,
        chrono::Weekday::Tue => Weekday::Tue,
        chrono::Weekday::Wed => Weekday::Wed,
        chrono::Weekday::Thu => Weekday::Thu,
        chrono::Weekday::Fri => Weekday::Fri,
        chrono::Weekday::Sat => Weekday::Sat,
        chrono::Weekday::Sun => Weekday::Sun,
    }
}

} // verus!
