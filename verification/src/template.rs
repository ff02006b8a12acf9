//! The per-weekday task template.
//!
//! The template maps each weekday to an optional entry: the recurring task
//! texts for that day and a short label for the day. It is loaded once at
//! start; when no template file exists, a built-in default is used (and
//! written out by the caller).

use vstd::prelude::*;
use crate::day::Weekday;

verus! {

/// The template entry of one weekday: its recurring task texts, in order,
/// and a label describing the day.
#[derive(Debug)]
pub struct WeekdayTask {
    pub tasks: Vec<String>,
    pub day_info: String,
}

/// The task texts of a template entry, as sequences of characters.
pub open spec fn texts_view(ts: Seq<String>) -> Seq<Seq<char>> {
    Seq::new(ts.len(), |i: int| ts[i]@)
}

/// The whole weekly template: at most one entry per weekday.
#[derive(Debug)]
pub struct WeekdayTasks {
    pub mon: Option<WeekdayTask>,
    pub tue: Option<WeekdayTask>,
    pub wed: Option<WeekdayTask>,
    pub thu: Option<WeekdayTask>,
    pub fri: Option<WeekdayTask>,
    pub sat: Option<WeekdayTask>,
    pub sun: Option<WeekdayTask>,
}

impl WeekdayTasks {
    /// The entry of the given weekday, as a specification.
    pub open spec fn spec_day(self, day: Weekday) -> Option<WeekdayTask> {
        match day {
            Weekday::Mon => self.mon,
            Weekday::Tue => self.tue,
            Weekday::Wed => self.wed,
            Weekday::Thu => self.thu,
            Weekday::Fri => self.fri,
            Weekday::Sat => self.sat,
            Weekday::Sun => self.sun,
        }
    }

    /// The entry of the given weekday, or `None` where the template has
    /// none.
    pub fn day(&self, day: Weekday) -> (r: &Option<WeekdayTask>)
        ensures
            *r == self.spec_day(day),
    {
        match day {
            Weekday::Mon => &self.mon,
            Weekday::Tue => &self.tue,
            Weekday::Wed => &self.wed,
            Weekday::Thu => &self.thu,
            Weekday::Fri => &self.fri,
            Weekday::Sat => &self.sat,
            Weekday::Sun => &self.sun,
        }
    }
}

impl Default for WeekdayTasks {
    /// The built-in template: Monday is a business day with a mail check,
    /// Friday wraps the week up with a mail cleanup; the other days have
    /// no entry.
    fn default() -> (t: WeekdayTasks)
        ensures
            t.mon is Some,
            texts_view(t.mon.unwrap().tasks@) =~= seq!["check mail"@],
            t.mon.unwrap().day_info@ == "business day"@,
            t.fri is Some,
            texts_view(t.fri.unwrap().tasks@) =~= seq!["cleanup mail"@],
            t.fri.unwrap().day_info@ == "wrap up day"@,
            t.tue is None,
            t.wed is None,
            t.thu is None,
            t.sat is None,
            t.sun is None,
    {
        let mut mon_tasks: Vec<String> = Vec::new();
        mon_tasks.push(String::from_str("check mail"));
        let mut fri_tasks: Vec<String> = Vec::new();
        fri_tasks.push(String::from_str("cleanup mail"));
        WeekdayTasks {
            mon: Some(WeekdayTask {
                tasks: mon_tasks,
                day_info: String::from_str("business day"),
            }),
            tue: None,
            wed: None,
            thu: None,
            fri: Some(WeekdayTask {
                tasks: fri_tasks,
                day_info: String::from_str("wrap up day"),
            }),
            sat: None,
            sun: None,
        }
    }
}

} // verus!
