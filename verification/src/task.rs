//! Tasks and the in-memory task list.
//!
//! A task is a line of text together with a completion status. The task
//! list is an ordered `Vec<Task>`; in specifications it is abstracted to a
//! `Seq<TaskView>`, where a `TaskView` carries the status and the text as
//! a sequence of characters.

use vstd::prelude::*;

verus! {

/// Completion status of one task.
#[derive(Debug, Clone, Copy, PartialEq, Eq, Structural)]
pub enum Status {
    Todo,
    Done,
}

/// One task: a completion status and the task's text.
#[derive(Debug)]
pub struct Task {
    pub status: Status,
    pub info: String,
}

/// The mathematical abstraction of a task: the status together with the
/// text as a sequence of characters.
pub ghost struct TaskView {
    pub status: Status,
    pub info: Seq<char>,
}

impl View for Task {
    type V = TaskView;

    open spec fn view(&self) -> TaskView {
        TaskView { status: self.status, info: self.info@ }
    }
}

impl Clone for Task {
    /// Cloning a task keeps its status and its text.
    fn clone(&self) -> (r: Task)
        ensures
            r@ == self@,
    {
        Task { status: self.status, info: self.info.clone() }
    }
}

/// The abstraction of a whole task list, element by element.
pub open spec fn tasks_view(ts: Seq<Task>) -> Seq<TaskView> {
    Seq::new(ts.len(), |i: int| ts[i]@)
}

/// The glyph shown in front of a task: an empty or a checked box.
pub fn get_status_char(status: &Status) -> (r: &'static str)
    ensures
        *status is Todo ==> r@ == "\u{2610}"@,
        *status is Done ==> r@ == "\u{2611}"@,
{
    match status {
        Status::Todo => "\u{2610}",
        Status::Done => "\u{2611}",
    }
}

} // verus!
