//! The keyboard-driven session state machine.
//!
//! The session is in one of two modes. In `Navigate` the keys move the
//! selection (`j` down, `k` up, wrapping around), mark the selected task
//! (`l` done, `h` todo), delete it (`x`), open the compose box (`i`) or
//! quit (`q`). In `Compose` the user types the text of a new task:
//! printable characters extend the draft, backspace shortens it, enter
//! appends the draft as a new `Todo` task, and escape discards it.
//! Unrecognized keys are ignored in both modes, and a `Tick` never
//! changes the state.
//!
//! The whole machine is given as a specification-level transition
//! function `step`; the executable handler is proved to follow it step
//! for step.

use vstd::prelude::*;
use crate::events::Event;
use crate::task::Status;
use crate::task::Task;
use crate::task::TaskView;
use crate::task::tasks_view;

verus! {

/// A key press, as the state machine reads it. Keys the machine never
/// reacts to arrive as `Other`.
#[derive(Debug, Clone, Copy, PartialEq, Eq, Structural)]
pub enum Key {
    Char(char),
    Esc,
    Enter,
    Backspace,
    Other,
}

/// The interaction mode. The draft text of a new task exists only while
/// composing: leaving `Compose` discards or consumes it.
#[derive(Debug)]
pub enum Mode {
    Navigate,
    Compose(String),
}

/// The session: the interaction mode and the index of the selected task.
#[derive(Debug)]
pub struct Session {
    pub mode: Mode,
    pub selected: usize,
}

/// The mode as specifications see it: the draft as a character sequence.
pub ghost enum ModeView {
    Navigate,
    Compose(Seq<char>),
}

/// The whole machine as specifications see it: mode, selection and task
/// list together.
pub ghost struct MachineView {
    pub mode: ModeView,
    pub selected: int,
    pub tasks: Seq<TaskView>,
}

impl MachineView {
    /// The selection is clamped to the list: inside it while the list is
    /// non-empty, pinned to zero once it is empty.
    pub open spec fn wf(self) -> bool {
        if self.tasks.len() == 0 {
            self.selected == 0
        } else {
            0 <= self.selected < self.tasks.len()
        }
    }
}

/// The list after the selected task's status is set; the empty list is
/// left alone.
pub open spec fn set_status_spec(tasks: Seq<TaskView>, sel: int, status: Status) -> Seq<
    TaskView,
> {
    if tasks.len() == 0 {
        tasks
    } else {
        tasks.update(sel, TaskView { status, info: tasks[sel].info })
    }
}

/// The selection after a task was deleted from a list now `len` long.
pub open spec fn clamp_spec(sel: int, len: int) -> int {
    if sel < len {
        sel
    } else if len > 0 {
        len - 1
    } else {
        0
    }
}

/// One transition in `Navigate` mode.
pub open spec fn step_navigate(m: MachineView, key: Key) -> (MachineView, bool) {
    let len = m.tasks.len() as int;
    match key {
        Key::Char(c) => if c == 'j' {
            (
                MachineView {
                    selected: if len == 0 {
                        0
                    } else if m.selected + 1 < len {
                        m.selected + 1
                    } else {
                        0
                    },
                    ..m
                },
                false,
            )
        } else if c == 'k' {
            (
                MachineView {
                    selected: if len == 0 {
                        0
                    } else if m.selected > 0 {
                        m.selected - 1
                    } else {
                        len - 1
                    },
                    ..m
                },
                false,
            )
        } else if c == 'l' {
            (MachineView { tasks: set_status_spec(m.tasks, m.selected, Status::Done), ..m }, false)
        } else if c == 'h' {
            (MachineView { tasks: set_status_spec(m.tasks, m.selected, Status::Todo), ..m }, false)
        } else if c == 'i' {
            (MachineView { mode: ModeView::Compose(Seq::empty()), ..m }, false)
        } else if c == 'x' {
            if len == 0 {
                (m, false)
            } else {
                (
                    MachineView {
                        tasks: m.tasks.remove(m.selected),
                        selected: clamp_spec(m.selected, len - 1),
                        ..m
                    },
                    false,
                )
            }
        } else if c == 'q' {
            (m, true)
        } else {
            (m, false)
        },
        _ => (m, false),
    }
}

/// One transition in `Compose` mode, `draft` being the current draft.
pub open spec fn step_compose(m: MachineView, draft: Seq<char>, key: Key) -> (MachineView, bool) {
    match key {
        Key::Esc => (MachineView { mode: ModeView::Navigate, ..m }, false),
        Key::Enter => (
            MachineView {
                mode: ModeView::Navigate,
                tasks: m.tasks.push(TaskView { status: Status::Todo, info: draft }),
                ..m
            },
            false,
        ),
        Key::Backspace => (
            MachineView {
                mode: ModeView::Compose(
                    if draft.len() == 0 {
                        draft
                    } else {
                        draft.drop_last()
                    },
                ),
                ..m
            },
            false,
        ),
        Key::Char(c) => (MachineView { mode: ModeView::Compose(draft.push(c)), ..m }, false),
        Key::Other => (m, false),
    }
}

/// One transition of the machine on a key press: the next state, and
/// whether the quit command fired.
pub open spec fn step(m: MachineView, key: Key) -> (MachineView, bool) {
    match m.mode {
        ModeView::Navigate => step_navigate(m, key),
        ModeView::Compose(draft) => step_compose(m, draft, key),
    }
}

/// One transition of the machine on any event: a tick changes nothing
/// and only prompts a redraw.
pub open spec fn step_event(m: MachineView, event: Event<Key>) -> (MachineView, bool) {
    match event {
        Event::Input(k) => step(m, k),
        Event::Tick => (m, false),
    }
}

/// Relies on `String::push`: appends the character to the end of the
/// string.
#[verifier::external_body]
fn string_push(s: &mut String, c: char)
    ensures
        final(s)@ == old(s)@.push(c),
{
    s.push(c);
}

/// Relies on `String::pop`: removes and returns the last character, or
/// returns `None` and leaves the string as it is when it is empty.
#[verifier::external_body]
fn string_pop(s: &mut String) -> (r: Option<char>)
    ensures
        old(s)@.len() == 0 ==> final(s)@ == old(s)@ && r is None,
        old(s)@.len() > 0 ==> final(s)@ == old(s)@.drop_last() && r == Some(old(s)@.last()),
{
    s.pop()
}

impl Session {
    /// The machine view of this session over a given task list.
    pub open spec fn view_with(self, tasks: Seq<TaskView>) -> MachineView {
        MachineView {
            mode: match self.mode {
                Mode::Navigate => ModeView::Navigate,
                Mode::Compose(d) => ModeView::Compose(d@),
            },
            selected: self.selected as int,
            tasks,
        }
    }

    /// A fresh session: navigating, first task selected.
    pub fn new() -> (s: Session)
        ensures
            s.mode is Navigate,
            s.selected == 0,
    {
        Session { mode: Mode::Navigate, selected: 0 }
    }

    /// React to one key press: exactly one `step` of the machine. The
    /// returned flag is true exactly when the quit command fired; the
    /// caller then saves and leaves.
    pub fn handle_key(&mut self, tasks: &mut Vec<Task>, key: Key) -> (quit: bool)
        requires
            old(self).view_with(tasks_view(old(tasks)@)).wf(),
        ensures
            ({
                let m0 = old(self).view_with(tasks_view(old(tasks)@));
                let m1 = final(self).view_with(tasks_view(final(tasks)@));
                &&& m1 == step(m0, key).0
                &&& quit == step(m0, key).1
                &&& m1.wf()
            }),
    {
        let ghost m0 = old(self).view_with(tasks_view(old(tasks)@));
        let in_compose = match &self.mode {
            Mode::Navigate => false,
            Mode::Compose(_) => true,
        };
        if !in_compose {
            match key {
                Key::Char(c) => {
                    if c == 'j' {
                        if tasks.len() > 0 {
                            if self.selected + 1 < tasks.len() {
                                self.selected = self.selected + 1;
                            } else {
                                self.selected = 0;
                            }
                        }
                        false
                    } else if c == 'k' {
                        if tasks.len() > 0 {
                            if self.selected > 0 {
                                self.selected = self.selected - 1;
                            } else {
                                self.selected = tasks.len() - 1;
                            }
                        }
                        false
                    } else if c == 'l' {
                        if tasks.len() > 0 {
                            let i = self.selected;
                            let t = &mut tasks[i];
                            t.status = Status::Done;
                            proof {
                                assert(tasks_view(tasks@) =~= set_status_spec(
                                    m0.tasks,
                                    m0.selected,
                                    Status::Done,
                                ));
                            }
                        }
                        false
                    } else if c == 'h' {
                        if tasks.len() > 0 {
                            let i = self.selected;
                            let t = &mut tasks[i];
                            t.status = Status::Todo;
                            proof {
                                assert(tasks_view(tasks@) =~= set_status_spec(
                                    m0.tasks,
                                    m0.selected,
                                    Status::Todo,
                                ));
                            }
                        }
                        false
                    } else if c == 'i' {
                        self.mode = Mode::Compose(String::new());
                        false
                    } else if c == 'x' {
                        if tasks.len() > 0 {
                            let i = self.selected;
                            tasks.remove(i);
                            proof {
                                assert(tasks_view(tasks@) =~= m0.tasks.remove(m0.selected));
                            }
                            if self.selected >= tasks.len() {
                                self.selected = if tasks.len() > 0 {
                                    tasks.len() - 1
                                } else {
                                    0
                                };
                            }
                        }
                        false
                    } else if c == 'q' {
                        true
                    } else {
                        false
                    }
                },
                _ => false,
            }
        } else {
            match key {
                Key::Esc => {
                    self.mode = Mode::Navigate;
                    false
                },
                Key::Enter => {
                    let mut taken = Mode::Navigate;
                    core::mem::swap(&mut self.mode, &mut taken);
                    match taken {
                        Mode::Compose(draft) => {
                            tasks.push(Task { status: Status::Todo, info: draft });
                            proof {
                                assert(tasks_view(tasks@) =~= step(m0, key).0.tasks);
                            }
                        },
                        Mode::Navigate => {},
                    }
                    false
                },
                Key::Backspace => {
                    match &mut self.mode {
                        Mode::Compose(draft) => {
                            string_pop(draft);
                        },
                        Mode::Navigate => {},
                    }
                    false
                },
                Key::Char(c) => {
                    match &mut self.mode {
                        Mode::Compose(draft) => {
                            string_push(draft, c);
                        },
                        Mode::Navigate => {},
                    }
                    false
                },
                Key::Other => false,
            }
        }
    }

    /// React to one event: a key press steps the machine, a tick leaves
    /// it untouched.
    pub fn handle_event(&mut self, tasks: &mut Vec<Task>, event: Event<Key>) -> (quit: bool)
        requires
            old(self).view_with(tasks_view(old(tasks)@)).wf(),
        ensures
            ({
                let m0 = old(self).view_with(tasks_view(old(tasks)@));
                let m1 = final(self).view_with(tasks_view(final(tasks)@));
                &&& m1 == step_event(m0, event).0
                &&& quit == step_event(m0, event).1
                &&& m1.wf()
            }),
    {
        match event {
            Event::Input(k) => self.handle_key(tasks, k),
            Event::Tick => false,
        }
    }
}

/// Law: every step keeps the selection clamped to the list.
pub proof fn lemma_step_preserves_wf(m: MachineView, key: Key)
    requires
        m.wf(),
    ensures
        step(m, key).0.wf(),
{
}

/// The machine after `n` presses of the same key.
pub open spec fn step_n(m: MachineView, key: Key, n: nat) -> MachineView
    decreases n,
{
    if n == 0 {
        m
    } else {
        step_n(step(m, key).0, key, (n - 1) as nat)
    }
}

proof fn lemma_move_down_progress(m: MachineView, n: nat)
    requires
        m.wf(),
        m.mode is Navigate,
        m.tasks.len() > 0,
        n <= m.tasks.len(),
    ensures
        step_n(m, Key::Char('j'), n) == (MachineView {
            selected: if m.selected + n < m.tasks.len() {
                m.selected + n
            } else {
                m.selected + n - m.tasks.len()
            },
            ..m
        }),
    decreases n,
{
    if n == 0 {
        assert((MachineView { selected: m.selected, ..m }) == m);
    } else {
        let m1 = step(m, Key::Char('j')).0;
        lemma_move_down_progress(m1, (n - 1) as nat);
    }
}

proof fn lemma_move_up_progress(m: MachineView, n: nat)
    requires
        m.wf(),
        m.mode is Navigate,
        m.tasks.len() > 0,
        n <= m.tasks.len(),
    ensures
        step_n(m, Key::Char('k'), n) == (MachineView {
            selected: if m.selected - n >= 0 {
                m.selected - n
            } else {
                m.selected - n + m.tasks.len()
            },
            ..m
        }),
    decreases n,
{
    if n == 0 {
        assert((MachineView { selected: m.selected, ..m }) == m);
    } else {
        let m1 = step(m, Key::Char('k')).0;
        lemma_move_up_progress(m1, (n - 1) as nat);
    }
}

/// Law: from any start, as many consecutive move-down presses as the
/// list has tasks lead back to the start; the list and the mode never
/// change on the way.
pub proof fn lemma_move_down_wraparound(m: MachineView)
    requires
        m.wf(),
        m.mode is Navigate,
        m.tasks.len() > 0,
    ensures
        step_n(m, Key::Char('j'), m.tasks.len() as nat) == m,
{
    lemma_move_down_progress(m, m.tasks.len() as nat);
    assert((MachineView { selected: m.selected, ..m }) == m);
}

/// Law: the same wraparound holds for move-up.
pub proof fn lemma_move_up_wraparound(m: MachineView)
    requires
        m.wf(),
        m.mode is Navigate,
        m.tasks.len() > 0,
    ensures
        step_n(m, Key::Char('k'), m.tasks.len() as nat) == m,
{
    lemma_move_up_progress(m, m.tasks.len() as nat);
    assert((MachineView { selected: m.selected, ..m }) == m);
}

/// Law: deleting the selected last task moves the selection to the last
/// index of the shorter list, or to zero when the list becomes empty —
/// and the selection stays clamped either way.
pub proof fn lemma_delete_clamps_selection(m: MachineView)
    requires
        m.wf(),
        m.mode is Navigate,
        m.tasks.len() > 0,
        m.selected == m.tasks.len() - 1,
    ensures
        ({
            let m2 = step(m, Key::Char('x')).0;
            &&& m2.tasks == m.tasks.remove(m.selected)
            &&& m2.tasks.len() == m.tasks.len() - 1
            &&& (m2.tasks.len() > 0 ==> m2.selected == m2.tasks.len() - 1)
            &&& (m2.tasks.len() == 0 ==> m2.selected == 0)
            &&& m2.wf()
        }),
{
}

/// The machine after the characters of `cs` are typed, one key press
/// each, in order.
pub open spec fn type_chars(m: MachineView, cs: Seq<char>) -> MachineView
    decreases cs.len(),
{
    if cs.len() == 0 {
        m
    } else {
        type_chars(step(m, Key::Char(cs[0])).0, cs.drop_first())
    }
}

proof fn lemma_type_chars_compose(m: MachineView, draft: Seq<char>, cs: Seq<char>)
    requires
        m.mode == ModeView::Compose(draft),
    ensures
        type_chars(m, cs) == (MachineView { mode: ModeView::Compose(draft + cs), ..m }),
    decreases cs.len(),
{
    if cs.len() == 0 {
        assert(draft + cs =~= draft);
        assert((MachineView { mode: m.mode, ..m }) == m);
    } else {
        let m1 = step(m, Key::Char(cs[0])).0;
        lemma_type_chars_compose(m1, draft.push(cs[0]), cs.drop_first());
        assert(draft.push(cs[0]) + cs.drop_first() =~= draft + cs);
    }
}

/// Law: entering compose, typing any text and confirming appends exactly
/// one new `Todo` task holding that text, returns to `Navigate` with the
/// draft gone, and moves nothing else.
pub proof fn lemma_compose_round_trip(m: MachineView, cs: Seq<char>)
    requires
        m.wf(),
        m.mode is Navigate,
    ensures
        ({
            let entered = step(m, Key::Char('i')).0;
            let confirmed = step(type_chars(entered, cs), Key::Enter).0;
            confirmed == (MachineView {
                tasks: m.tasks.push(TaskView { status: Status::Todo, info: cs }),
                ..m
            })
        }),
{
    let entered = step(m, Key::Char('i')).0;
    lemma_type_chars_compose(entered, Seq::empty(), cs);
    assert(Seq::<char>::empty() + cs =~= cs);
}

/// Law: entering compose, typing any text and cancelling leaves the
/// machine exactly as it was: the list untouched, the draft discarded.
pub proof fn lemma_cancel_discards(m: MachineView, cs: Seq<char>)
    requires
        m.wf(),
        m.mode is Navigate,
    ensures
        step(type_chars(step(m, Key::Char('i')).0, cs), Key::Esc).0 == m,
{
    let entered = step(m, Key::Char('i')).0;
    lemma_type_chars_compose(entered, Seq::empty(), cs);
    assert((MachineView { mode: m.mode, ..m }) == m);
}

} // verus!
