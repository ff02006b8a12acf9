//! Building the task list of the day.
//!
//! At start the list is built from today's template entry, every task
//! `Todo`. A snapshot saved by an earlier session on the same weekday is
//! then merged in: each saved task overwrites the status of the first
//! task with the same text, and a saved task whose text occurs nowhere is
//! appended, so ad-hoc tasks added during the day survive a reload. A
//! snapshot saved on another weekday, or none at all, leaves the fresh
//! template list as it is.
//!
//! Task identity is the text alone: two tasks with the same text are not
//! told apart, and the first match wins.

use vstd::prelude::*;
use crate::day::Weekday;
use crate::task::Status;
use crate::task::Task;
use crate::task::TaskView;
use crate::task::tasks_view;
use crate::template::texts_view;
use crate::template::WeekdayTasks;
use crate::day::current_weekday;

verus! {

/// The saved state of a previous session: its task list and the weekday
/// of the save, where the save carried a date.
#[derive(Debug)]
pub struct Snapshot {
    pub tasks: Vec<Task>,
    pub saved_weekday: Option<Weekday>,
}

/// The mathematical abstraction of a snapshot.
pub ghost struct SnapshotView {
    pub tasks: Seq<TaskView>,
    pub saved_weekday: Option<Weekday>,
}

impl View for Snapshot {
    type V = SnapshotView;

    open spec fn view(&self) -> SnapshotView {
        SnapshotView { tasks: tasks_view(self.tasks@), saved_weekday: self.saved_weekday }
    }
}

impl Default for Snapshot {
    /// An empty snapshot: no tasks, no save date.
    fn default() -> (s: Snapshot)
        ensures
            s@.tasks == Seq::<TaskView>::empty(),
            s@.saved_weekday is None,
    {
        let s = Snapshot { tasks: Vec::new(), saved_weekday: None };
        proof {
            assert(s@.tasks =~= Seq::<TaskView>::empty());
        }
        s
    }
}

/// The view of an optional snapshot.
pub open spec fn snapshot_view(s: Option<Snapshot>) -> Option<SnapshotView> {
    match s {
        Option::Some(snap) => Option::Some(snap@),
        Option::None => Option::None,
    }
}

/// Index of the first task in `list` whose text equals `info`, or -1
/// where no task has that text.
pub open spec fn find_info(list: Seq<TaskView>, info: Seq<char>) -> int
    decreases list.len(),
{
    if list.len() == 0 {
        -1
    } else if list[0].info == info {
        0
    } else {
        let r = find_info(list.drop_first(), info);
        if r == -1 {
            -1
        } else {
            r + 1
        }
    }
}

/// `find_info` returns -1 exactly when no task has the text, and
/// otherwise the first matching index.
pub proof fn lemma_find_info(list: Seq<TaskView>, info: Seq<char>)
    ensures
        find_info(list, info) == -1 ==> forall|i: int|
            0 <= i < list.len() ==> list[i].info != info,
        find_info(list, info) != -1 ==> {
            let r = find_info(list, info);
            &&& 0 <= r < list.len()
            &&& list[r].info == info
            &&& forall|j: int| 0 <= j < r ==> list[j].info != info
        },
    decreases list.len(),
{
    if list.len() == 0 {
    } else if list[0].info == info {
    } else {
        let rest = list.drop_first();
        lemma_find_info(rest, info);
        let r0 = find_info(rest, info);
        if r0 == -1 {
            assert forall|i: int| 0 <= i < list.len() implies list[i].info != info by {
                if i >= 1 {
                    assert(list[i] == rest[i - 1]);
                }
            }
        } else {
            assert(list[r0 + 1] == rest[r0]);
            assert forall|j: int| 0 <= j < r0 + 1 implies list[j].info != info by {
                if j >= 1 {
                    assert(list[j] == rest[j - 1]);
                }
            }
        }
    }
}

/// Merging one saved task: overwrite the status of the first task with
/// the same text, or append the saved task where no text matches.
pub open spec fn merge_one(list: Seq<TaskView>, saved: TaskView) -> Seq<TaskView> {
    let r = find_info(list, saved.info);
    if r == -1 {
        list.push(saved)
    } else {
        list.update(r, TaskView { status: saved.status, info: list[r].info })
    }
}

/// Merging a whole snapshot, saved task by saved task, in saved order.
pub open spec fn merge_seq(list: Seq<TaskView>, saved: Seq<TaskView>) -> Seq<TaskView>
    decreases saved.len(),
{
    if saved.len() == 0 {
        list
    } else {
        merge_seq(merge_one(list, saved[0]), saved.drop_first())
    }
}

proof fn lemma_merge_seq_take_step(list: Seq<TaskView>, saved: Seq<TaskView>, k: int)
    requires
        0 <= k < saved.len(),
    ensures
        merge_seq(list, saved.take(k + 1)) == merge_one(merge_seq(list, saved.take(k)), saved[k]),
    decreases k,
{
    let m1 = merge_one(list, saved[0]);
    if k == 0 {
        assert(saved.take(1)[0] == saved[0]);
        assert(saved.take(1).drop_first() =~= saved.take(0));
        assert(merge_seq(list, saved.take(0)) == list);
        assert(merge_seq(m1, saved.take(0)) == m1);
        assert(merge_seq(list, saved.take(1)) == merge_seq(m1, saved.take(1).drop_first()));
    } else {
        let rest = saved.drop_first();
        assert(saved.take(k + 1)[0] == saved[0]);
        assert(saved.take(k)[0] == saved[0]);
        assert(saved.take(k + 1).drop_first() =~= rest.take(k));
        assert(saved.take(k).drop_first() =~= rest.take(k - 1));
        lemma_merge_seq_take_step(m1, rest, k - 1);
        assert(rest[k - 1] == saved[k]);
        assert(merge_seq(list, saved.take(k + 1)) == merge_seq(m1, rest.take(k)));
        assert(merge_seq(list, saved.take(k)) == merge_seq(m1, rest.take(k - 1)));
    }
}

/// Index of the first task in `tasks` whose text equals `info`, or `None`
/// where no task has that text.
pub fn find_by_info(tasks: &Vec<Task>, info: &String) -> (r: Option<usize>)
    ensures
        match r {
            Option::Some(i) => i < tasks@.len() && find_info(tasks_view(tasks@), info@) == i,
            Option::None => find_info(tasks_view(tasks@), info@) == -1,
        },
{
    let ghost list = tasks_view(tasks@);
    let mut i: usize = 0;
    while i < tasks.len()
        invariant
            i <= tasks@.len(),
            list == tasks_view(tasks@),
            forall|j: int| 0 <= j < i ==> list[j].info != info@,
        decreases tasks@.len() - i,
    {
        if tasks[i].info == *info {
            proof {
                lemma_find_info(list, info@);
                let r = find_info(list, info@);
                assert(list[i as int].info == info@);
                if r == -1 {
                    assert(list[i as int].info != info@);
                } else if r < i as int {
                    assert(list[r].info != info@);
                } else if r > i as int {
                    assert(list[i as int].info != info@);
                }
            }
            return Some(i);
        }
        i += 1;
    }
    proof {
        lemma_find_info(list, info@);
    }
    None
}

/// Merge the saved tasks of a snapshot into the current list, in saved
/// order: each saved task overwrites the status of the first task with
/// the same text, and is appended where no text matches.
pub fn merge_saved(tasks: &mut Vec<Task>, saved: &Vec<Task>)
    ensures
        tasks_view(final(tasks)@) == merge_seq(tasks_view(old(tasks)@), tasks_view(saved@)),
{
    let ghost saved_list = tasks_view(saved@);
    let mut k: usize = 0;
    while k < saved.len()
        invariant
            k <= saved@.len(),
            saved_list == tasks_view(saved@),
            tasks_view(tasks@) == merge_seq(tasks_view(old(tasks)@), saved_list.take(k as int)),
        decreases saved@.len() - k,
    {
        let ghost before = tasks_view(tasks@);
        match find_by_info(tasks, &saved[k].info) {
            Some(i) => {
                let status = saved[k].status;
                let t = &mut tasks[i];
                t.status = status;
            },
            None => {
                tasks.push(saved[k].clone());
            },
        }
        proof {
            assert(tasks_view(tasks@) =~= merge_one(before, saved_list[k as int]));
            lemma_merge_seq_take_step(tasks_view(old(tasks)@), saved_list, k as int);
            assert(saved_list.take(k + 1) == saved_list.take(k as int + 1));
        }
        k += 1;
    }
    proof {
        assert(saved_list.take(saved@.len() as int) =~= saved_list);
    }
}

/// A fresh task list built from template texts: one `Todo` task per text,
/// in template order.
pub open spec fn fresh_tasks(texts: Seq<Seq<char>>) -> Seq<TaskView> {
    Seq::new(texts.len(), |i: int| TaskView { status: Status::Todo, info: texts[i] })
}

/// The task list of the day: the fresh template list, with the snapshot
/// merged in exactly when the snapshot was saved on today's weekday.
pub open spec fn store_spec(
    texts: Seq<Seq<char>>,
    snap: Option<SnapshotView>,
    today: Weekday,
) -> Seq<TaskView> {
    match snap {
        Option::Some(s) => if s.saved_weekday == Option::<Weekday>::Some(today) {
            merge_seq(fresh_tasks(texts), s.tasks)
        } else {
            fresh_tasks(texts)
        },
        Option::None => fresh_tasks(texts),
    }
}

/// Build the task list of the day from today's template texts and an
/// optional snapshot of an earlier session.
pub fn build_store(texts: &Vec<String>, snapshot: &Option<Snapshot>, today: Weekday) -> (r: Vec<
    Task,
>)
    ensures
        tasks_view(r@) == store_spec(texts_view(texts@), snapshot_view(*snapshot), today),
{
    let mut r: Vec<Task> = Vec::new();
    let mut i: usize = 0;
    while i < texts.len()
        invariant
            i <= texts@.len(),
            r@.len() == i,
            forall|j: int|
                0 <= j < i ==> #[trigger] r@[j]@ == (TaskView {
                    status: Status::Todo,
                    info: texts@[j]@,
                }),
        decreases texts@.len() - i,
    {
        r.push(Task { status: Status::Todo, info: texts[i].clone() });
        i += 1;
    }
    proof {
        assert(tasks_view(r@) =~= fresh_tasks(texts_view(texts@)));
    }
    match snapshot {
        Some(snap) => {
            let same_day = match &snap.saved_weekday {
                Some(d) => *d == today,
                None => false,
            };
            if same_day {
                merge_saved(&mut r, &snap.tasks);
            }
        },
        None => {},
    }
    r
}

/// Build the task list for the current weekday: look today's entry up in
/// the template, start every task `Todo`, and merge the snapshot in when
/// it was saved today. Returns the list together with the weekday it was
/// built for.
pub fn todays_store(template: &WeekdayTasks, snapshot: &Option<Snapshot>) -> (r: (Vec<Task>, Weekday))
    ensures
        ({
            let texts = match template.spec_day(r.1) {
                Option::Some(e) => texts_view(e.tasks@),
                Option::None => Seq::<Seq<char>>::empty(),
            };
            tasks_view(r.0@) == store_spec(texts, snapshot_view(*snapshot), r.1)
        }),
{
    let today = current_weekday();
    let tasks = match template.day(today) {
        Some(entry) => build_store(&entry.tasks, snapshot, today),
        None => {
            let empty: Vec<String> = Vec::new();
            proof {
                assert(texts_view(empty@) =~= Seq::<Seq<char>>::empty());
            }
            build_store(&empty, snapshot, today)
        },
    };
    (tasks, today)
}

/// Law: a snapshot saved on another weekday than today's — or one that
/// carries no save date — is ignored entirely: the store is the fresh
/// template-only list.
pub proof fn lemma_weekday_gating(texts: Seq<Seq<char>>, snap: SnapshotView, today: Weekday)
    requires
        snap.saved_weekday != Option::<Weekday>::Some(today),
    ensures
        store_spec(texts, Option::Some(snap), today) == fresh_tasks(texts),
{
}

/// No two tasks of the list share a text.
pub open spec fn distinct_infos(list: Seq<TaskView>) -> bool {
    forall|i: int, j: int|
        0 <= i < j < list.len() ==> list[i].info != list[j].info
}

proof fn lemma_merge_self_from(list: Seq<TaskView>, k: int)
    requires
        distinct_infos(list),
        0 <= k <= list.len(),
    ensures
        merge_seq(list, list.subrange(k, list.len() as int)) == list,
    decreases list.len() - k,
{
    let tail = list.subrange(k, list.len() as int);
    if k == list.len() {
        assert(tail.len() == 0);
    } else {
        assert(tail[0] == list[k]);
        lemma_find_info(list, list[k].info);
        let r = find_info(list, list[k].info);
        if r == -1 {
            assert(list[k].info != list[k].info);
        } else if r < k {
            assert(list[r].info == list[k].info);
            assert(false);
        } else if r > k {
            assert(list[k].info != list[k].info);
        }
        assert(r == k);
        assert((TaskView { status: list[k].status, info: list[k].info }) == list[k]);
        assert(list.update(k, list[k]) =~= list);
        assert(merge_one(list, list[k]) == list);
        assert(tail.drop_first() =~= list.subrange(k + 1, list.len() as int));
        lemma_merge_self_from(list, k + 1);
        assert(merge_seq(list, tail) == merge_seq(merge_one(list, tail[0]), tail.drop_first()));
    }
}

/// Law: merging a snapshot equal to the current list into that list
/// leaves it unchanged, provided no two tasks share a text. (With two
/// tasks of one text, both saved statuses land on the first of them, so
/// the law needs the texts distinct.)
pub proof fn lemma_merge_idempotent(list: Seq<TaskView>)
    requires
        distinct_infos(list),
    ensures
        merge_seq(list, list) == list,
{
    lemma_merge_self_from(list, 0);
    assert(list.subrange(0, list.len() as int) =~= list);
}

} // verus!
