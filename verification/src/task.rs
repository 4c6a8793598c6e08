//! The task entity: a title, an optional description, a completion status and
//! three timestamps (creation, last edit, due date), counted in seconds since
//! the Unix epoch.

use vstd::prelude::*;

verus! {

/// Seconds in one day; due dates move in whole-day steps.
pub const SECONDS_PER_DAY: i64 = 86400;

/// Completion status of a task. A task starts out `InProgress`.
#[derive(Clone, Copy, PartialEq, Eq, Structural, Debug)]
pub enum TaskStatus {
    InProgress,
    Finished,
}

impl TaskStatus {
    /// The label under which the status is displayed.
    pub fn to_text(&self) -> (r: String)
        ensures
            *self is InProgress ==> r@ == "In Progress"@,
            *self is Finished ==> r@ == "Finished"@,
    {
        match self {
            TaskStatus::InProgress => "In Progress".to_string(),
            TaskStatus::Finished => "Finished".to_string(),
        }
    }
}

/// A single to-do item. `time_added` is set once at creation, `time_edited`
/// moves on every committed edit, and `due_time` starts one day after
/// creation. An absent description is distinct from an empty one.
#[derive(Clone, Debug, PartialEq)]
pub struct Task {
    pub title: String,
    pub description: Option<String>,
    pub task_status: TaskStatus,
    pub time_added: i64,
    pub time_edited: i64,
    pub due_time: i64,
}

/// The task that a commit in creation mode appends at time `now`: in
/// progress, both lifecycle timestamps at `now`, due one day later.
pub open spec fn fresh_task(title: String, description: Option<String>, now: i64) -> Task {
    Task {
        title: title,
        description: description,
        task_status: TaskStatus::InProgress,
        time_added: now,
        time_edited: now,
        due_time: (now + SECONDS_PER_DAY) as i64,
    }
}

/// The task that a commit in active mode leaves behind at time `now`: new
/// title and description, `time_edited` moved to `now`, everything else kept.
pub open spec fn edited_task(t: Task, title: String, description: Option<String>, now: i64) -> Task {
    Task { title: title, description: description, time_edited: now, ..t }
}

/// `t` with its due date moved by `days` whole days.
pub open spec fn due_adjusted(t: Task, days: int) -> Task {
    Task { due_time: (t.due_time + days * SECONDS_PER_DAY) as i64, ..t }
}

impl Task {
    /// A fresh task without a description.
    pub fn default(title: String, now: i64) -> (t: Task)
        requires
            now + SECONDS_PER_DAY <= i64::MAX,
        ensures
            t == fresh_task(title, None, now),
    {
        Task {
            title,
            description: None,
            task_status: TaskStatus::InProgress,
            time_added: now,
            time_edited: now,
            due_time: now + SECONDS_PER_DAY,
        }
    }

    /// A fresh task with a description.
    pub fn new(title: String, description: String, now: i64) -> (t: Task)
        requires
            now + SECONDS_PER_DAY <= i64::MAX,
        ensures
            t == fresh_task(title, Some(description), now),
    {
        Task {
            title,
            description: Some(description),
            task_status: TaskStatus::InProgress,
            time_added: now,
            time_edited: now,
            due_time: now + SECONDS_PER_DAY,
        }
    }

    /// Move the due date by `num_days` whole days; negative deltas move it
    /// into the past. Due dates are unbounded by design, up to what an `i64`
    /// can hold.
    pub fn change_due_date(&mut self, num_days: i64)
        requires
            i64::MIN <= old(self).due_time + num_days * SECONDS_PER_DAY <= i64::MAX,
        ensures
            *final(self) == due_adjusted(*old(self), num_days as int),
    {
        let shift: i128 = (num_days as i128) * (SECONDS_PER_DAY as i128);
        let moved: i128 = (self.due_time as i128) + shift;
        self.due_time = moved as i64;
    }
}

/// Committing an edit of an existing task never touches its creation time,
/// and never moves its edit time backwards as long as the clock it is given
/// has not run backwards past the previous edit.
pub proof fn lemma_edit_keeps_creation_time(t: Task, title: String, description: Option<String>, now: i64)
    requires
        t.time_edited <= now,
    ensures
        edited_task(t, title, description, now).time_added == t.time_added,
        edited_task(t, title, description, now).time_edited >= t.time_edited,
        edited_task(t, title, description, now).title == title,
        edited_task(t, title, description, now).description == description,
{
}

/// Moving the due date by `days` and then by `-days` restores the original
/// task exactly, whenever the first move stays within the representable
/// range.
pub proof fn lemma_due_adjust_round_trip(t: Task, days: int)
    requires
        i64::MIN <= t.due_time + days * SECONDS_PER_DAY <= i64::MAX,
    ensures
        due_adjusted(due_adjusted(t, days), -days) == t,
{
}

} // verus!
