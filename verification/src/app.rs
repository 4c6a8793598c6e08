//! The application state core: the pool of tasks, the single checked-out
//! task shown on screen, the edit-session scratch buffers, and the
//! screen/edit-mode state machine that the surrounding input layer drives.

use vstd::prelude::*;

verus! {

use vstd::multiset::Multiset;

use crate::input_keys::Action;
use crate::task::{fresh_task, edited_task, due_adjusted, Task, TaskStatus, SECONDS_PER_DAY};

broadcast use vstd::seq_lib::group_to_multiset_ensures;

/// The screen the user is looking at; it decides what is rendered and how
/// keys are dispatched.
#[derive(Clone, Copy, PartialEq, Eq, Structural, Debug)]
pub enum CurrentScreen {
    Main,
    Editing,
}

/// Keyboard focus within the editing screen: `Main` is the screen itself,
/// `Title` and `Description` are the two scratch buffers.
#[derive(Clone, Copy, PartialEq, Eq, Structural, Debug)]
pub enum EditMode {
    Main,
    Title,
    Description,
}

/// Whether committing the edit session mutates the checked-out task or
/// appends a new one.
#[derive(Clone, Copy, PartialEq, Eq, Structural, Debug)]
pub enum TaskCreationMode {
    Active,
    CreateNew,
}

/// An overlay that sits on top of whatever screen is open.
#[derive(Clone, Copy, PartialEq, Eq, Structural, Debug)]
pub enum Popup {
    Help,
    Error,
}

/// What a key press looks like to the typing logic, independent of the
/// action table: a printable character, the delete key, or anything else.
#[derive(Clone, Copy, PartialEq, Eq, Structural, Debug)]
pub enum KeyInput {
    Char(char),
    Backspace,
    Other,
}

/// The whole application state. At most one task is ever checked out into
/// `current_task`; all others live in `tasks`.
#[derive(Debug)]
pub struct App {
    pub title_input: String,
    pub description_input: String,
    pub current_screen: CurrentScreen,
    pub current_task: Option<Task>,
    pub edit_mode: Option<EditMode>,
    pub popup: Option<Popup>,
    pub task_creation_mode: TaskCreationMode,
    pub tasks: Vec<Task>,
}

/// 1 for a checked-out task, 0 for an empty slot.
pub open spec fn slot_count(o: Option<Task>) -> int {
    match o {
        Some(_) => 1,
        None => 0,
    }
}

impl App {
    /// Everything the application holds, pool and checked-out slot together.
    /// Selection moves tasks between the two; nothing but a commit changes
    /// this multiset.
    pub open spec fn all_tasks(self) -> Multiset<Task> {
        self.tasks@.to_multiset().add(
            match self.current_task {
                Some(t) => Multiset::singleton(t),
                None => Multiset::empty(),
            },
        )
    }

    /// How many tasks the application holds in all.
    pub open spec fn task_count(self) -> int {
        self.tasks@.len() + slot_count(self.current_task)
    }

    /// The screen and edit-session half of the state: everything selection
    /// leaves alone.
    pub open spec fn same_session(self, post: App) -> bool {
        &&& post.title_input == self.title_input
        &&& post.description_input == self.description_input
        &&& post.current_screen == self.current_screen
        &&& post.edit_mode == self.edit_mode
        &&& post.popup == self.popup
        &&& post.task_creation_mode == self.task_creation_mode
    }

    /// Both scratch buffers empty: committing the edit session is a no-op.
    pub open spec fn edit_buffers_empty(self) -> bool {
        self.title_input@.len() == 0 && self.description_input@.len() == 0
    }

    /// The description a commit writes: absent when its scratch buffer is
    /// empty.
    pub open spec fn committed_description(self) -> Option<String> {
        if self.description_input@.len() == 0 {
            None
        } else {
            Some(self.description_input)
        }
    }

    /// Well-formedness: while the editing screen is open in active mode, a
    /// task is checked out. The state machine never opens an active edit
    /// session on an empty slot, and commits rely on that.
    pub open spec fn wf(self) -> bool {
        self.current_screen is Editing && self.task_creation_mode is Active
            ==> self.current_task is Some
    }

    /// Runtime test of `wf`, for callers outside the verified world that
    /// must establish it before dispatching keys.
    pub fn wf_check(&self) -> (b: bool)
        ensures
            b == self.wf(),
    {
        match (self.current_screen, self.task_creation_mode, &self.current_task) {
            (CurrentScreen::Editing, TaskCreationMode::Active, None) => false,
            _ => true,
        }
    }
}

/// What one selection round does: it returns the checked-out task to the
/// pool, shuffles, and checks out one task again. Which task comes out is
/// random; everything else is exact.
pub open spec fn select_step(pre: App, post: App) -> bool {
    &&& post.all_tasks() == pre.all_tasks()
    &&& pre.same_session(post)
    &&& post.task_count() == pre.task_count()
    &&& (post.current_task is Some <==> pre.task_count() > 0)
    &&& (pre.current_task is None && pre.tasks@.len() == 1 ==> post.current_task
        == Some(pre.tasks@[0]) && post.tasks@.len() == 0)
}

/// What committing the edit session at time `now` does. With both scratch
/// buffers empty nothing happens at all; otherwise the buffers become a new
/// task or overwrite the checked-out one, and a fresh selection round
/// follows, so the changed task re-enters the random pool.
pub open spec fn commit_step(pre: App, post: App, now: i64) -> bool {
    if pre.edit_buffers_empty() {
        post == pre
    } else {
        &&& pre.same_session(post)
        &&& post.current_task is Some
        &&& post.task_count() == pre.task_count() + (
            if pre.task_creation_mode is CreateNew {
                1int
            } else {
                0int
            })
        &&& match pre.task_creation_mode {
            TaskCreationMode::CreateNew => {
                &&& now + SECONDS_PER_DAY <= i64::MAX
                &&& post.all_tasks() == pre.all_tasks().insert(
                    fresh_task(pre.title_input, pre.committed_description(), now),
                )
            },
            TaskCreationMode::Active => {
                &&& pre.current_task matches Some(t) && post.all_tasks() == pre.all_tasks().remove(
                    t,
                ).insert(edited_task(t, pre.title_input, pre.committed_description(), now))
            },
        }
    }
}

/// Relies on rand's `SliceRandom::shuffle` (a Fisher-Yates shuffle driven by
/// `rand::thread_rng`): it permutes the slice in place, so the elements and
/// their number are unchanged.
#[verifier::external_body]
fn shuffle_tasks(v: &mut Vec<Task>)
    ensures
        final(v)@.to_multiset() == old(v)@.to_multiset(),
        final(v)@.len() == old(v)@.len(),
{
    rand::seq::SliceRandom::shuffle(v.as_mut_slice(), &mut rand::thread_rng());
}

/// Relies on time's `OffsetDateTime`: `now_utc` reads the system clock and
/// `unix_timestamp` turns it into seconds since the Unix epoch. Nothing is
/// promised of the value; the clock may even run backwards.
#[verifier::external_body]
fn now_seconds() -> i64 {
    time::OffsetDateTime::now_utc().unix_timestamp()
}

/// Relies on `String::push`: it appends exactly the given character.
#[verifier::external_body]
fn push_char(s: &mut String, c: char)
    ensures
        final(s)@ == old(s)@.push(c),
{
    s.push(c);
}

/// Relies on `String::pop`: it removes and returns the last character, or
/// returns `None` from an empty string.
#[verifier::external_body]
fn pop_char(s: &mut String) -> (r: Option<char>)
    ensures
        old(s)@.len() == 0 ==> final(s)@ == old(s)@ && r is None,
        old(s)@.len() > 0 ==> final(s)@ == old(s)@.drop_last() && r == Some(old(s)@.last()),
{
    s.pop()
}

impl App {
    /// The state a run starts from when nothing could be loaded: empty pool,
    /// nothing checked out, main screen, no popup, no edit session.
    pub fn new() -> (app: App)
        ensures
            app.title_input@ == Seq::<char>::empty(),
            app.description_input@ == Seq::<char>::empty(),
            app.current_screen is Main,
            app.current_task is None,
            app.edit_mode is None,
            app.popup is None,
            app.task_creation_mode is CreateNew,
            app.tasks@ == Seq::<Task>::empty(),
    {
        App {
            title_input: String::new(),
            description_input: String::new(),
            current_screen: CurrentScreen::Main,
            current_task: None,
            edit_mode: None,
            popup: None,
            task_creation_mode: TaskCreationMode::CreateNew,
            tasks: Vec::new(),
        }
    }

    /// One selection round: return the checked-out task to the pool, shuffle
    /// the pool uniformly, and check out its last element, if any. No task is
    /// ever created, lost or duplicated here, and a lone task is picked with
    /// certainty.
    pub fn choose_shown_task(&mut self)
        ensures
            select_step(*old(self), *final(self)),
    {
        let ghost pre = *self;
        match self.current_task.take() {
            Some(task) => {
                self.tasks.push(task);
            },
            None => {},
        }
        let ghost mid = *self;
        proof {
            assert(mid.tasks@.to_multiset() =~= pre.all_tasks());
        }
        shuffle_tasks(&mut self.tasks);
        let ghost shuffled = self.tasks@;
        self.current_task = self.tasks.pop();
        proof {
            if shuffled.len() == 0 {
                assert(self.all_tasks() =~= pre.all_tasks());
            } else {
                let last = shuffled.last();
                assert(shuffled.drop_last() =~= shuffled.remove(shuffled.len() - 1));
                assert(shuffled.remove(shuffled.len() - 1).to_multiset() == shuffled.to_multiset()
                    .remove(last));
                assert(shuffled.to_multiset().count(last) > 0) by {
                    assert(shuffled.contains(last));
                }
                assert(self.all_tasks() =~= shuffled.to_multiset());
                assert(self.all_tasks() =~= pre.all_tasks());
            }
            if pre.current_task is None && pre.tasks@.len() == 1 {
                assert(shuffled.to_multiset() == pre.tasks@.to_multiset());
                assert(shuffled.len() == 1);
                assert(shuffled.contains(shuffled[0]));
                assert(pre.tasks@.to_multiset().count(shuffled[0]) > 0);
                assert(pre.tasks@.contains(shuffled[0]));
                assert(shuffled[0] == pre.tasks@[0]);
                assert(self.current_task == Some(pre.tasks@[0]));
            }
        }
    }

    /// Set the status of the checked-out task; a no-op when nothing is
    /// checked out. Status changes do not count as edits, so `time_edited`
    /// stays put.
    pub fn change_task_status(&mut self, new_status: TaskStatus)
        ensures
            old(self).current_task is None ==> *final(self) == *old(self),
            old(self).current_task matches Some(t) ==> *final(self) == (App {
                current_task: Some(Task { task_status: new_status, ..t }),
                ..*old(self)
            }),
    {
        if let Some(active_task) = &mut self.current_task {
            active_task.task_status = new_status;
        }
    }

    /// Whether the checked-out task's due date can move by `num_days` days
    /// without leaving the representable range. Vacuously true when nothing
    /// is checked out.
    pub fn due_shift_fits(&self, num_days: i64) -> (b: bool)
        ensures
            b == match self.current_task {
                Some(t) => i64::MIN <= t.due_time + num_days * SECONDS_PER_DAY <= i64::MAX,
                None => true,
            },
    {
        match &self.current_task {
            Some(t) => {
                let days: i128 = num_days as i128;
                let sec: i128 = SECONDS_PER_DAY as i128;
                proof {
                    assert((i64::MIN as i128) * 86400 <= days * sec <= (i64::MAX as i128)
                        * 86400) by (nonlinear_arith)
                        requires
                            (i64::MIN as i128) <= days <= (i64::MAX as i128),
                            sec == 86400,
                    ;
                }
                let moved: i128 = (t.due_time as i128) + days * sec;
                (i64::MIN as i128) <= moved && moved <= (i64::MAX as i128)
            },
            None => true,
        }
    }

    /// Move the checked-out task's due date by `num_days` whole days; a no-op
    /// when nothing is checked out.
    pub fn change_active_task_due_date(&mut self, num_days: i64)
        requires
            old(self).current_task matches Some(t) ==> i64::MIN <= t.due_time + num_days
                * SECONDS_PER_DAY <= i64::MAX,
        ensures
            old(self).current_task is None ==> *final(self) == *old(self),
            old(self).current_task matches Some(t) ==> *final(self) == (App {
                current_task: Some(due_adjusted(t, num_days as int)),
                ..*old(self)
            }),
    {
        if let Some(active_task) = &mut self.current_task {
            active_task.change_due_date(num_days);
        }
    }

    /// Commit the edit session as of time `now`: with both scratch buffers
    /// empty nothing happens; otherwise the buffers overwrite the checked-out
    /// task (active mode) or become a new pool task (creation mode), and a
    /// fresh selection round follows.
    pub fn save_task_at(&mut self, now: i64)
        requires
            old(self).task_creation_mode is Active && !old(self).edit_buffers_empty() ==> old(
                self,
            ).current_task is Some,
            old(self).task_creation_mode is CreateNew && !old(self).edit_buffers_empty() ==> now
                + SECONDS_PER_DAY <= i64::MAX,
        ensures
            commit_step(*old(self), *final(self), now),
            old(self).edit_buffers_empty() ==> *final(self) == *old(self),
    {
        let ghost pre = *self;
        if self.title_input.as_str().is_empty() && self.description_input.as_str().is_empty() {
            return ;
        }
        match self.task_creation_mode {
            TaskCreationMode::Active => {
                let mut task = self.current_task.take().unwrap();
                task.title = self.title_input.clone();
                task.description = if self.description_input.as_str().is_empty() {
                    None
                } else {
                    Some(self.description_input.clone())
                };
                task.time_edited = now;
                proof {
                    let t = pre.current_task->Some_0;
                    assert(task == edited_task(
                        t,
                        pre.title_input,
                        pre.committed_description(),
                        now,
                    ));
                }
                self.current_task = Some(task);
                proof {
                    let t = pre.current_task->Some_0;
                    assert(self.all_tasks() =~= pre.all_tasks().remove(t).insert(
                        edited_task(t, pre.title_input, pre.committed_description(), now),
                    ));
                }
            },
            TaskCreationMode::CreateNew => {
                let new_task = if self.description_input.as_str().is_empty() {
                    Task::default(self.title_input.clone(), now)
                } else {
                    Task::new(self.title_input.clone(), self.description_input.clone(), now)
                };
                self.tasks.push(new_task);
                proof {
                    assert(self.all_tasks() =~= pre.all_tasks().insert(
                        fresh_task(pre.title_input, pre.committed_description(), now),
                    ));
                }
            },
        }
        self.choose_shown_task();
    }

    /// Commit the edit session at the current system time. The clock is not
    /// trusted for anything: whatever it returns, the commit happens at some
    /// single instant, clamped only so that the new due date stays
    /// representable.
    pub fn save_task(&mut self)
        requires
            old(self).task_creation_mode is Active && !old(self).edit_buffers_empty() ==> old(
                self,
            ).current_task is Some,
        ensures
            exists|now: i64| commit_step(*old(self), *final(self), now),
            old(self).edit_buffers_empty() ==> *final(self) == *old(self),
    {
        let mut now = now_seconds();
        if now > i64::MAX - SECONDS_PER_DAY {
            now = i64::MAX - SECONDS_PER_DAY;
        }
        self.save_task_at(now);
        proof {
            assert(commit_step(*old(self), *self, now));
        }
    }
}

/// Append a typed character to a scratch buffer, or delete its last
/// character; keys that are neither leave it alone.
pub fn type_to_string(key: KeyInput, field: &mut String)
    ensures
        final(field)@ == typed(old(field)@, key),
{
    match key {
        KeyInput::Backspace => {
            pop_char(field);
        },
        KeyInput::Char(ch) => {
            push_char(field, ch);
        },
        KeyInput::Other => {},
    }
}

/// What one key does to a scratch buffer's text.
pub open spec fn typed(s: Seq<char>, key: KeyInput) -> Seq<char> {
    match key {
        KeyInput::Char(c) => s.push(c),
        KeyInput::Backspace => if s.len() > 0 {
            s.drop_last()
        } else {
            s
        },
        KeyInput::Other => s,
    }
}

/// Setting the checked-out task's status; a no-op on an empty slot.
pub open spec fn status_step(pre: App, post: App, st: TaskStatus) -> bool {
    match pre.current_task {
        Some(t) => post == (App { current_task: Some(Task { task_status: st, ..t }), ..pre }),
        None => post == pre,
    }
}

/// Moving the checked-out task's due date by `days` days; a no-op on an
/// empty slot or when the move would leave the representable range.
pub open spec fn due_step(pre: App, post: App, days: int) -> bool {
    match pre.current_task {
        Some(t) => if i64::MIN <= t.due_time + days * SECONDS_PER_DAY <= i64::MAX {
            post == (App { current_task: Some(due_adjusted(t, days)), ..pre })
        } else {
            post == pre
        },
        None => post == pre,
    }
}

/// Opening the editing screen to create a task: both scratch buffers are
/// cleared, focus starts on the screen itself, and nothing else moves.
pub open spec fn begin_create_step(pre: App, post: App) -> bool {
    &&& post.title_input@ == Seq::<char>::empty()
    &&& post.description_input@ == Seq::<char>::empty()
    &&& post == (App {
        title_input: post.title_input,
        description_input: post.description_input,
        current_screen: CurrentScreen::Editing,
        edit_mode: Some(EditMode::Main),
        task_creation_mode: TaskCreationMode::CreateNew,
        ..pre
    })
}

/// Opening the editing screen on the checked-out task: the scratch buffers
/// are seeded from it (the description buffer left empty when it has no
/// description). With nothing checked out there is nothing to edit and
/// nothing happens.
pub open spec fn begin_edit_step(pre: App, post: App) -> bool {
    match pre.current_task {
        Some(t) => {
            &&& post.title_input == t.title
            &&& match t.description {
                Some(d) => post.description_input == d,
                None => post.description_input@ == Seq::<char>::empty(),
            }
            &&& post == (App {
                title_input: post.title_input,
                description_input: post.description_input,
                current_screen: CurrentScreen::Editing,
                edit_mode: Some(EditMode::Main),
                task_creation_mode: TaskCreationMode::Active,
                ..pre
            })
        },
        None => post == pre,
    }
}

/// `pre` with the editing screen closed: back on the main screen, no field
/// focused.
pub open spec fn closed(pre: App) -> App {
    App { current_screen: CurrentScreen::Main, edit_mode: None, ..pre }
}

/// What an action does while the editing screen itself has focus: escape
/// dismisses the popup or closes the screen without committing, confirm
/// commits and closes, the focus keys move focus into a scratch buffer, and
/// the due-date keys shift the checked-out task's deadline.
pub open spec fn edit_main_action_step(a: Action, pre: App, post: App) -> bool {
    match a {
        Action::ChangeMode => if pre.popup is Some {
            post == (App { popup: None, ..pre })
        } else {
            post == closed(pre)
        },
        Action::AddTask => exists|now: i64| commit_step(closed(pre), post, now),
        Action::FocusTitle => post == (App { edit_mode: Some(EditMode::Title), ..pre }),
        Action::FocusDescription => post == (App { edit_mode: Some(EditMode::Description), ..pre }),
        Action::IncrementDueDate => due_step(pre, post, 1),
        Action::DecrementDueDate => due_step(pre, post, -1),
        Action::KeysHint => post == (App { popup: Some(Popup::Help), ..pre }),
        _ => post == pre,
    }
}

/// What one key does on the main screen.
pub open spec fn main_screen_step(action: Option<Action>, pre: App, post: App) -> bool {
    match action {
        Some(Action::AddTask) => begin_create_step(pre, post),
        Some(Action::EditMode) => begin_edit_step(pre, post),
        Some(Action::Quit) => post == pre,
        Some(Action::MarkTaskDone) => status_step(pre, post, TaskStatus::Finished),
        Some(Action::MarkTaskInProgress) => status_step(pre, post, TaskStatus::InProgress),
        Some(Action::ShuffleTasks) => select_step(pre, post),
        Some(Action::KeysHint) => post == (App { popup: Some(Popup::Help), ..pre }),
        Some(Action::ChangeMode) => post == (App { popup: None, ..pre }),
        _ => post == pre,
    }
}

/// What one key does on the editing screen. While a scratch buffer has
/// focus, escape backs out to the screen itself (or dismisses the popup) and
/// every other key goes into the buffer as text, bound keys included.
pub open spec fn editing_screen_step(
    action: Option<Action>,
    key: KeyInput,
    pre: App,
    post: App,
) -> bool {
    match (pre.edit_mode, action) {
        (Some(EditMode::Main), Some(a)) => edit_main_action_step(a, pre, post),
        (Some(_), Some(Action::ChangeMode)) => if pre.popup is Some {
            post == (App { popup: None, ..pre })
        } else {
            post == (App { edit_mode: Some(EditMode::Main), ..pre })
        },
        (Some(EditMode::Title), _) => {
            &&& post.title_input@ == typed(pre.title_input@, key)
            &&& post == (App { title_input: post.title_input, ..pre })
        },
        (Some(EditMode::Description), _) => {
            &&& post.description_input@ == typed(pre.description_input@, key)
            &&& post == (App { description_input: post.description_input, ..pre })
        },
        _ => post == pre,
    }
}

/// However many selection rounds run one after another, the multiset of
/// tasks the application holds never changes: selection moves tasks between
/// the pool and the checked-out slot, it never creates, loses or duplicates
/// one.
pub proof fn lemma_select_rounds_preserve_tasks(states: Seq<App>)
    requires
        states.len() > 0,
        forall|i: int|
            0 <= i < states.len() - 1 ==> #[trigger] select_step(states[i], states[i + 1]),
    ensures
        states.last().all_tasks() == states.first().all_tasks(),
    decreases states.len(),
{
    if states.len() > 1 {
        let prefix = states.drop_last();
        lemma_select_rounds_preserve_tasks(prefix);
        let n = states.len() as int;
        assert(select_step(states[n - 2], states[n - 2 + 1]));
        assert(prefix.last() == states[n - 2]);
    }
}

/// A selection round on an empty pool with nothing checked out shows
/// nothing: the slot stays empty and the pool stays empty.
pub proof fn lemma_select_on_empty(pre: App, post: App)
    requires
        select_step(pre, post),
        pre.current_task is None,
        pre.tasks@.len() == 0,
    ensures
        post.current_task is None,
        post.tasks@.len() == 0,
{
}

/// A selection round on a pool of exactly one task with nothing checked out
/// checks that task out with certainty and leaves the pool empty.
pub proof fn lemma_select_singleton(pre: App, post: App)
    requires
        select_step(pre, post),
        pre.current_task is None,
        pre.tasks@.len() == 1,
    ensures
        post.current_task == Some(pre.tasks@[0]),
        post.tasks@.len() == 0,
{
}

/// Whatever a selection round checks out was already among the
/// application's tasks, and the pool afterwards holds exactly the rest.
pub proof fn lemma_select_checks_out_existing(pre: App, post: App)
    requires
        select_step(pre, post),
        post.current_task is Some,
    ensures
        pre.all_tasks().contains(post.current_task->Some_0),
        post.tasks@.to_multiset() == pre.all_tasks().remove(post.current_task->Some_0),
{
    let c = post.current_task->Some_0;
    assert(post.all_tasks().count(c) >= 1);
    assert(post.tasks@.to_multiset() =~= pre.all_tasks().remove(c));
}

/// Committing an active edit leaves, somewhere among the application's
/// tasks, the checked-out task with its title and description replaced by
/// the scratch buffers: its creation time untouched and its edit time moved
/// forward, as long as the clock has not run backwards past the previous
/// edit.
pub proof fn lemma_commit_active_updates_task(pre: App, post: App, now: i64)
    requires
        commit_step(pre, post, now),
        !pre.edit_buffers_empty(),
        pre.task_creation_mode is Active,
        pre.current_task matches Some(t) && t.time_edited <= now,
    ensures
        ({
            let t = pre.current_task->Some_0;
            let e = edited_task(t, pre.title_input, pre.committed_description(), now);
            &&& post.all_tasks().contains(e)
            &&& e.title == pre.title_input
            &&& e.description == pre.committed_description()
            &&& e.time_added == t.time_added
            &&& e.time_edited >= t.time_edited
        }),
{
    let t = pre.current_task->Some_0;
    let e = edited_task(t, pre.title_input, pre.committed_description(), now);
    assert(post.all_tasks().count(e) > 0);
}

/// Moving the checked-out task's due date by some number of days and then
/// back again restores the state exactly, whenever the first move stays
/// within the representable range.
pub proof fn lemma_due_shift_round_trip(a: App, b: App, c: App, days: int)
    requires
        a.current_task matches Some(t) && i64::MIN <= t.due_time + days * SECONDS_PER_DAY
            <= i64::MAX,
        due_step(a, b, days),
        due_step(b, c, -days),
    ensures
        c == a,
{
}

/// Dispatch one action while the editing screen itself has focus.
pub fn main_edit_mode_action_mapping(action: Action, app: &mut App)
    requires
        action is AddTask && old(app).task_creation_mode is Active && !old(
            app,
        ).edit_buffers_empty() ==> old(app).current_task is Some,
    ensures
        edit_main_action_step(action, *old(app), *final(app)),
{
    match action {
        Action::ChangeMode => {
            match app.popup {
                Some(_) => {
                    app.popup = None;
                },
                None => {
                    app.current_screen = CurrentScreen::Main;
                    app.edit_mode = None;
                },
            }
        },
        Action::AddTask => {
            app.current_screen = CurrentScreen::Main;
            app.edit_mode = None;
            app.save_task();
        },
        Action::FocusTitle => {
            app.edit_mode = Some(EditMode::Title);
        },
        Action::FocusDescription => {
            app.edit_mode = Some(EditMode::Description);
        },
        Action::IncrementDueDate => {
            if app.due_shift_fits(1) {
                app.change_active_task_due_date(1);
            }
        },
        Action::DecrementDueDate => {
            if app.due_shift_fits(-1) {
                app.change_active_task_due_date(-1);
            }
        },
        Action::KeysHint => {
            app.popup = Some(Popup::Help);
        },
        _ => {},
    }
}

impl App {
    /// Dispatch one key press, given the action it is bound to (if any) and
    /// what it looks like as text input. Returns whether the run loop should
    /// quit. This is the whole screen state machine: every transition the
    /// application makes goes through here or through the operations it
    /// calls.
    pub fn handle_key(&mut self, action: Option<Action>, key: KeyInput) -> (quit: bool)
        requires
            old(self).wf(),
        ensures
            final(self).wf(),
            quit == (old(self).current_screen is Main && action == Some(Action::Quit)),
            old(self).current_screen is Main ==> main_screen_step(action, *old(self), *final(self)),
            old(self).current_screen is Editing ==> editing_screen_step(
                action,
                key,
                *old(self),
                *final(self),
            ),
    {
        match self.current_screen {
            CurrentScreen::Main => {
                match action {
                    Some(Action::AddTask) => {
                        self.title_input = String::new();
                        self.description_input = String::new();
                        self.current_screen = CurrentScreen::Editing;
                        self.edit_mode = Some(EditMode::Main);
                        self.task_creation_mode = TaskCreationMode::CreateNew;
                        false
                    },
                    Some(Action::EditMode) => {
                        match &self.current_task {
                            Some(task) => {
                                let seeded_title = task.title.clone();
                                let seeded_description = match &task.description {
                                    Some(d) => d.clone(),
                                    None => String::new(),
                                };
                                self.title_input = seeded_title;
                                self.description_input = seeded_description;
                                self.current_screen = CurrentScreen::Editing;
                                self.edit_mode = Some(EditMode::Main);
                                self.task_creation_mode = TaskCreationMode::Active;
                            },
                            None => {},
                        }
                        false
                    },
                    Some(Action::Quit) => true,
                    Some(Action::MarkTaskDone) => {
                        self.change_task_status(TaskStatus::Finished);
                        false
                    },
                    Some(Action::MarkTaskInProgress) => {
                        self.change_task_status(TaskStatus::InProgress);
                        false
                    },
                    Some(Action::ShuffleTasks) => {
                        self.choose_shown_task();
                        false
                    },
                    Some(Action::KeysHint) => {
                        self.popup = Some(Popup::Help);
                        false
                    },
                    Some(Action::ChangeMode) => {
                        self.popup = None;
                        false
                    },
                    _ => false,
                }
            },
            CurrentScreen::Editing => {
                match (self.edit_mode, action) {
                    (Some(EditMode::Main), Some(a)) => {
                        main_edit_mode_action_mapping(a, self);
                    },
                    (Some(_), Some(Action::ChangeMode)) => {
                        match self.popup {
                            Some(_) => {
                                self.popup = None;
                            },
                            None => {
                                self.edit_mode = Some(EditMode::Main);
                            },
                        }
                    },
                    (Some(EditMode::Title), _) => {
                        type_to_string(key, &mut self.title_input);
                    },
                    (Some(EditMode::Description), _) => {
                        type_to_string(key, &mut self.description_input);
                    },
                    _ => {},
                }
                false
            },
        }
    }
}

} // verus!
