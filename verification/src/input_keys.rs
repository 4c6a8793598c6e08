//! The fixed vocabulary of abstract actions that the external input layer
//! hands to the state machine, and the key table shown on the help screen.

use vstd::prelude::*;

verus! {

use vstd::string::StrSliceExecFns;

/// One abstract action per bound key. The raw-key-to-action lookup lives in
/// the input layer outside this crate's concern; the state machine only sees
/// these.
#[derive(Clone, Copy, PartialEq, Eq, Structural, Debug)]
pub enum Action {
    AddTask,
    EditMode,
    ShuffleTasks,
    Quit,
    MarkTaskDone,
    MarkTaskInProgress,
    KeysHint,
    FocusTitle,
    FocusDescription,
    ChangeMode,
    IncrementDueDate,
    DecrementDueDate,
}

/// How an action's key is shown on the help screen.
pub open spec fn action_key_name(a: Action) -> Seq<char> {
    match a {
        Action::AddTask => "a"@,
        Action::EditMode => "e"@,
        Action::ShuffleTasks => "r"@,
        Action::Quit => "q"@,
        Action::MarkTaskDone => "d"@,
        Action::MarkTaskInProgress => "D"@,
        Action::KeysHint => "?"@,
        Action::FocusTitle => "t"@,
        Action::FocusDescription => "T"@,
        Action::ChangeMode => "Esc"@,
        Action::IncrementDueDate => "y"@,
        Action::DecrementDueDate => "Y"@,
    }
}

/// How an action is described on the help screen.
pub open spec fn action_description(a: Action) -> Seq<char> {
    match a {
        Action::AddTask => "Add a new task"@,
        Action::EditMode => "Enter edit mode for current task"@,
        Action::ShuffleTasks => "Choose a task to display"@,
        Action::Quit => "Quit"@,
        Action::MarkTaskDone => "Mark task as done"@,
        Action::MarkTaskInProgress => "Mark task as in progress"@,
        Action::KeysHint => "Display this help page"@,
        Action::FocusTitle => "Focus the title field"@,
        Action::FocusDescription => "Focus the description field"@,
        Action::ChangeMode => "Change modes"@,
        Action::IncrementDueDate => "Increase the due date by 1"@,
        Action::DecrementDueDate => "Decrease the due date by 1"@,
    }
}

/// Every key name fits on a help-screen column.
pub proof fn lemma_key_name_len_bounds()
    ensures
        forall|a: Action| #[trigger] action_key_name(a).len() <= 3,
{
    reveal_strlit("a");
    reveal_strlit("e");
    reveal_strlit("r");
    reveal_strlit("q");
    reveal_strlit("d");
    reveal_strlit("D");
    reveal_strlit("?");
    reveal_strlit("t");
    reveal_strlit("T");
    reveal_strlit("Esc");
    reveal_strlit("y");
    reveal_strlit("Y");
}

/// Every key description fits on a help-screen column.
pub proof fn lemma_description_len_bounds()
    ensures
        forall|a: Action| #[trigger] action_description(a).len() <= 40,
{
    reveal_strlit("Add a new task");
    reveal_strlit("Enter edit mode for current task");
    reveal_strlit("Choose a task to display");
    reveal_strlit("Quit");
    reveal_strlit("Mark task as done");
    reveal_strlit("Mark task as in progress");
    reveal_strlit("Display this help page");
    reveal_strlit("Focus the title field");
    reveal_strlit("Focus the description field");
    reveal_strlit("Change modes");
    reveal_strlit("Increase the due date by 1");
    reveal_strlit("Decrease the due date by 1");
}

/// One row of the help table: the key under which an action is reached and
/// what it does.
pub struct InputKey {
    pub name: String,
    pub description: String,
}

impl Action {
    /// The help-table row for this action.
    pub fn input_key(&self) -> (k: InputKey)
        ensures
            k.name@ == action_key_name(*self),
            k.description@ == action_description(*self),
    {
        match self {
            Action::AddTask => InputKey {
                name: "a".to_string(),
                description: "Add a new task".to_string(),
            },
            Action::EditMode => InputKey {
                name: "e".to_string(),
                description: "Enter edit mode for current task".to_string(),
            },
            Action::ShuffleTasks => InputKey {
                name: "r".to_string(),
                description: "Choose a task to display".to_string(),
            },
            Action::Quit => InputKey { name: "q".to_string(), description: "Quit".to_string() },
            Action::MarkTaskDone => InputKey {
                name: "d".to_string(),
                description: "Mark task as done".to_string(),
            },
            Action::MarkTaskInProgress => InputKey {
                name: "D".to_string(),
                description: "Mark task as in progress".to_string(),
            },
            Action::KeysHint => InputKey {
                name: "?".to_string(),
                description: "Display this help page".to_string(),
            },
            Action::FocusTitle => InputKey {
                name: "t".to_string(),
                description: "Focus the title field".to_string(),
            },
            Action::FocusDescription => InputKey {
                name: "T".to_string(),
                description: "Focus the description field".to_string(),
            },
            Action::ChangeMode => InputKey {
                name: "Esc".to_string(),
                description: "Change modes".to_string(),
            },
            Action::IncrementDueDate => InputKey {
                name: "y".to_string(),
                description: "Increase the due date by 1".to_string(),
            },
            Action::DecrementDueDate => InputKey {
                name: "Y".to_string(),
                description: "Decrease the due date by 1".to_string(),
            },
        }
    }
}

/// The bound actions in the order the help screen lists them.
pub open spec fn all_actions_seq() -> Seq<Action> {
    seq![
        Action::AddTask,
        Action::EditMode,
        Action::ShuffleTasks,
        Action::Quit,
        Action::MarkTaskDone,
        Action::MarkTaskInProgress,
        Action::KeysHint,
        Action::FocusTitle,
        Action::FocusDescription,
        Action::ChangeMode,
        Action::IncrementDueDate,
        Action::DecrementDueDate,
    ]
}

/// The bound actions, for iteration at run time.
pub fn all_actions() -> (r: Vec<Action>)
    ensures
        r@ == all_actions_seq(),
{
    let mut v: Vec<Action> = Vec::new();
    v.push(Action::AddTask);
    v.push(Action::EditMode);
    v.push(Action::ShuffleTasks);
    v.push(Action::Quit);
    v.push(Action::MarkTaskDone);
    v.push(Action::MarkTaskInProgress);
    v.push(Action::KeysHint);
    v.push(Action::FocusTitle);
    v.push(Action::FocusDescription);
    v.push(Action::ChangeMode);
    v.push(Action::IncrementDueDate);
    v.push(Action::DecrementDueDate);
    proof {
        assert(v@ =~= all_actions_seq());
    }
    v
}

/// The widest key name among `actions`, in characters; the help table sizes
/// its key column by it.
pub fn length_of_longest_input_key_name(actions: &[Action]) -> (r: u16)
    requires
        actions@.len() > 0,
    ensures
        exists|j: int| 0 <= j < actions@.len() && r as nat == action_key_name(actions@[j]).len(),
        forall|j: int|
            0 <= j < actions@.len() ==> #[trigger] action_key_name(actions@[j]).len() <= r as nat,
{
    let mut max_len: usize = actions[0].input_key().name.as_str().unicode_len();
    let mut i: usize = 0;
    while i < actions.len()
        invariant
            0 <= i <= actions@.len(),
            actions@.len() > 0,
            exists|j: int|
                0 <= j < actions@.len() && max_len as nat == action_key_name(actions@[j]).len(),
            forall|j: int|
                0 <= j < i ==> #[trigger] action_key_name(actions@[j]).len() <= max_len as nat,
        decreases actions@.len() - i,
    {
        let new_len = actions[i].input_key().name.as_str().unicode_len();
        if new_len > max_len {
            max_len = new_len;
        }
        i += 1;
    }
    proof {
        lemma_key_name_len_bounds();
    }
    max_len as u16
}

/// The widest key description among `actions`, in characters; the help table
/// sizes its description column by it.
pub fn length_of_longest_input_key_description(actions: &[Action]) -> (r: u16)
    requires
        actions@.len() > 0,
    ensures
        exists|j: int| 0 <= j < actions@.len() && r as nat == action_description(actions@[j]).len(),
        forall|j: int|
            0 <= j < actions@.len() ==> #[trigger] action_description(actions@[j]).len() <= r
                as nat,
{
    let mut max_len: usize = actions[0].input_key().description.as_str().unicode_len();
    let mut i: usize = 0;
    while i < actions.len()
        invariant
            0 <= i <= actions@.len(),
            actions@.len() > 0,
            exists|j: int|
                0 <= j < actions@.len() && max_len as nat == action_description(actions@[j]).len(),
            forall|j: int|
                0 <= j < i ==> #[trigger] action_description(actions@[j]).len() <= max_len as nat,
        decreases actions@.len() - i,
    {
        let new_len = actions[i].input_key().description.as_str().unicode_len();
        if new_len > max_len {
            max_len = new_len;
        }
        i += 1;
    }
    proof {
        lemma_description_len_bounds();
    }
    max_len as u16
}

} // verus!
