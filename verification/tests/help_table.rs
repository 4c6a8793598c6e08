use task_tracker::app::CurrentScreen;
use task_tracker::input_keys::{
    all_actions, length_of_longest_input_key_description, length_of_longest_input_key_name,
    Action,
};
use task_tracker::keys_hint::KeysHint;
use task_tracker::task::TaskStatus;

#[test]
fn status_labels_match_display_text() {
    assert_eq!(TaskStatus::InProgress.to_text(), "In Progress");
    assert_eq!(TaskStatus::Finished.to_text(), "Finished");
}

#[test]
fn action_table_lists_every_binding_once() {
    let actions = all_actions();
    assert_eq!(actions.len(), 12);
    assert_eq!(actions[0], Action::AddTask);
    assert_eq!(actions[1], Action::EditMode);
    assert_eq!(actions[3], Action::Quit);
    assert_eq!(actions[11], Action::DecrementDueDate);
}

#[test]
fn input_keys_carry_names_and_descriptions() {
    let k = Action::AddTask.input_key();
    assert_eq!(k.name, "a");
    assert_eq!(k.description, "Add a new task");
    let k = Action::ChangeMode.input_key();
    assert_eq!(k.name, "Esc");
    assert_eq!(k.description, "Change modes");
    let k = Action::MarkTaskInProgress.input_key();
    assert_eq!(k.name, "D");
    assert_eq!(k.description, "Mark task as in progress");
}

#[test]
fn widest_key_name_is_escape() {
    let actions = all_actions();
    assert_eq!(length_of_longest_input_key_name(&actions), 3);
}

#[test]
fn widest_description_is_the_edit_hint() {
    let actions = all_actions();
    assert_eq!(
        length_of_longest_input_key_description(&actions),
        "Enter edit mode for current task".len() as u16
    );
}

#[test]
fn longest_lengths_track_their_slice() {
    let actions = vec![Action::Quit, Action::KeysHint];
    assert_eq!(length_of_longest_input_key_name(&actions), 1);
    assert_eq!(
        length_of_longest_input_key_description(&actions),
        "Display this help page".len() as u16
    );
}

#[test]
fn help_rows_pair_keys_with_descriptions() {
    let hint = KeysHint { _screen: CurrentScreen::Main };
    let rows = hint.rows();
    assert_eq!(rows.len(), 12);
    assert_eq!(rows[0].name, "a");
    assert_eq!(rows[0].description, "Add a new task");
    assert_eq!(rows[9].name, "Esc");
    assert_eq!(rows[11].description, "Decrease the due date by 1");
}
