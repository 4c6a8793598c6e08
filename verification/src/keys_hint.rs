//! The help overlay's content: which keys exist and what they do. Drawing
//! the table is the render layer's business; this module only supplies its
//! rows.

use vstd::prelude::*;

verus! {

use crate::app::CurrentScreen;
use crate::input_keys::{
    action_description,
    action_key_name,
    all_actions,
    all_actions_seq,
    InputKey,
};

/// The help popup, remembering which screen it was opened from.
pub struct KeysHint {
    pub _screen: CurrentScreen,
}

impl KeysHint {
    /// The rows of the help table: for every bound action, in help-screen
    /// order, its key and its description.
    pub fn rows(&self) -> (r: Vec<InputKey>)
        ensures
            r@.len() == all_actions_seq().len(),
            forall|i: int|
                0 <= i < r@.len() ==> #[trigger] r@[i].name@ == action_key_name(
                    all_actions_seq()[i],
                ) && r@[i].description@ == action_description(all_actions_seq()[i]),
    {
        let actions = all_actions();
        let mut rows: Vec<InputKey> = Vec::new();
        let mut i: usize = 0;
        while i < actions.len()
            invariant
                0 <= i <= actions@.len(),
                actions@ == all_actions_seq(),
                rows@.len() == i,
                forall|j: int|
                    0 <= j < i ==> #[trigger] rows@[j].name@ == action_key_name(
                        all_actions_seq()[j],
                    ) && rows@[j].description@ == action_description(all_actions_seq()[j]),
            decreases actions@.len() - i,
        {
            rows.push(actions[i].input_key());
            i += 1;
        }
        rows
    }
}

} // verus!
