//! Core state of a terminal task tracker: the task entity with its lifecycle
//! timestamps, the pool of tasks with randomized selection of the one shown on
//! screen, and the screen/edit-session state machine that the surrounding
//! input and render layers drive.

pub mod app;
pub mod input_keys;
pub mod keys_hint;
pub mod task;
