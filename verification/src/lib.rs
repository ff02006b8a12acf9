//! A single-user terminal to-do list.
//!
//! The library holds the verified core of the application: the per-weekday
//! task template, the merge of a saved daily snapshot into the template's
//! task list, the keyboard-driven session state machine, and the timing
//! rules of the event source. Terminal rendering, file handling and JSON
//! encoding live outside the library and hand it plain values.

pub mod day;
pub mod events;
pub mod merge;
pub mod session;
pub mod task;
pub mod template;
