//! Update orchestration for a handheld firmware updater.
//!
//! The crate holds the state that the display loop observes and the background
//! worker mutates, the rules of the version selector, the decisions of an update
//! attempt, and the merge of the remote release and tag lists into one catalog.
//! Every function is stated over a mathematical view of that state and proved
//! against it.

pub mod release;
pub mod progress;
pub mod app_state;
pub mod navigation;
pub mod update;
pub mod screen;
pub mod input;
pub mod catalog;
pub mod fonts;
