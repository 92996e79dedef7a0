//! Persistent preference store of a desktop configuration editor: three
//! most-recent-first history lists, the rules for loading and saving them,
//! and the plan for replacing the board file of a working folder.

pub mod codec;
pub mod commands;
pub mod history;
pub mod locate;
pub mod store;
