//! A small to-do list: an ordered list of tasks, its JSON file format, and
//! the decisions behind each menu action of the interactive shell.

pub mod list;
pub mod codec;
pub mod text;
pub mod shell;
pub mod listing;
