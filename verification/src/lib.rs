//! A launcher of terminal sessions. Given a project, a directory on disk
//! with a name, it decides which commands of a terminal multiplexer bring
//! the user into the session of that project, whatever sessions exist
//! already. It also ends sessions and opens numbered scratch sessions.
//!
//! The library runs no program and reads no file. It says which command is
//! to be run next, and takes in how that command ended; it is handed what a
//! directory listing or a picker gave, and says what follows from it.

pub mod cli;
pub mod command;
pub mod commands;
pub mod config;
pub mod fzf;
pub mod helper;
pub mod multiplexer;
pub mod paths;
pub mod project;
pub mod text;
