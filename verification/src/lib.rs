//! Decisions of a small path-creating tool: which entries to create for a list of
//! paths, and the shell snippet that wires the tool into an interactive session.
//!
//! Nothing here touches the filesystem or a terminal. The caller performs each
//! action that the library names and reports back what happened.

pub mod creator;
pub mod hook;
pub mod init;
pub mod path;
pub mod shell;
pub mod text;
