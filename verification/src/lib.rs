//! Parsing of version-control command output into typed entries, and the
//! decisions an interactive front-end takes on them: which files to stage or
//! unstage for a selection, which command a menu entry stands for.
//!
//! Everything here works on plain values. Running commands and asking the
//! user is left to the caller.

pub mod commands;
pub mod getters;
pub mod modes;
pub mod text;
pub mod types;
