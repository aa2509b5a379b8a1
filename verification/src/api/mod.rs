//! Decisions behind the save commands.

pub mod save;
