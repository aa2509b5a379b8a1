//! Decisions of the running game: rebuilding role persona lines, rolling the
//! conversation back, session snapshots, and the auto-save fingerprint.

pub mod auto_save;
pub mod player_profile_sync;
pub mod session;
