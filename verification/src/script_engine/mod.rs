//! The script (story mode) engine: chapters and their events.

pub mod chapter;
pub mod events;
