//! The player's own identity: the profile file, its validation and the avatar.

pub mod avatar;
pub mod profile;
pub mod validation;
