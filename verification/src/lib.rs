//! Verified core of the LingChat game backend: player profile rules,
//! script-event decisions, save bookkeeping and the memory-validation
//! admission logic.

pub mod text;
pub mod player;
pub mod script_engine;
pub mod types;
pub mod game_system;
pub mod api;
pub mod memory_test_api;
pub mod migration;
