//! Shared game-state types: dialogue lines, the player's identity, the running
//! script's position and the prompt options.

use vstd::prelude::*;

verus! {

/// Who a dialogue line is attributed to.
#[derive(Clone, Copy, Debug, PartialEq, Eq, Structural)]
pub enum LineAttribute {
    System,
    User,
    Assistant,
}

/// The stored fields of a dialogue line.
#[derive(Debug)]
pub struct LineBase {
    pub id: Option<i32>,
    pub content: String,
    pub attribute: LineAttribute,
    /// The role that sent the line; `Some(0)` is the player.
    pub sender_role_id: Option<i32>,
    pub display_name: Option<String>,
}

/// A dialogue line with the roles that perceive it.
#[derive(Debug)]
pub struct GameLine {
    pub base: LineBase,
    pub perceived_role_ids: Vec<i32>,
}

impl GameLine {
    pub fn from_base(base: LineBase, perceived_role_ids: Vec<i32>) -> (r: GameLine)
        ensures
            r.base == base,
            r.perceived_role_ids == perceived_role_ids,
    {
        GameLine { base, perceived_role_ids }
    }

    /// The line's attribute.
    pub fn attribute(&self) -> (r: LineAttribute)
        ensures
            r == self.base.attribute,
    {
        self.base.attribute
    }
}

/// The player's identity as the running game shows it to the roles.
#[derive(Debug, PartialEq)]
pub struct PlayerIdentity {
    pub user_name: String,
    pub user_subtitle: String,
    pub user_prompt: String,
}

impl PlayerIdentity {
    /// A copy of the identity.
    pub fn snapshot(&self) -> (r: PlayerIdentity)
        ensures
            r == *self,
    {
        PlayerIdentity {
            user_name: self.user_name.clone(),
            user_subtitle: self.user_subtitle.clone(),
            user_prompt: self.user_prompt.clone(),
        }
    }
}

/// Where a running script stands.
#[derive(Debug)]
pub struct ScriptStatus {
    pub folder_key: String,
    /// The script variables, as JSON text.
    pub vars: String,
    pub current_chapter_key: String,
    /// The index of the next event to run in the current chapter.
    pub current_event_process: i32,
}

/// How role system prompts are built.
#[derive(Clone, Copy, Debug, PartialEq, Eq, Structural)]
pub struct PromptOptions {
    pub output_sec_lang: bool,
    pub no_emotion_limit: bool,
}

} // verus!

verus! {

/// How far a role's memory has processed the conversation.
#[derive(Debug, PartialEq)]
pub struct MemoryMeta {
    pub last_processed_global_idx: i64,
}

/// The four sections of a role's compressed memory.
#[derive(Debug, PartialEq)]
pub struct MemoryData {
    pub short_term: String,
    pub long_term: String,
    pub user_info: String,
    pub promises: String,
}

/// A role's memory bank.
#[derive(Debug, PartialEq)]
pub struct GameMemoryBank {
    pub meta: MemoryMeta,
    pub data: MemoryData,
}

impl GameMemoryBank {
    /// An empty bank that has processed nothing.
    pub fn empty() -> (r: GameMemoryBank)
        ensures
            r.meta.last_processed_global_idx == 0,
            r.data.short_term@.len() == 0,
            r.data.long_term@.len() == 0,
            r.data.user_info@.len() == 0,
            r.data.promises@.len() == 0,
    {
        GameMemoryBank {
            meta: MemoryMeta { last_processed_global_idx: 0 },
            data: MemoryData {
                short_term: String::new(),
                long_term: String::new(),
                user_info: String::new(),
                promises: String::new(),
            },
        }
    }
}

impl Default for GameMemoryBank {
    fn default() -> (r: GameMemoryBank)
        ensures
            r.meta.last_processed_global_idx == 0,
            r.data.short_term@.len() == 0,
            r.data.long_term@.len() == 0,
            r.data.user_info@.len() == 0,
            r.data.promises@.len() == 0,
    {
        GameMemoryBank::empty()
    }
}

} // verus!
