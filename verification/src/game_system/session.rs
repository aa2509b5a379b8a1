//! Session decisions of the AI service: the formal-session gate, the intro
//! character, immutable session snapshots and rolling the conversation back.

use vstd::prelude::*;

use crate::text::{decimal, str_eq, u64_to_decimal};
use crate::player::profile::or_empty;
use crate::types::{GameLine, GameMemoryBank, LineAttribute, LineBase, PromptOptions, ScriptStatus};

verus! {

/// The session state captured before any save I/O starts. It holds no save id:
/// it can be written to a manual or an auto-save slot alike.
pub struct SessionSnapshot<S> {
    pub lines: Vec<GameLine>,
    pub main_role_id: Option<i32>,
    pub status: S,
    /// Each role's memory bank with its revision.
    pub memory_banks: Vec<(i32, GameMemoryBank, u64)>,
    pub running_script: Option<ScriptStatus>,
}

/// What writing a snapshot does with the save's running-script record.
#[derive(Debug, PartialEq, Eq, Structural)]
pub enum ScriptRecordAction {
    /// Write the snapshot's running script.
    Upsert,
    /// Remove the save's running script: a snapshot without one is
    /// authoritative, so a finished or stopped script is not brought back.
    Clear,
}

impl<S> SessionSnapshot<S> {
    pub fn script_record_action(&self) -> (r: ScriptRecordAction)
        ensures
            r == if self.running_script is Some {
                ScriptRecordAction::Upsert
            } else {
                ScriptRecordAction::Clear
            },
    {
        if self.running_script.is_some() {
            ScriptRecordAction::Upsert
        } else {
            ScriptRecordAction::Clear
        }
    }

    /// The (role, revision) pairs reported once every memory bank of the
    /// snapshot is written, in the snapshot's order.
    pub fn memory_revisions(&self) -> (r: Vec<(i32, u64)>)
        ensures
            r@.len() == self.memory_banks@.len(),
            forall|i: int|
                0 <= i < r@.len() ==> #[trigger] r@[i] == (
                    self.memory_banks@[i].0,
                    self.memory_banks@[i].2,
                ),
    {
        let mut r: Vec<(i32, u64)> = Vec::new();
        let mut i: usize = 0;
        while i < self.memory_banks.len()
            invariant
                i <= self.memory_banks.len(),
                r@.len() == i,
                forall|j: int|
                    0 <= j < i ==> #[trigger] r@[j] == (
                        self.memory_banks@[j].0,
                        self.memory_banks@[j].2,
                    ),
            decreases self.memory_banks.len() - i,
        {
            r.push((self.memory_banks[i].0, self.memory_banks[i].2));
            i = i + 1;
        }
        r
    }
}

/// Admission to a formal-session operation (a save or a rollback): refused
/// while an editor preview holds the session.
pub fn formal_session_admission(is_preview: bool) -> (r: Result<(), String>)
    ensures
        r is Ok <==> !is_preview,
        r matches Err(m) ==> m@ == "试玩期间不能保存正式会话"@,
{
    if is_preview {
        Err(String::from_str("试玩期间不能保存正式会话"))
    } else {
        Ok(())
    }
}

/// The persona text used for the intro character when its card has none.
pub open spec fn missing_persona_text() -> Seq<char> {
    "你的信息被设置错误了，请你在接下来的对话中提示用户检查配置信息"@
}

/// The persona text the intro character's system prompt is built from.
pub fn intro_persona_text(system_prompt: Option<String>) -> (r: String)
    ensures
        r@ == match system_prompt {
            Some(p) => p@,
            None => missing_persona_text(),
        },
{
    match system_prompt {
        Some(p) => p,
        None => String::from_str("你的信息被设置错误了，请你在接下来的对话中提示用户检查配置信息"),
    }
}

/// Whether a restored outfit gets a clothes-change narration: it is set and not
/// the default outfit.
pub fn needs_clothes_change_line(clothes: &str) -> (b: bool)
    ensures
        b == (clothes@.len() > 0 && clothes@ != "default"@),
{
    clothes.unicode_len() > 0 && !str_eq(clothes, "default")
}

/// The prompt options a reset uses: the last ones given, or both enabled.
pub fn effective_prompt_options(saved: Option<PromptOptions>) -> (r: PromptOptions)
    ensures
        r == match saved {
            Some(p) => p,
            None => PromptOptions { output_sec_lang: true, no_emotion_limit: true },
        },
{
    match saved {
        Some(p) => p,
        None => PromptOptions { output_sec_lang: true, no_emotion_limit: true },
    }
}

/// Whether a line is a message the player typed: a user line from role 0.
pub open spec fn is_player_message(l: GameLine) -> bool {
    l.base.sender_role_id == Some(0i32) && l.base.attribute == LineAttribute::User
}

/// How many of the first `n` lines are player messages.
pub open spec fn player_messages_before(lines: Seq<GameLine>, n: int) -> nat
    decreases n,
{
    if n <= 0 {
        0
    } else {
        player_messages_before(lines, n - 1) + if is_player_message(lines[n - 1]) {
            1nat
        } else {
            0nat
        }
    }
}

/// The index of the `message_seq`-th player message (counting from 1), where a
/// rollback cuts the conversation. The lines before it hold `message_seq - 1`
/// player messages. None when there are fewer player messages (or for 0).
pub fn rollback_index(lines: &Vec<GameLine>, message_seq: u32) -> (r: Option<usize>)
    ensures
        match r {
            Some(idx) => {
                &&& idx < lines@.len()
                &&& is_player_message(lines@[idx as int])
                &&& player_messages_before(lines@, idx + 1) == message_seq
                &&& player_messages_before(lines@, idx as int) == message_seq - 1
            },
            None => forall|idx: int|
                0 <= idx < lines@.len() ==> !(is_player_message(#[trigger] lines@[idx])
                    && player_messages_before(lines@, idx + 1) == message_seq),
        },
{
    let mut count: u64 = 0;
    let mut i: usize = 0;
    while i < lines.len()
        invariant
            i <= lines.len(),
            count == player_messages_before(lines@, i as int),
            count <= i,
            forall|idx: int|
                0 <= idx < i ==> !(is_player_message(#[trigger] lines@[idx])
                    && player_messages_before(lines@, idx + 1) == message_seq),
        decreases lines.len() - i,
    {
        if lines[i].base.sender_role_id == Some(0i32) && lines[i].base.attribute
            == LineAttribute::User {
            if count + 1 == message_seq as u64 {
                return Some(i);
            }
            count = count + 1;
        }
        i = i + 1;
    }
    None
}

/// The error of a rollback to a player message that does not exist.
pub fn rollback_not_found_message(message_seq: u32) -> (r: String)
    ensures
        r@ == "未找到序号为 "@ + decimal(message_seq as nat) + " 的用户消息"@,
{
    let mut m = String::from_str("未找到序号为 ");
    let digits = u64_to_decimal(message_seq as u64);
    m.append(digits.as_str());
    m.append(" 的用户消息");
    m
}

/// What initialising the intro character does to the session, once its role
/// card is loaded.
pub struct IntroPlan {
    /// The player's name and subtitle, taken from the role card.
    pub player_user_name: String,
    pub player_user_subtitle: String,
    /// The role made current, put on stage and made the main role.
    pub role_id: i32,
    /// Whether a clothes-change narration is added for a restored outfit.
    pub clothes_change: bool,
    /// The role's system line, added last.
    pub system_line: GameLine,
}

/// The plan for initialising the intro character `character_id`, from its role
/// card's player name and subtitle, its AI name, the system prompt built for it
/// (`persona`) and its restored outfit. None when no character is given: the
/// session is then left without an intro character.
pub fn intro_plan(
    character_id: Option<i32>,
    user_name: String,
    user_subtitle: Option<String>,
    ai_name: String,
    persona: String,
    clothes: &str,
) -> (r: Option<IntroPlan>)
    ensures
        character_id is None ==> r is None,
        character_id matches Some(cid) ==> (r matches Some(p) && p.player_user_name == user_name
            && p.player_user_subtitle@ == or_empty(user_subtitle.deep_view()) && p.role_id == cid
            && p.clothes_change == (clothes@.len() > 0 && clothes@ != "default"@)
            && p.system_line.base.content == persona && p.system_line.base.attribute
            == LineAttribute::System && p.system_line.base.sender_role_id == Some(cid)
            && p.system_line.base.display_name == Some(ai_name) && p.system_line.base.id is None
            && p.system_line.perceived_role_ids@.len() == 0),
{
    let cid = match character_id {
        Some(c) => c,
        None => return None,
    };
    let subtitle = match user_subtitle {
        Some(s) => s,
        None => String::new(),
    };
    let clothes_change = needs_clothes_change_line(clothes);
    let system_line = GameLine::from_base(
        LineBase {
            id: None,
            content: persona,
            attribute: LineAttribute::System,
            sender_role_id: Some(cid),
            display_name: Some(ai_name),
        },
        Vec::new(),
    );
    Some(
        IntroPlan {
            player_user_name: user_name,
            player_user_subtitle: subtitle,
            role_id: cid,
            clothes_change,
            system_line,
        },
    )
}

} // verus!
