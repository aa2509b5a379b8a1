//! AI dialogue: makes a role the current speaker and has the model reply. A
//! failed generation is retried automatically three times, waiting 1, 2 and 3
//! seconds; then the player is asked to continue, and the count starts again.

use vstd::prelude::*;

use super::{EventRegistry, ScriptEventKind};
use crate::text::{decimal, u64_to_decimal};
use crate::types::{GameLine, LineAttribute, LineBase};

verus! {

pub struct AIDialogueEvent {
    pub character: String,
    pub prompt: Option<String>,
}

/// What to do after a failed generation.
#[derive(Debug, PartialEq, Eq, Structural)]
pub enum RetryAction {
    /// Wait this many seconds, then generate again.
    Sleep { secs: u64 },
    /// Tell the player that `failures` attempts failed and wait for "continue".
    AskPlayer { failures: u64 },
}

/// The retry counter and the action after one more failure.
pub open spec fn spec_after_failure(attempt: u64) -> (RetryAction, u64) {
    let failures = attempt + 1;
    if failures > 3 {
        (RetryAction::AskPlayer { failures: failures as u64 }, 0u64)
    } else {
        (RetryAction::Sleep { secs: failures as u64 }, failures as u64)
    }
}

/// The counter after `k` failures, starting from zero.
pub open spec fn attempt_after(k: nat) -> u64
    decreases k,
{
    if k == 0 {
        0
    } else {
        spec_after_failure(attempt_after((k - 1) as nat)).1
    }
}

impl AIDialogueEvent {
    /// Builds the event from the fields of its chapter entry; the character
    /// defaults to `MAIN`.
    pub fn from_event_data(character: Option<String>, prompt: Option<String>) -> (r: AIDialogueEvent)
        ensures
            r.character@ == match character {
                Some(c) => c@,
                None => "MAIN"@,
            },
            r.prompt == prompt,
    {
        let character = match character {
            Some(c) => c,
            None => String::from_str("MAIN"),
        };
        AIDialogueEvent { character, prompt }
    }

    pub fn event_type() -> (r: &'static str)
        ensures
            r@ == "ai_dialogue"@,
    {
        "ai_dialogue"
    }

    /// The narrator line that carries the event's prompt, with the given
    /// (plot-prompt) content: a user line shown as `旁白`.
    pub fn prompt_line(&self, content: String) -> (r: GameLine)
        ensures
            r.base.content == content,
            r.base.attribute == LineAttribute::User,
            r.base.sender_role_id is None,
            r.base.id is None,
            r.base.display_name.deep_view() == Some("旁白"@),
            r.perceived_role_ids@.len() == 0,
    {
        GameLine::from_base(
            LineBase {
                id: None,
                content,
                attribute: LineAttribute::User,
                sender_role_id: None,
                display_name: Some(String::from_str("旁白")),
            },
            Vec::new(),
        )
    }
}

/// The action after a failed generation and the new retry counter: the fourth
/// failure in a row asks the player and resets the counter, the others wait as
/// many seconds as failures so far.
pub fn after_generation_failure(attempt: u64) -> (r: (RetryAction, u64))
    requires
        attempt <= 3,
    ensures
        r == spec_after_failure(attempt),
{
    let failures = attempt + 1;
    if failures > 3 {
        (RetryAction::AskPlayer { failures }, 0)
    } else {
        (RetryAction::Sleep { secs: failures }, failures)
    }
}

/// The event's first refusal: no script is running.
pub fn require_script_status<T>(status: Option<T>) -> (r: Result<T, String>)
    ensures
        match status {
            Some(s) => r == Ok::<T, String>(s),
            None => r matches Err(m) && m@ == "ScriptStatus 未设置"@,
        },
{
    match status {
        Some(s) => Ok(s),
        None => Err(String::from_str("ScriptStatus 未设置")),
    }
}

/// The event's second refusal: the role found for the character has no id.
pub fn require_role_id(role_id: Option<i32>) -> (r: Result<i32, String>)
    ensures
        match role_id {
            Some(id) => r == Ok::<i32, String>(id),
            None => r matches Err(m) && m@ == "角色 ID 未设置"@,
        },
{
    match role_id {
        Some(id) => Ok(id),
        None => Err(String::from_str("角色 ID 未设置")),
    }
}

/// The message that ends the script when no model is configured.
pub open spec fn no_model_message() -> Seq<char> {
    "尚未配置大模型，无法执行「AI 对话」事件，剧本终止。请先在设置里配置并选择模型。"@
}

/// The event's third refusal: no language model is configured; the script ends
/// rather than continue with placeholder text.
pub fn require_model<L>(llm: Option<L>) -> (r: Result<L, String>)
    ensures
        match llm {
            Some(l) => r == Ok::<L, String>(l),
            None => r matches Err(m) && m@ == no_model_message(),
        },
{
    match llm {
        Some(l) => Ok(l),
        None => Err(String::from_str("尚未配置大模型，无法执行「AI 对话」事件，剧本终止。请先在设置里配置并选择模型。")),
    }
}

/// The message shown when the automatic retries are used up.
pub fn retry_message(failures: u64) -> (r: String)
    ensures
        r@ == "AI 响应失败（已尝试 "@ + decimal(failures as nat) + " 次），点击「继续」重试"@,
{
    let mut m = String::from_str("AI 响应失败（已尝试 ");
    let digits = u64_to_decimal(failures);
    m.append(digits.as_str());
    m.append(" 次），点击「继续」重试");
    m
}

/// The retry cycle: after `k` failures in a row the counter is `k % 4`, and the
/// `k`-th failure asks the player exactly when `k` is a multiple of 4; the others
/// wait `k % 4` seconds.
pub proof fn lemma_retry_cycle(k: nat)
    ensures
        attempt_after(k) == k % 4,
        k > 0 ==> (spec_after_failure(attempt_after((k - 1) as nat)).0 == if k % 4 == 0 {
            RetryAction::AskPlayer { failures: 4 }
        } else {
            RetryAction::Sleep { secs: (k % 4) as u64 }
        }),
    decreases k,
{
    if k > 0 {
        lemma_retry_cycle((k - 1) as nat);
    }
}

/// Registers the event under its type name.
pub fn register(registry: &mut EventRegistry)
    ensures
        final(registry).kind_of("ai_dialogue"@) == Some(ScriptEventKind::AiDialogue),
        forall|other: Seq<char>|
            other != "ai_dialogue"@ ==> final(registry).kind_of(other) == old(registry).kind_of(other),
{
    registry.register_event(AIDialogueEvent::event_type(), ScriptEventKind::AiDialogue);
}

} // verus!
