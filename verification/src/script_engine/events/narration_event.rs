//! Narration: narrator text shown line by line, then stored as one line.

use vstd::prelude::*;

use super::{EventRegistry, ScriptEventKind};
use crate::text::{keep_nonempty, nonempty_pieces, split_on, split_str};
use crate::types::{GameLine, LineAttribute, LineBase};

verus! {

pub struct NarrationEvent {
    pub text: String,
    pub display_name: Option<String>,
    /// Whether the chapter entry gives a `duration`, so that the lines advance
    /// on their own instead of waiting for the player.
    pub auto_advance: bool,
}

/// The name shown for the narrator when the event names none.
pub open spec fn narrator_name() -> Seq<char> {
    "旁白"@
}

impl NarrationEvent {
    /// Builds the event from the fields of its chapter entry; the text defaults
    /// to the empty text.
    pub fn from_event_data(text: Option<String>, display_name: Option<String>, auto_advance: bool) -> (r:
        NarrationEvent)
        ensures
            r.text@ == match text {
                Some(t) => t@,
                None => Seq::<char>::empty(),
            },
            r.display_name == display_name,
            r.auto_advance == auto_advance,
    {
        let text = match text {
            Some(t) => t,
            None => String::new(),
        };
        NarrationEvent { text, display_name, auto_advance }
    }

    pub fn event_type() -> (r: &'static str)
        ensures
            r@ == "narration"@,
    {
        "narration"
    }

    /// The lines shown one after another: the text split at line feeds, empty
    /// lines left out.
    pub fn display_lines(&self) -> (r: Vec<String>)
        ensures
            r.deep_view() == keep_nonempty(split_on(self.text@, '\n')),
    {
        nonempty_pieces(split_str(self.text.as_str(), '\n'))
    }

    /// Whether each shown line waits for the player's "continue".
    pub fn waits_for_player(&self) -> (b: bool)
        ensures
            b == !self.auto_advance,
    {
        !self.auto_advance
    }

    /// The line stored once every shown line was read: the given content, as a
    /// user line from role 0 under the event's display name or `旁白`.
    pub fn narration_line(&self, content: String) -> (r: GameLine)
        ensures
            r.base.content == content,
            r.base.attribute == LineAttribute::User,
            r.base.sender_role_id == Some(0i32),
            r.base.id is None,
            r.base.display_name.deep_view() == Some(
                match self.display_name {
                    Some(d) => d@,
                    None => narrator_name(),
                },
            ),
            r.perceived_role_ids@.len() == 0,
    {
        let display_name = match &self.display_name {
            Some(d) => d.clone(),
            None => String::from_str("旁白"),
        };
        GameLine::from_base(
            LineBase {
                id: None,
                content,
                attribute: LineAttribute::User,
                sender_role_id: Some(0),
                display_name: Some(display_name),
            },
            Vec::new(),
        )
    }
}

/// Registers the event under its type name.
pub fn register(registry: &mut EventRegistry)
    ensures
        final(registry).kind_of("narration"@) == Some(ScriptEventKind::Narration),
        forall|other: Seq<char>|
            other != "narration"@ ==> final(registry).kind_of(other) == old(registry).kind_of(other),
{
    registry.register_event(NarrationEvent::event_type(), ScriptEventKind::Narration);
}

} // verus!
