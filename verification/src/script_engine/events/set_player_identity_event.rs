//! Switches the player's identity during a script (a change of viewpoint).
//! `scope` is `chapter` (the default, restored when the chapter ends), `script`
//! (restored when the script ends) or `permanent` (never restored).

use vstd::prelude::*;

use super::{EventRegistry, ScriptEventKind};
use crate::types::PlayerIdentity;

verus! {

pub struct SetPlayerIdentityEvent {
    pub user_name: Option<String>,
    pub user_subtitle: Option<String>,
    pub user_prompt: Option<String>,
    pub scope: String,
}

/// The identity after an event: a given non-empty name, a given subtitle and a
/// given personality replace the current ones.
pub open spec fn spec_switched_identity(e: SetPlayerIdentityEvent, p: PlayerIdentity) -> PlayerIdentity {
    PlayerIdentity {
        user_name: match e.user_name {
            Some(n) => if n@.len() > 0 {
                n
            } else {
                p.user_name
            },
            None => p.user_name,
        },
        user_subtitle: match e.user_subtitle {
            Some(s) => s,
            None => p.user_subtitle,
        },
        user_prompt: match e.user_prompt {
            Some(s) => s,
            None => p.user_prompt,
        },
    }
}

/// The identity kept for restoring: the current one is recorded when none is
/// kept yet and the scope is not `permanent`.
pub open spec fn spec_recorded_identity(
    e: SetPlayerIdentityEvent,
    p: PlayerIdentity,
    kept: Option<PlayerIdentity>,
) -> Option<PlayerIdentity> {
    if kept is None && e.scope@ != "permanent"@ {
        Some(p)
    } else {
        kept
    }
}

impl SetPlayerIdentityEvent {
    /// Builds the event from the fields of its chapter entry; the scope defaults
    /// to `chapter`.
    pub fn from_event_data(
        user_name: Option<String>,
        user_subtitle: Option<String>,
        user_prompt: Option<String>,
        scope: Option<String>,
    ) -> (r: SetPlayerIdentityEvent)
        ensures
            r.user_name == user_name,
            r.user_subtitle == user_subtitle,
            r.user_prompt == user_prompt,
            r.scope@ == match scope {
                Some(s) => s@,
                None => "chapter"@,
            },
    {
        let scope = match scope {
            Some(s) => s,
            None => String::from_str("chapter"),
        };
        SetPlayerIdentityEvent { user_name, user_subtitle, user_prompt, scope }
    }

    pub fn event_type() -> (r: &'static str)
        ensures
            r@ == "set_player_identity"@,
    {
        "set_player_identity"
    }

    /// Applies the event to the running game's player identity, first recording
    /// the identity to restore later.
    pub fn execute(&self, player: &mut PlayerIdentity, identity_override: &mut Option<PlayerIdentity>)
        ensures
            *final(player) == spec_switched_identity(*self, *old(player)),
            *final(identity_override) == spec_recorded_identity(
                *self,
                *old(player),
                *old(identity_override),
            ),
    {
        proof {
            reveal_strlit("permanent");
        }
        let permanent = String::from_str("permanent");
        if identity_override.is_none() && !(self.scope == permanent) {
            *identity_override = Some(player.snapshot());
        }
        if let Some(name) = &self.user_name {
            if name.unicode_len() > 0 {
                player.user_name = name.clone();
            }
        }
        if let Some(subtitle) = &self.user_subtitle {
            player.user_subtitle = subtitle.clone();
        }
        if let Some(prompt) = &self.user_prompt {
            player.user_prompt = prompt.clone();
        }
    }
}

/// Registers the event under its type name.
pub fn register(registry: &mut EventRegistry)
    ensures
        final(registry).kind_of("set_player_identity"@) == Some(ScriptEventKind::SetPlayerIdentity),
        forall|other: Seq<char>|
            other != "set_player_identity"@ ==> final(registry).kind_of(other) == old(
                registry,
            ).kind_of(other),
{
    registry.register_event(SetPlayerIdentityEvent::event_type(), ScriptEventKind::SetPlayerIdentity);
}

/// The identity restored at the end of a scope is the one from before the
/// first switch: once recorded, later switches keep it, whatever their scope.
pub proof fn lemma_first_identity_is_kept(
    first: SetPlayerIdentityEvent,
    second: SetPlayerIdentityEvent,
    p: PlayerIdentity,
)
    requires
        first.scope@ != "permanent"@,
    ensures
        spec_recorded_identity(
            second,
            spec_switched_identity(first, p),
            spec_recorded_identity(first, p, None),
        ) == Some(p),
{
}

/// A `permanent` switch records nothing to restore.
pub proof fn lemma_permanent_records_nothing(e: SetPlayerIdentityEvent, p: PlayerIdentity)
    requires
        e.scope@ == "permanent"@,
    ensures
        spec_recorded_identity(e, p, None) is None,
{
}

} // verus!
