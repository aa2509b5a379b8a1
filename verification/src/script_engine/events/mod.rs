//! The script events and the registry that maps event type names to them.

use vstd::prelude::*;

use crate::text::str_eq;

pub mod ai_dialogue_event;
pub mod narration_event;
pub mod set_player_identity_event;

verus! {

/// The kinds of script event.
#[derive(Clone, Copy, Debug, PartialEq, Eq, Structural)]
pub enum ScriptEventKind {
    AiDialogue,
    Narration,
    SetPlayerIdentity,
}

impl DeepView for ScriptEventKind {
    type V = ScriptEventKind;

    open spec fn deep_view(&self) -> ScriptEventKind {
        *self
    }
}

/// The kind registered under `name`, the first entry with that name.
pub open spec fn registered_kind(entries: Seq<(Seq<char>, ScriptEventKind)>, name: Seq<char>) -> Option<
    ScriptEventKind,
>
    decreases entries.len(),
{
    if entries.len() == 0 {
        None
    } else if entries[0].0 == name {
        Some(entries[0].1)
    } else {
        registered_kind(entries.drop_first(), name)
    }
}

/// Maps event type names (as written in chapter files) to event kinds.
pub struct EventRegistry {
    pub entries: Vec<(String, ScriptEventKind)>,
}

impl EventRegistry {
    /// The kind each name resolves to.
    pub open spec fn kind_of(&self, name: Seq<char>) -> Option<ScriptEventKind> {
        registered_kind(self.entries.deep_view(), name)
    }

    /// A registry with nothing registered.
    pub fn new() -> (r: EventRegistry)
        ensures
            forall|name: Seq<char>| r.kind_of(name) is None,
    {
        let r = EventRegistry { entries: Vec::new() };
        assert(r.entries.deep_view() =~= Seq::<(Seq<char>, ScriptEventKind)>::empty());
        r
    }

    /// Registers `kind` under `name`, replacing an earlier registration of `name`.
    pub fn register_event(&mut self, name: &str, kind: ScriptEventKind)
        ensures
            final(self).kind_of(name@) == Some(kind),
            forall|other: Seq<char>| other != name@ ==> final(self).kind_of(other) == old(self).kind_of(
                other,
            ),
    {
        let ghost old_entries = self.entries.deep_view();
        let mut i: usize = 0;
        while i < self.entries.len()
            invariant
                i <= self.entries.len(),
                self.entries.deep_view() == old_entries,
                old_entries == old(self).entries.deep_view(),
                forall|j: int| 0 <= j < i ==> #[trigger] old_entries[j].0 != name@,
            decreases self.entries.len() - i,
        {
            if str_eq(self.entries[i].0.as_str(), name) {
                let ghost before = self.entries.deep_view();
                let key = String::from_str(name);
                self.entries.set(i, (key, kind));
                proof {
                    assert(self.entries.deep_view() =~= before.update(i as int, (name@, kind)));
                    assert forall|other: Seq<char>|
                        #[trigger] registered_kind(self.entries.deep_view(), other) == if other == name@ {
                            Some(kind)
                        } else {
                            registered_kind(before, other)
                        } by {
                        lemma_registered_kind_update(before, i as int, name@, kind, other);
                    }
                }
                return;
            }
            i = i + 1;
        }
        let ghost before = self.entries.deep_view();
        self.entries.push((String::from_str(name), kind));
        proof {
            assert(self.entries.deep_view() =~= before.push((name@, kind)));
            assert forall|other: Seq<char>|
                #[trigger] registered_kind(self.entries.deep_view(), other) == if other == name@ {
                    Some(kind)
                } else {
                    registered_kind(before, other)
                } by {
                lemma_registered_kind_push(before, name@, kind, other);
            }
        }
    }

    /// The kind registered for an event type name.
    pub fn resolve(&self, name: &str) -> (r: Option<ScriptEventKind>)
        ensures
            r == self.kind_of(name@),
    {
        let mut i: usize = 0;
        assert(self.entries.deep_view().skip(0) =~= self.entries.deep_view());
        while i < self.entries.len()
            invariant
                i <= self.entries.len(),
                registered_kind(self.entries.deep_view(), name@) == registered_kind(
                    self.entries.deep_view().skip(i as int),
                    name@,
                ),
            decreases self.entries.len() - i,
        {
            let ghost rest = self.entries.deep_view().skip(i as int);
            assert(rest.drop_first() =~= self.entries.deep_view().skip(i + 1));
            if str_eq(self.entries[i].0.as_str(), name) {
                return Some(self.entries[i].1);
            }
            i = i + 1;
        }
        None
    }
}

proof fn lemma_registered_kind_update(
    entries: Seq<(Seq<char>, ScriptEventKind)>,
    i: int,
    name: Seq<char>,
    kind: ScriptEventKind,
    other: Seq<char>,
)
    requires
        0 <= i < entries.len(),
        entries[i].0 == name,
        forall|j: int| 0 <= j < i ==> #[trigger] entries[j].0 != name,
    ensures
        registered_kind(entries.update(i, (name, kind)), other) == if other == name {
            Some(kind)
        } else {
            registered_kind(entries, other)
        },
    decreases i,
{
    let u = entries.update(i, (name, kind));
    if i > 0 {
        assert(u.drop_first() =~= entries.drop_first().update(i - 1, (name, kind)));
        assert forall|j: int| 0 <= j < i - 1 implies #[trigger] entries.drop_first()[j].0
            != name by {
            assert(entries.drop_first()[j] == entries[j + 1]);
        }
        lemma_registered_kind_update(entries.drop_first(), i - 1, name, kind, other);
        assert(u[0] == entries[0]);
    } else {
        assert(u.drop_first() =~= entries.drop_first());
    }
}

proof fn lemma_registered_kind_push(
    entries: Seq<(Seq<char>, ScriptEventKind)>,
    name: Seq<char>,
    kind: ScriptEventKind,
    other: Seq<char>,
)
    requires
        forall|j: int| 0 <= j < entries.len() ==> #[trigger] entries[j].0 != name,
    ensures
        registered_kind(entries.push((name, kind)), other) == if other == name {
            Some(kind)
        } else {
            registered_kind(entries, other)
        },
    decreases entries.len(),
{
    let p = entries.push((name, kind));
    if entries.len() == 0 {
        reveal_with_fuel(registered_kind, 2);
        assert(p.drop_first() =~= Seq::<(Seq<char>, ScriptEventKind)>::empty());
    } else {
        assert(p.drop_first() =~= entries.drop_first().push((name, kind)));
        assert forall|j: int| 0 <= j < entries.drop_first().len() implies #[trigger] entries.drop_first()[j].0
            != name by {
            assert(entries.drop_first()[j] == entries[j + 1]);
        }
        lemma_registered_kind_push(entries.drop_first(), name, kind, other);
        assert(p[0] == entries[0]);
    }
}

/// The registry with the three event kinds registered under their type names.
pub fn init_event_registry() -> (r: EventRegistry)
    ensures
        r.kind_of("ai_dialogue"@) == Some(ScriptEventKind::AiDialogue),
        r.kind_of("narration"@) == Some(ScriptEventKind::Narration),
        r.kind_of("set_player_identity"@) == Some(ScriptEventKind::SetPlayerIdentity),
{
    let mut r = EventRegistry::new();
    ai_dialogue_event::register(&mut r);
    narration_event::register(&mut r);
    set_player_identity_event::register(&mut r);
    proof {
        reveal_strlit("ai_dialogue");
        reveal_strlit("narration");
        reveal_strlit("set_player_identity");
        assert("ai_dialogue"@.len() != "narration"@.len());
        assert("ai_dialogue"@.len() != "set_player_identity"@.len());
        assert("narration"@.len() != "set_player_identity"@.len());
    }
    r
}

} // verus!
