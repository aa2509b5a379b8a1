//! Rebuilding the system (persona) lines after the player's identity changed:
//! each system line is rebuilt as a whole from its role's settings, instead of
//! replacing the old name inside the text (which would hit short names).

use vstd::prelude::*;

use crate::text::{trim, trim_str};
use crate::types::{GameLine, LineAttribute};

verus! {

/// A sequence of role ids in strictly increasing order, so without repeats.
pub open spec fn strictly_increasing(s: Seq<i32>) -> bool {
    forall|i: int, j: int| 0 <= i < j < s.len() ==> s[i] < s[j]
}

/// Inserts `x` into a strictly increasing vector, keeping it so.
pub fn insert_sorted_unique(v: &mut Vec<i32>, x: i32)
    requires
        strictly_increasing(old(v)@),
    ensures
        strictly_increasing(final(v)@),
        final(v)@.to_set() == old(v)@.to_set().insert(x),
{
    let mut pos: usize = 0;
    while pos < v.len() && v[pos] < x
        invariant
            pos <= v.len(),
            v@ == old(v)@,
            strictly_increasing(v@),
            forall|j: int| 0 <= j < pos ==> v@[j] < x,
        decreases v.len() - pos,
    {
        pos = pos + 1;
    }
    if pos < v.len() && v[pos] == x {
        assert(v@.to_set() =~= v@.to_set().insert(x)) by {
            assert(v@.contains(x));
        }
        return;
    }
    let ghost before = v@;
    v.insert(pos, x);
    proof {
        assert(v@ == before.insert(pos as int, x));
        assert forall|i: int, j: int| 0 <= i < j < v@.len() implies v@[i] < v@[j] by {
            if j < pos {
            } else if j == pos {
            } else if i < pos {
            } else if i == pos {
                assert(before[j - 1] >= x || j - 1 >= before.len());
                assert(before[pos as int] > x);
                if j - 1 > pos {
                    assert(before[pos as int] < before[j - 1]);
                }
            } else {
            }
        }
        assert forall|y: i32| v@.to_set().contains(y) <==> before.to_set().insert(x).contains(y) by {
            if v@.contains(y) {
                let k = choose|k: int| 0 <= k < v@.len() && v@[k] == y;
                if k < pos {
                    assert(before[k] == y);
                } else if k > pos {
                    assert(before[k - 1] == y);
                }
            }
            if before.contains(y) {
                let k = choose|k: int| 0 <= k < before.len() && before[k] == y;
                if k < pos {
                    assert(v@[k] == y);
                } else {
                    assert(v@[k + 1] == y);
                }
            }
            if y == x {
                assert(v@[pos as int] == x);
            }
        }
        assert(v@.to_set() =~= before.to_set().insert(x));
    }
}

/// Whether line `l` is a system line sent by role `rid`.
pub open spec fn is_system_line_of(l: GameLine, rid: i32) -> bool {
    l.base.attribute == LineAttribute::System && l.base.sender_role_id == Some(rid)
}

/// The roles that send at least one system line.
pub open spec fn system_senders(lines: Seq<GameLine>) -> Set<i32> {
    Set::new(|rid: i32| exists|i: int| 0 <= i < lines.len() && is_system_line_of(lines[i], rid))
}

/// The senders of the first `i + 1` lines: those of the first `i`, with the
/// sender of line `i` added when it is a system line.
proof fn lemma_system_senders_step(lines: Seq<GameLine>, i: int)
    requires
        0 <= i < lines.len(),
    ensures
        system_senders(lines.subrange(0, i + 1)) == if lines[i].base.attribute
            == LineAttribute::System && lines[i].base.sender_role_id is Some {
            system_senders(lines.subrange(0, i)).insert(lines[i].base.sender_role_id->0)
        } else {
            system_senders(lines.subrange(0, i))
        },
{
    let prev = lines.subrange(0, i);
    let next = lines.subrange(0, i + 1);
    let expected = if lines[i].base.attribute == LineAttribute::System
        && lines[i].base.sender_role_id is Some {
        system_senders(prev).insert(lines[i].base.sender_role_id->0)
    } else {
        system_senders(prev)
    };
    assert forall|y: i32| system_senders(next).contains(y) <==> expected.contains(y) by {
        if system_senders(next).contains(y) {
            let k = choose|k: int| 0 <= k < next.len() && is_system_line_of(next[k], y);
            if k < i {
                assert(is_system_line_of(prev[k], y));
            }
        }
        if system_senders(prev).contains(y) {
            let k = choose|k: int| 0 <= k < prev.len() && is_system_line_of(prev[k], y);
            assert(is_system_line_of(next[k], y));
        }
        if lines[i].base.attribute == LineAttribute::System && lines[i].base.sender_role_id
            == Some(y) {
            assert(is_system_line_of(next[i], y));
        }
    }
    assert(system_senders(next) =~= expected);
}

/// The roles that send a system line, each once, in increasing order.
pub fn system_sender_role_ids(lines: &Vec<GameLine>) -> (r: Vec<i32>)
    ensures
        strictly_increasing(r@),
        r@.to_set() == system_senders(lines@),
{
    let mut ids: Vec<i32> = Vec::new();
    let mut i: usize = 0;
    assert(ids@.to_set() =~= system_senders(lines@.subrange(0, 0)));
    while i < lines.len()
        invariant
            i <= lines.len(),
            strictly_increasing(ids@),
            ids@.to_set() == system_senders(lines@.subrange(0, i as int)),
        decreases lines.len() - i,
    {
        proof {
            lemma_system_senders_step(lines@, i as int);
        }
        if lines[i].base.attribute == LineAttribute::System {
            if let Some(rid) = lines[i].base.sender_role_id {
                insert_sorted_unique(&mut ids, rid);
            }
        }
        i = i + 1;
    }
    assert(lines@.subrange(0, lines@.len() as int) =~= lines@);
    ids
}

/// The rebuilt persona text for role `rid`: that of the first entry for `rid`
/// that has one.
pub open spec fn prompt_for(prompts: Seq<(i32, Option<Seq<char>>)>, rid: i32) -> Option<Seq<char>>
    decreases prompts.len(),
{
    if prompts.len() == 0 {
        None
    } else if prompts[0].0 == rid && prompts[0].1 is Some {
        prompts[0].1
    } else {
        prompt_for(prompts.drop_first(), rid)
    }
}

/// The new content of a line: the rebuilt persona text of its role when it is a
/// system line whose role has one.
pub open spec fn rebuilt_content(l: GameLine, prompts: Seq<(i32, Option<Seq<char>>)>) -> Option<
    Seq<char>,
> {
    if l.base.attribute == LineAttribute::System && l.base.sender_role_id is Some {
        prompt_for(prompts, l.base.sender_role_id->0)
    } else {
        None
    }
}

/// How many of the lines get a new content.
pub open spec fn rebuilt_count(lines: Seq<GameLine>, prompts: Seq<(i32, Option<Seq<char>>)>) -> nat
    decreases lines.len(),
{
    if lines.len() == 0 {
        0
    } else {
        rebuilt_count(lines.drop_last(), prompts) + if rebuilt_content(lines.last(), prompts) is Some {
            1nat
        } else {
            0nat
        }
    }
}

fn find_prompt(prompts: &Vec<(i32, Option<String>)>, rid: i32) -> (r: Option<&String>)
    ensures
        r.deep_view() == prompt_for(prompts.deep_view(), rid),
{
    let mut i: usize = 0;
    assert(prompts.deep_view().skip(0) =~= prompts.deep_view());
    while i < prompts.len()
        invariant
            i <= prompts.len(),
            prompt_for(prompts.deep_view(), rid) == prompt_for(prompts.deep_view().skip(i as int), rid),
        decreases prompts.len() - i,
    {
        let ghost rest = prompts.deep_view().skip(i as int);
        assert(rest.drop_first() =~= prompts.deep_view().skip(i + 1));
        if prompts[i].0 == rid {
            if let Some(p) = &prompts[i].1 {
                return Some(p);
            }
        }
        i = i + 1;
    }
    None
}

/// How many of the lines are system lines.
pub open spec fn system_line_count(lines: Seq<GameLine>) -> nat
    decreases lines.len(),
{
    if lines.len() == 0 {
        0
    } else {
        system_line_count(lines.drop_last()) + if lines.last().base.attribute
            == LineAttribute::System {
            1nat
        } else {
            0nat
        }
    }
}

/// Only persona lines are rebuilt: a line that is not a system line, or that
/// has no sender, never gets a new content, whatever texts are given; and a
/// rebuilt line's new content is one of the given texts for its sender.
pub proof fn lemma_only_system_lines_are_rebuilt(l: GameLine, prompts: Seq<(i32, Option<Seq<char>>)>)
    ensures
        l.base.attribute != LineAttribute::System ==> rebuilt_content(l, prompts) is None,
        l.base.sender_role_id is None ==> rebuilt_content(l, prompts) is None,
        rebuilt_content(l, prompts) matches Some(c) ==> exists|k: int|
            0 <= k < prompts.len() && prompts[k].0 == l.base.sender_role_id->0 && prompts[k].1
                == Some(c),
{
    if rebuilt_content(l, prompts) is Some {
        lemma_prompt_for_found(prompts, l.base.sender_role_id->0);
    }
}

proof fn lemma_prompt_for_found(prompts: Seq<(i32, Option<Seq<char>>)>, rid: i32)
    requires
        prompt_for(prompts, rid) is Some,
    ensures
        exists|k: int|
            0 <= k < prompts.len() && prompts[k].0 == rid && prompts[k].1 == prompt_for(
                prompts,
                rid,
            ),
    decreases prompts.len(),
{
    if prompts[0].0 == rid && prompts[0].1 is Some {
        assert(prompts[0].1 == prompt_for(prompts, rid));
    } else {
        lemma_prompt_for_found(prompts.drop_first(), rid);
        let k = choose|k: int|
            0 <= k < prompts.drop_first().len() && prompts.drop_first()[k].0 == rid
                && prompts.drop_first()[k].1 == prompt_for(prompts.drop_first(), rid);
        assert(prompts[k + 1] == prompts.drop_first()[k]);
    }
}

/// No more lines are rebuilt than there are system lines.
pub proof fn lemma_rebuilt_count_bounded(lines: Seq<GameLine>, prompts: Seq<(i32, Option<Seq<char>>)>)
    ensures
        rebuilt_count(lines, prompts) <= system_line_count(lines),
    decreases lines.len(),
{
    if lines.len() > 0 {
        lemma_rebuilt_count_bounded(lines.drop_last(), prompts);
        lemma_only_system_lines_are_rebuilt(lines.last(), prompts);
    }
}

/// Rebuilds the system lines from the given persona texts, one per role (the
/// caller builds them from each role's settings with the new player name and
/// player settings). A system line whose role has no text is kept as it is.
/// Only the content changes; ids and every other field stay. Returns how many
/// lines were rebuilt.
pub fn rebuild_system_lines(lines: &mut Vec<GameLine>, prompts: &Vec<(i32, Option<String>)>) -> (r:
    usize)
    ensures
        final(lines)@.len() == old(lines)@.len(),
        forall|i: int|
            0 <= i < old(lines)@.len() ==> {
                let before = #[trigger] old(lines)@[i];
                let after = final(lines)@[i];
                &&& after.base.content@ == match rebuilt_content(before, prompts.deep_view()) {
                    Some(c) => c,
                    None => before.base.content@,
                }
                &&& after.base.id == before.base.id
                &&& after.base.attribute == before.base.attribute
                &&& after.base.sender_role_id == before.base.sender_role_id
                &&& after.base.display_name == before.base.display_name
                &&& after.perceived_role_ids == before.perceived_role_ids
            },
        r == rebuilt_count(old(lines)@, prompts.deep_view()),
        forall|i: int|
            0 <= i < old(lines)@.len() && (#[trigger] old(lines)@[i]).base.attribute
                != LineAttribute::System ==> final(lines)@[i].base.content@ == old(
                lines,
            )@[i].base.content@,
        r <= system_line_count(old(lines)@),
{
    let ghost original = lines@;
    let mut rebuilt: usize = 0;
    let mut i: usize = 0;
    while i < lines.len()
        invariant
            i <= lines.len(),
            lines@.len() == original.len(),
            original == old(lines)@,
            rebuilt == rebuilt_count(original.subrange(0, i as int), prompts.deep_view()),
            rebuilt <= i,
            forall|j: int|
                i <= j < original.len() ==> #[trigger] lines@[j] == original[j],
            forall|j: int|
                0 <= j < i ==> {
                    let before = #[trigger] original[j];
                    let after = lines@[j];
                    &&& after.base.content@ == match rebuilt_content(before, prompts.deep_view()) {
                        Some(c) => c,
                        None => before.base.content@,
                    }
                    &&& after.base.id == before.base.id
                    &&& after.base.attribute == before.base.attribute
                    &&& after.base.sender_role_id == before.base.sender_role_id
                    &&& after.base.display_name == before.base.display_name
                    &&& after.perceived_role_ids == before.perceived_role_ids
                },
        decreases lines.len() - i,
    {
        let ghost prev = original.subrange(0, i as int);
        let ghost next = original.subrange(0, i + 1);
        assert(next.drop_last() =~= prev);
        let is_system = lines[i].base.attribute == LineAttribute::System;
        let sender = lines[i].base.sender_role_id;
        if is_system {
            if let Some(rid) = sender {
                if let Some(content) = find_prompt(prompts, rid) {
                    lines[i].base.content = content.clone();
                    rebuilt = rebuilt + 1;
                }
            }
        }
        i = i + 1;
    }
    assert(original.subrange(0, original.len() as int) =~= original);
    proof {
        lemma_rebuilt_count_bounded(original, prompts.deep_view());
        assert forall|i: int|
            0 <= i < original.len() && (#[trigger] original[i]).base.attribute
                != LineAttribute::System implies lines@[i].base.content@ == original[i].base.content@ by {
            lemma_only_system_lines_are_rebuilt(original[i], prompts.deep_view());
        }
    }
    rebuilt
}

/// Whether a role card has a persona prompt worth a system line: one that is
/// not blank.
pub open spec fn spec_has_persona_prompt(system_prompt: Option<Seq<char>>) -> bool {
    match system_prompt {
        Some(p) => trim(p).len() > 0,
        None => false,
    }
}

pub fn has_persona_prompt(system_prompt: &Option<String>) -> (b: bool)
    ensures
        b == spec_has_persona_prompt(system_prompt.deep_view()),
{
    match system_prompt {
        Some(p) => trim_str(p.as_str()).unicode_len() > 0,
        None => false,
    }
}

/// The roles that take part in the conversation: the senders of lines other
/// than the player (role 0), and the roles present on stage.
pub open spec fn involved_roles(lines: Seq<GameLine>, present: Seq<i32>) -> Set<i32> {
    Set::new(
        |rid: i32|
            (rid != 0 && exists|i: int|
                0 <= i < lines.len() && #[trigger] lines[i].base.sender_role_id == Some(rid))
                || present.contains(rid),
    )
}

/// The roles that take part but have no system line: after a save is loaded,
/// these get their persona line back. Each once, in increasing order.
pub fn roles_missing_system_line(lines: &Vec<GameLine>, present_role_ids: &Vec<i32>) -> (r: Vec<
    i32,
>)
    ensures
        strictly_increasing(r@),
        r@.to_set() == involved_roles(lines@, present_role_ids@).difference(system_senders(lines@)),
        forall|i: int|
            0 <= i < lines@.len() && (#[trigger] lines@[i]).base.sender_role_id is Some
                && lines@[i].base.sender_role_id->0 != 0 && !system_senders(lines@).contains(
                lines@[i].base.sender_role_id->0,
            ) ==> r@.contains(lines@[i].base.sender_role_id->0),
{
    let mut involved: Vec<i32> = Vec::new();
    let mut i: usize = 0;
    while i < lines.len()
        invariant
            i <= lines.len(),
            strictly_increasing(involved@),
            forall|rid: i32|
                involved@.to_set().contains(rid) <==> (rid != 0 && exists|j: int|
                    0 <= j < i && #[trigger] lines@[j].base.sender_role_id == Some(rid)),
        decreases lines.len() - i,
    {
        if let Some(sid) = lines[i].base.sender_role_id {
            if sid != 0 {
                let ghost before = involved@;
                insert_sorted_unique(&mut involved, sid);
                assert forall|rid: i32|
                    involved@.to_set().contains(rid) <==> (rid != 0 && exists|j: int|
                        0 <= j < i + 1 && #[trigger] lines@[j].base.sender_role_id == Some(rid)) by {
                    if rid != 0 && exists|j: int|
                        0 <= j < i + 1 && #[trigger] lines@[j].base.sender_role_id == Some(rid) {
                        let j = choose|j: int|
                            0 <= j < i + 1 && #[trigger] lines@[j].base.sender_role_id == Some(rid);
                        if j < i {
                            assert(before.to_set().contains(rid));
                        }
                    }
                }
            }
        }
        i = i + 1;
    }
    let mut k: usize = 0;
    while k < present_role_ids.len()
        invariant
            k <= present_role_ids.len(),
            strictly_increasing(involved@),
            forall|rid: i32|
                involved@.to_set().contains(rid) <==> ((rid != 0 && exists|j: int|
                    0 <= j < lines@.len() && #[trigger] lines@[j].base.sender_role_id == Some(rid))
                    || present_role_ids@.subrange(0, k as int).contains(rid)),
        decreases present_role_ids.len() - k,
    {
        let ghost before = involved@;
        insert_sorted_unique(&mut involved, present_role_ids[k]);
        assert forall|rid: i32|
            present_role_ids@.subrange(0, k + 1).contains(rid) <==> (present_role_ids@.subrange(
                0,
                k as int,
            ).contains(rid) || rid == present_role_ids@[k as int]) by {
            if present_role_ids@.subrange(0, k + 1).contains(rid) {
                let j = choose|j: int| 0 <= j < k + 1 && #[trigger] present_role_ids@.subrange(0, k + 1)[j] == rid;
                if j < k {
                    assert(present_role_ids@.subrange(0, k as int)[j] == rid);
                }
            }
            if present_role_ids@.subrange(0, k as int).contains(rid) {
                let j = choose|j: int| 0 <= j < k && #[trigger] present_role_ids@.subrange(0, k as int)[j] == rid;
                assert(present_role_ids@.subrange(0, k + 1)[j] == rid);
            }
            if rid == present_role_ids@[k as int] {
                assert(present_role_ids@.subrange(0, k + 1)[k as int] == rid);
            }
        }
        assert forall|rid: i32|
            involved@.to_set().contains(rid) <==> ((rid != 0 && exists|j: int|
                0 <= j < lines@.len() && #[trigger] lines@[j].base.sender_role_id == Some(rid))
                || present_role_ids@.subrange(0, k + 1).contains(rid)) by {
            assert(involved@.to_set().contains(rid) == (before.to_set().contains(rid) || rid
                == present_role_ids@[k as int]));
        }
        k = k + 1;
    }
    assert(present_role_ids@.subrange(0, present_role_ids@.len() as int) =~= present_role_ids@);
    let with_system = system_sender_role_ids(lines);
    let mut out: Vec<i32> = Vec::new();
    let mut m: usize = 0;
    while m < involved.len()
        invariant
            m <= involved.len(),
            strictly_increasing(involved@),
            strictly_increasing(out@),
            with_system@.to_set() == system_senders(lines@),
            forall|j: int| 0 <= j < out@.len() ==> exists|t: int| 0 <= t < m && #[trigger] out@[j] == involved@[t],
            forall|rid: i32|
                out@.to_set().contains(rid) <==> (exists|t: int|
                    0 <= t < m && #[trigger] involved@[t] == rid) && !with_system@.contains(rid),
        decreases involved.len() - m,
    {
        let x = involved[m];
        let mut present_in_system = false;
        let mut q: usize = 0;
        while q < with_system.len()
            invariant
                q <= with_system.len(),
                present_in_system == exists|t: int| 0 <= t < q && with_system@[t] == x,
            decreases with_system.len() - q,
        {
            if with_system[q] == x {
                present_in_system = true;
            }
            q = q + 1;
        }
        if !present_in_system {
            let ghost before = out@;
            out.push(x);
            assert forall|a: int, b: int| 0 <= a < b < out@.len() implies out@[a] < out@[b] by {
                if b == out@.len() - 1 && a < b {
                    let t = choose|t: int| 0 <= t < m && #[trigger] out@[a] == involved@[t];
                    assert(involved@[t] < involved@[m as int]);
                }
            }
            assert forall|j: int| 0 <= j < out@.len() implies exists|t: int|
                0 <= t < m + 1 && #[trigger] out@[j] == involved@[t] by {
                if j < before.len() {
                    let t = choose|t: int| 0 <= t < m && #[trigger] before[j] == involved@[t];
                    assert(out@[j] == involved@[t]);
                } else {
                    assert(out@[j] == involved@[m as int]);
                }
            }
            assert forall|rid: i32|
                out@.to_set().contains(rid) <==> (exists|t: int|
                    0 <= t < m + 1 && #[trigger] involved@[t] == rid) && !with_system@.contains(rid) by {
                if out@.to_set().contains(rid) {
                    let j = choose|j: int| 0 <= j < out@.len() && out@[j] == rid;
                    if j < before.len() {
                        assert(before.contains(rid));
                    }
                }
                if exists|t: int| 0 <= t < m + 1 && #[trigger] involved@[t] == rid {
                    let t = choose|t: int| 0 <= t < m + 1 && #[trigger] involved@[t] == rid;
                    if t == m {
                        assert(out@[out@.len() - 1] == rid);
                    } else if !with_system@.contains(rid) {
                        assert(before.to_set().contains(rid));
                        let j = choose|j: int| 0 <= j < before.len() && before[j] == rid;
                        assert(out@[j] == rid);
                    }
                }
            }
        } else {
            assert forall|rid: i32|
                out@.to_set().contains(rid) <==> (exists|t: int|
                    0 <= t < m + 1 && #[trigger] involved@[t] == rid) && !with_system@.contains(rid) by {
                if exists|t: int| 0 <= t < m + 1 && #[trigger] involved@[t] == rid {
                    let t = choose|t: int| 0 <= t < m + 1 && #[trigger] involved@[t] == rid;
                    if t == m {
                        assert(with_system@.contains(rid));
                    }
                }
            }
            assert forall|j: int| 0 <= j < out@.len() implies exists|t: int|
                0 <= t < m + 1 && #[trigger] out@[j] == involved@[t] by {
                let t = choose|t: int| 0 <= t < m && #[trigger] out@[j] == involved@[t];
            }
        }
        m = m + 1;
    }
    assert forall|rid: i32| out@.to_set().contains(rid) <==> involved_roles(
        lines@,
        present_role_ids@,
    ).difference(system_senders(lines@)).contains(rid) by {
        if involved@.to_set().contains(rid) {
            let t = choose|t: int| 0 <= t < involved@.len() && involved@[t] == rid;
            assert(involved@[t] == rid);
        }
        if exists|t: int| 0 <= t < involved@.len() && #[trigger] involved@[t] == rid {
            let t = choose|t: int| 0 <= t < involved@.len() && #[trigger] involved@[t] == rid;
            assert(involved@.contains(rid));
        }
        assert(with_system@.contains(rid) == system_senders(lines@).contains(rid));
    }
    assert(out@.to_set() =~= involved_roles(lines@, present_role_ids@).difference(
        system_senders(lines@),
    ));
    proof {
        assert forall|i: int|
            0 <= i < lines@.len() && (#[trigger] lines@[i]).base.sender_role_id is Some
                && lines@[i].base.sender_role_id->0 != 0 && !system_senders(lines@).contains(
                lines@[i].base.sender_role_id->0,
            ) implies out@.contains(
            lines@[i].base.sender_role_id->0,
        ) by {
            let rid = lines@[i].base.sender_role_id->0;
            lemma_speakers_without_persona_get_one(lines@, present_role_ids@, i);
            assert(out@.to_set().contains(rid));
        }
    }
    out
}

/// Every role other than the player that speaks in the loaded conversation
/// and has no system line gets one back, whether or not it is on stage; so
/// does every role on stage without one; a role that has a system line never
/// gets a second one.
pub proof fn lemma_speakers_without_persona_get_one(lines: Seq<GameLine>, present: Seq<i32>, i: int)
    requires
        0 <= i < lines.len(),
        lines[i].base.sender_role_id is Some,
        lines[i].base.sender_role_id->0 != 0,
        !system_senders(lines).contains(lines[i].base.sender_role_id->0),
    ensures
        involved_roles(lines, present).difference(system_senders(lines)).contains(
            lines[i].base.sender_role_id->0,
        ),
{
}

/// The same for roles on stage, and no role with a system line is listed.
pub proof fn lemma_present_roles_and_persona_owners(lines: Seq<GameLine>, present: Seq<i32>, rid: i32)
    ensures
        present.contains(rid) && !system_senders(lines).contains(rid) ==> involved_roles(
            lines,
            present,
        ).difference(system_senders(lines)).contains(rid),
        system_senders(lines).contains(rid) ==> !involved_roles(lines, present).difference(
            system_senders(lines),
        ).contains(rid),
{
}

} // verus!
