//! The save list, the script position kept with a save, and what loading and
//! deleting a save decide.

use vstd::prelude::*;

use crate::player::profile::clone_opt;
use crate::text::{ends_with, i64_to_decimal, signed_decimal, has_suffix};
use crate::types::{GameLine, LineAttribute, LineBase, ScriptStatus};

verus! {

/// One entry of the save list.
#[derive(Debug)]
pub struct SaveListItem {
    pub id: i32,
    pub title: String,
    pub create_date: String,
    pub update_date: String,
    pub last_message: Option<String>,
    pub screenshot: Option<String>,
}

/// A page of the save list with the number of saves.
#[derive(Debug)]
pub struct SaveListResponse {
    pub saves: Vec<SaveListItem>,
    pub total: u64,
}

/// The answer to creating a save.
#[derive(Debug)]
pub struct CreateSaveResponse {
    pub save_id: i32,
    pub message: String,
}

impl CreateSaveResponse {
    pub fn created(save_id: i32) -> (r: CreateSaveResponse)
        ensures
            r.save_id == save_id,
            r.message@ == "存档创建成功"@,
    {
        CreateSaveResponse { save_id, message: String::from_str("存档创建成功") }
    }
}

/// The page and page size of a save-list request: page 1 and 50 saves per
/// page unless given.
pub fn list_page(page: Option<u64>, page_size: Option<u64>) -> (r: (u64, u64))
    ensures
        r.0 == match page {
            Some(p) => p,
            None => 1,
        },
        r.1 == match page_size {
            Some(s) => s,
            None => 50,
        },
{
    let p = match page {
        Some(p) => p,
        None => 1,
    };
    let s = match page_size {
        Some(s) => s,
        None => 50,
    };
    (p, s)
}

/// The ids of the saves' last messages, for saves that have one, in order.
pub open spec fn spec_last_message_ids(ids: Seq<Option<i32>>) -> Seq<i32>
    decreases ids.len(),
{
    if ids.len() == 0 {
        Seq::<i32>::empty()
    } else {
        let init = spec_last_message_ids(ids.drop_last());
        match ids.last() {
            Some(id) => init.push(id),
            None => init,
        }
    }
}

pub fn last_message_ids(ids: &Vec<Option<i32>>) -> (r: Vec<i32>)
    ensures
        r@ == spec_last_message_ids(ids@),
{
    let mut r: Vec<i32> = Vec::new();
    let mut i: usize = 0;
    while i < ids.len()
        invariant
            i <= ids.len(),
            r@ == spec_last_message_ids(ids@.subrange(0, i as int)),
        decreases ids.len() - i,
    {
        assert(ids@.subrange(0, i + 1).drop_last() =~= ids@.subrange(0, i as int));
        if let Some(id) = ids[i] {
            r.push(id);
        }
        i = i + 1;
    }
    assert(ids@.subrange(0, ids@.len() as int) =~= ids@);
    r
}

/// The content of line `id` among fetched lines; a later line with the same id
/// replaces an earlier one.
pub open spec fn content_of(lines: Seq<(i32, Seq<char>)>, id: i32) -> Option<Seq<char>>
    decreases lines.len(),
{
    if lines.len() == 0 {
        None
    } else if lines.last().0 == id {
        Some(lines.last().1)
    } else {
        content_of(lines.drop_last(), id)
    }
}

/// An entry of the save list: the last message is looked up among the fetched
/// lines; the screenshot path is given when its file exists.
pub fn save_list_item(
    id: i32,
    title: String,
    create_date: String,
    update_date: String,
    last_message_id: Option<i32>,
    lines: &Vec<(i32, String)>,
    screenshot_path: String,
    screenshot_exists: bool,
) -> (r: SaveListItem)
    ensures
        r.id == id,
        r.title == title,
        r.create_date == create_date,
        r.update_date == update_date,
        r.last_message.deep_view() == match last_message_id {
            Some(m) => content_of(lines.deep_view(), m),
            None => None,
        },
        r.screenshot == if screenshot_exists {
            Some(screenshot_path)
        } else {
            None
        },
{
    let last_message = match last_message_id {
        Some(m) => {
            let mut found: Option<String> = None;
            let mut i: usize = 0;
            while i < lines.len()
                invariant
                    i <= lines.len(),
                    found.deep_view() == content_of(lines.deep_view().subrange(0, i as int), m),
                decreases lines.len() - i,
            {
                assert(lines.deep_view().subrange(0, i + 1).drop_last() =~= lines.deep_view().subrange(
                    0,
                    i as int,
                ));
                if lines[i].0 == m {
                    found = Some(lines[i].1.clone());
                }
                i = i + 1;
            }
            assert(lines.deep_view().subrange(0, lines@.len() as int) =~= lines.deep_view());
            found
        },
        None => None,
    };
    let screenshot = if screenshot_exists {
        Some(screenshot_path)
    } else {
        None
    };
    SaveListItem { id, title, create_date, update_date, last_message, screenshot }
}

/// The screenshot file of a save: `<save id>.png`.
pub fn screenshot_file_name(save_id: i32) -> (r: String)
    ensures
        r@ == signed_decimal(save_id as int) + ".png"@,
{
    let mut name = i64_to_decimal(save_id as i64);
    name.append(".png");
    name
}

/// The player's reading position as stored with a running script: an empty
/// chapter and a sequence of 0 or below mean nothing was reported.
pub fn player_read_position(chapter: &str, seq: i32) -> (r: (Option<String>, Option<i32>))
    ensures
        r.0.deep_view() == if chapter@.len() == 0 {
            None
        } else {
            Some(chapter@)
        },
        r.1 == if seq > 0 {
            Some(seq)
        } else {
            None::<i32>
        },
{
    let c = if chapter.unicode_len() == 0 {
        None
    } else {
        Some(String::from_str(chapter))
    };
    let s = if seq > 0 {
        Some(seq)
    } else {
        None
    };
    (c, s)
}

/// The file of a chapter key: the key itself when it ends in `.yaml`, the key
/// with `.yaml` appended otherwise.
pub open spec fn spec_chapter_file_name(chapter: Seq<char>) -> Seq<char> {
    if has_suffix(chapter, ".yaml"@) {
        chapter
    } else {
        chapter + ".yaml"@
    }
}

pub fn chapter_file_name(chapter: &str) -> (r: String)
    ensures
        r@ == spec_chapter_file_name(chapter@),
{
    if ends_with(chapter, ".yaml") {
        String::from_str(chapter)
    } else {
        let mut r = String::from_str(chapter);
        r.append(".yaml");
        r
    }
}

/// Where a loaded script resumes: at the player's reading position when one was
/// reported and its chapter file exists in the script, else at the engine's
/// position. The reading position's sequence falls back to the engine's.
pub fn restore_position(
    read_chapter: Option<String>,
    read_sequence: Option<i32>,
    current_chapter: String,
    event_sequence: i32,
    read_chapter_exists: bool,
) -> (r: (String, i32))
    ensures
        match read_chapter {
            Some(ch) if ch@.len() > 0 && read_chapter_exists => r.0 == ch && r.1 == match read_sequence {
                Some(s) => s,
                None => event_sequence,
            },
            _ => r.0 == current_chapter && r.1 == event_sequence,
        },
{
    match read_chapter {
        Some(ch) => {
            if ch.unicode_len() > 0 && read_chapter_exists {
                let seq = match read_sequence {
                    Some(s) => s,
                    None => event_sequence,
                };
                (ch, seq)
            } else {
                (current_chapter, event_sequence)
            }
        },
        None => (current_chapter, event_sequence),
    }
}

/// The main role a save records, or the error of a save that records none.
pub fn require_main_role(main_role_id: Option<i32>) -> (r: Result<i32, String>)
    ensures
        match main_role_id {
            Some(id) => r == Ok::<i32, String>(id),
            None => r matches Err(m) && m@ == "存档中未记录主角信息"@,
        },
{
    match main_role_id {
        Some(id) => Ok(id),
        None => Err(String::from_str("存档中未记录主角信息")),
    }
}

/// The error of a save id that does not exist.
pub fn missing_save_message(save_id: i32) -> (r: String)
    ensures
        r@ == "存档 "@ + signed_decimal(save_id as int) + " 不存在"@,
{
    let mut m = String::from_str("存档 ");
    let digits = i64_to_decimal(save_id as i64);
    m.append(digits.as_str());
    m.append(" 不存在");
    m
}

/// The active save after deleting a save: cleared when it was the deleted one.
pub fn active_save_after_delete(active: Option<i32>, deleted: i32) -> (r: Option<i32>)
    ensures
        r == if active == Some(deleted) {
            None::<i32>
        } else {
            active
        },
{
    match active {
        Some(a) => if a == deleted {
            None
        } else {
            Some(a)
        },
        None => None,
    }
}

/// A persona line that a loaded save lacks: the role, the system prompt built
/// from its settings, and its display name.
pub struct PersonaRepair {
    pub role_id: i32,
    pub content: String,
    pub display_name: Option<String>,
}

/// Whether `l` is the system line for repair `r`.
pub open spec fn is_persona_line(l: GameLine, r: PersonaRepair) -> bool {
    &&& l.base.content == r.content
    &&& l.base.attribute == LineAttribute::System
    &&& l.base.sender_role_id == Some(r.role_id)
    &&& l.base.display_name == r.display_name
    &&& l.base.id is None
    &&& l.perceived_role_ids@.len() == 0
}

/// Puts back the missing persona lines after a save is loaded: each repair's
/// system line is inserted at the front, one after another, so the last repair
/// ends up first; the loaded lines follow unchanged.
pub fn insert_persona_lines(lines: &mut Vec<GameLine>, repairs: &Vec<PersonaRepair>)
    ensures
        final(lines)@.len() == old(lines)@.len() + repairs@.len(),
        forall|j: int|
            0 <= j < repairs@.len() ==> is_persona_line(
                #[trigger] final(lines)@[j],
                repairs@[repairs@.len() - 1 - j],
            ),
        forall|t: int|
            0 <= t < old(lines)@.len() ==> #[trigger] final(lines)@[repairs@.len() + t] == old(
                lines,
            )@[t],
{
    let ghost original = lines@;
    let mut i: usize = 0;
    while i < repairs.len()
        invariant
            i <= repairs.len(),
            original == old(lines)@,
            lines@.len() == original.len() + i,
            forall|j: int| 0 <= j < i ==> is_persona_line(#[trigger] lines@[j], repairs@[i - 1 - j]),
            forall|t: int| 0 <= t < original.len() ==> #[trigger] lines@[i + t] == original[t],
        decreases repairs.len() - i,
    {
        let r = &repairs[i];
        let line = GameLine::from_base(
            LineBase {
                id: None,
                content: r.content.clone(),
                attribute: LineAttribute::System,
                sender_role_id: Some(r.role_id),
                display_name: clone_opt(&r.display_name),
            },
            Vec::new(),
        );
        let ghost before = lines@;
        lines.insert(0, line);
        proof {
            assert forall|j: int| 0 <= j < i + 1 implies is_persona_line(
                #[trigger] lines@[j],
                repairs@[i + 1 - 1 - j],
            ) by {
                if j > 0 {
                    assert(lines@[j] == before[j - 1]);
                }
            }
            assert forall|t: int| 0 <= t < original.len() implies #[trigger] lines@[i + 1 + t]
                == original[t] by {
                assert(lines@[i + 1 + t] == before[i + t]);
            }
        }
        i = i + 1;
    }
}

/// The running game's script state after a save with a running script is
/// loaded.
pub struct RestoredScript {
    pub script_status: ScriptStatus,
    /// The reported reading position, cleared: the front end reports it again.
    pub player_read_chapter: String,
    pub player_read_seq: i32,
    /// The script epoch, so that the end of an older script task does not clear
    /// the restored state.
    pub script_epoch: u64,
}

/// The restored script state: the script resumes at the given chapter and
/// event with the saved variables, the reading position is cleared, and the
/// epoch moves on by one (wrapping).
pub fn restore_script_state(
    script: ScriptStatus,
    chapter: String,
    seq: i32,
    vars: String,
    script_epoch: u64,
) -> (r: RestoredScript)
    ensures
        r.script_status.folder_key == script.folder_key,
        r.script_status.current_chapter_key == chapter,
        r.script_status.current_event_process == seq,
        r.script_status.vars == vars,
        r.player_read_chapter@.len() == 0,
        r.player_read_seq == 0,
        r.script_epoch == if script_epoch == u64::MAX {
            0
        } else {
            (script_epoch + 1) as u64
        },
{
    let epoch = if script_epoch == u64::MAX {
        0
    } else {
        script_epoch + 1
    };
    RestoredScript {
        script_status: ScriptStatus {
            folder_key: script.folder_key,
            vars,
            current_chapter_key: chapter,
            current_event_process: seq,
        },
        player_read_chapter: String::new(),
        player_read_seq: 0,
        script_epoch: epoch,
    }
}

} // verus!
