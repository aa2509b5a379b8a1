//! Bookkeeping of the memory-validation harness: the deterministic
//! conversation it feeds and what it reports once compression ends.

use vstd::prelude::*;

use crate::text::{decimal, u64_to_decimal};
use crate::types::{GameLine, GameMemoryBank, LineAttribute, LineBase};

verus! {

/// What one validation run reports.
#[derive(Debug)]
pub struct ValidationResult {
    pub triggered: bool,
    pub committed: bool,
    pub calls: usize,
    pub bank: GameMemoryBank,
    pub processed_idx: i64,
    pub tail_lines: usize,
    pub updating: bool,
}

/// The content of the deterministic line with index `idx`.
pub open spec fn test_line_content(idx: nat) -> Seq<char> {
    "deterministic test line "@ + decimal(idx)
}

/// `count` deterministic user lines from the player, each perceived by `role_id`.
pub fn lines(role_id: i32, count: usize) -> (r: Vec<GameLine>)
    ensures
        r@.len() == count,
        forall|i: int|
            0 <= i < count ==> {
                let l = #[trigger] r@[i];
                &&& l.base.content@ == test_line_content(i as nat)
                &&& l.base.attribute == LineAttribute::User
                &&& l.base.sender_role_id == Some(0i32)
                &&& l.base.id is None
                &&& l.base.display_name is None
                &&& l.perceived_role_ids@ == seq![role_id]
            },
{
    let mut r: Vec<GameLine> = Vec::new();
    let mut idx: usize = 0;
    while idx < count
        invariant
            idx <= count,
            r@.len() == idx,
            forall|i: int|
                0 <= i < idx ==> {
                    let l = #[trigger] r@[i];
                    &&& l.base.content@ == test_line_content(i as nat)
                    &&& l.base.attribute == LineAttribute::User
                    &&& l.base.sender_role_id == Some(0i32)
                    &&& l.base.id is None
                    &&& l.base.display_name is None
                    &&& l.perceived_role_ids@ == seq![role_id]
                },
        decreases count - idx,
    {
        let mut content = String::from_str("deterministic test line ");
        let digits = u64_to_decimal(idx as u64);
        content.append(digits.as_str());
        let mut perceived: Vec<i32> = Vec::new();
        perceived.push(role_id);
        assert(perceived@ =~= seq![role_id]);
        r.push(
            GameLine::from_base(
                LineBase {
                    id: None,
                    content,
                    attribute: LineAttribute::User,
                    sender_role_id: Some(0),
                    display_name: None,
                },
                perceived,
            ),
        );
        idx = idx + 1;
    }
    r
}

/// Whether the compression committed and how many lines it left unprocessed:
/// it committed when the processed pointer reached the target captured at the
/// start; the tail is what the (possibly extended) history holds beyond the
/// pointer (a negative pointer counts as zero).
pub open spec fn spec_summary(processed_idx: i64, target: usize, history_len: usize) -> (bool, usize) {
    let p = if processed_idx < 0 {
        0usize
    } else {
        processed_idx as usize
    };
    (
        processed_idx >= target as int,
        if history_len >= p {
            (history_len - p) as usize
        } else {
            0usize
        },
    )
}

pub fn validation_summary(processed_idx: i64, target: usize, history_len: usize) -> (r: (bool, usize))
    ensures
        r == spec_summary(processed_idx, target, history_len),
{
    let committed = processed_idx as i128 >= target as i128;
    let p: usize = if processed_idx < 0 {
        0
    } else {
        processed_idx as usize
    };
    let tail = if history_len >= p {
        history_len - p
    } else {
        0
    };
    (committed, tail)
}

/// The four memory sections of a committed compression, in the order short
/// term, long term, user info, promises; an error when nothing was committed.
pub fn scripted_sections(result: ValidationResult) -> (r: Result<[String; 4], String>)
    ensures
        result.committed ==> (r matches Ok(s) && s@[0] == result.bank.data.short_term && s@[1]
            == result.bank.data.long_term && s@[2] == result.bank.data.user_info && s@[3]
            == result.bank.data.promises),
        !result.committed ==> (r matches Err(m) && m@ == "compression was not committed"@),
{
    if !result.committed {
        return Err(String::from_str("compression was not committed"));
    }
    let bank = result.bank;
    let data = bank.data;
    Ok([data.short_term, data.long_term, data.user_info, data.promises])
}

/// Lines appended while a compression runs stay for the next one: when the
/// pointer reaches exactly the target captured at the start and `extra` lines
/// were appended meanwhile, the run commits and leaves `extra` lines.
pub proof fn lemma_append_during_update_leaves_tail(target: usize, extra: usize)
    requires
        target + extra <= usize::MAX,
        target <= i64::MAX,
    ensures
        spec_summary(target as i64, target, (target + extra) as usize) == (true, extra),
{
}

/// A failed compression leaves the pointer where it was (here at zero): it
/// does not commit a non-empty target and leaves every line.
pub proof fn lemma_failure_commits_nothing(target: usize, history_len: usize)
    requires
        target > 0,
    ensures
        spec_summary(0, target, history_len) == (false, history_len),
{
}

} // verus!
