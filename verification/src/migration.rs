//! Schema migrations whose decisions are more than a statement.

use vstd::prelude::*;

use crate::text::str_eq;

verus! {

/// Whether `name` is among the listed column names.
pub fn has_column(existing: &Vec<String>, name: &str) -> (b: bool)
    ensures
        b == existing.deep_view().contains(name@),
{
    let mut i: usize = 0;
    while i < existing.len()
        invariant
            i <= existing.len(),
            forall|j: int| 0 <= j < i ==> #[trigger] existing.deep_view()[j] != name@,
        decreases existing.len() - i,
    {
        if str_eq(existing[i].as_str(), name) {
            assert(existing.deep_view()[i as int] == name@);
            return true;
        }
        i = i + 1;
    }
    false
}

/// Which of the two reading-position columns the migration still adds: those
/// the table does not have yet.
pub open spec fn spec_columns_to_add(existing: Seq<Seq<char>>) -> (bool, bool) {
    (!existing.contains("player_read_chapter"@), !existing.contains("player_read_sequence"@))
}

/// The table's columns after the migration ran on a table with these columns.
pub open spec fn columns_after_up(existing: Seq<Seq<char>>) -> Seq<Seq<char>> {
    let (add_chapter, add_sequence) = spec_columns_to_add(existing);
    existing + (if add_chapter {
        seq!["player_read_chapter"@]
    } else {
        Seq::<Seq<char>>::empty()
    }) + (if add_sequence {
        seq!["player_read_sequence"@]
    } else {
        Seq::<Seq<char>>::empty()
    })
}

/// Which of the two reading-position columns the migration adding them must
/// still add to `running_script`, given the table's current columns (SQLite's
/// `ADD COLUMN` has no `IF NOT EXISTS`, so a repeated run must skip them).
pub fn read_position_columns_to_add(existing: &Vec<String>) -> (r: (bool, bool))
    ensures
        r == spec_columns_to_add(existing.deep_view()),
{
    (!has_column(existing, "player_read_chapter"), !has_column(existing, "player_read_sequence"))
}

/// Running the migration again changes nothing: once the columns it reports
/// are added, it reports none, and the table stays as it is.
pub proof fn lemma_second_run_adds_nothing(existing: Seq<Seq<char>>)
    ensures
        spec_columns_to_add(columns_after_up(existing)) == (false, false),
        columns_after_up(columns_after_up(existing)) == columns_after_up(existing),
{
    let after = columns_after_up(existing);
    let c: Seq<char> = "player_read_chapter"@;
    let q: Seq<char> = "player_read_sequence"@;
    if existing.contains(c) {
        let k = choose|k: int| 0 <= k < existing.len() && existing[k] == c;
        assert(after[k] == c);
    } else {
        assert(after[existing.len() as int] == c);
    }
    if existing.contains(q) {
        let k = choose|k: int| 0 <= k < existing.len() && existing[k] == q;
        assert(after[k] == q);
    } else {
        assert(after[after.len() - 1] == q);
    }
    assert(after.contains(c));
    assert(after.contains(q));
    assert(columns_after_up(after) =~= after);
}

} // verus!
