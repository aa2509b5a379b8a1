//! When the auto-save must write: a fingerprint of what was last saved
//! successfully is compared with the current state.

use vstd::prelude::*;

verus! {

/// What a successful save wrote: the line revision and each role's memory revision.
#[derive(Clone, Debug, PartialEq)]
pub struct SaveFingerprint {
    pub line_revision: u64,
    pub memory_revisions: Vec<(i32, u64)>,
}

impl SaveFingerprint {
    pub open spec fn same_as(&self, other: &SaveFingerprint) -> bool {
        self.line_revision == other.line_revision && self.memory_revisions@
            == other.memory_revisions@
    }
}

/// The fingerprint of a save that wrote this line revision and these memory
/// revisions.
pub fn successful_fingerprint(line_revision: u64, memory_revisions: Vec<(i32, u64)>) -> (r:
    SaveFingerprint)
    ensures
        r.line_revision == line_revision,
        r.memory_revisions@ == memory_revisions@,
{
    SaveFingerprint { line_revision, memory_revisions }
}

fn fingerprints_equal(a: &SaveFingerprint, b: &SaveFingerprint) -> (r: bool)
    ensures
        r == a.same_as(b),
{
    if a.line_revision != b.line_revision {
        return false;
    }
    if a.memory_revisions.len() != b.memory_revisions.len() {
        return false;
    }
    let mut i: usize = 0;
    while i < a.memory_revisions.len()
        invariant
            i <= a.memory_revisions.len(),
            a.memory_revisions@.len() == b.memory_revisions@.len(),
            forall|j: int| 0 <= j < i ==> a.memory_revisions@[j] == b.memory_revisions@[j],
        decreases a.memory_revisions.len() - i,
    {
        if a.memory_revisions[i].0 != b.memory_revisions[i].0 || a.memory_revisions[i].1
            != b.memory_revisions[i].1 {
            return false;
        }
        i = i + 1;
    }
    assert(a.memory_revisions@ =~= b.memory_revisions@);
    true
}

pub open spec fn spec_requires_save(
    saved_slot: Option<i32>,
    last_success: Option<&SaveFingerprint>,
    target_slot: i32,
    current: &SaveFingerprint,
) -> bool {
    saved_slot != Some(target_slot) || match last_success {
        None => true,
        Some(f) => !f.same_as(current),
    }
}

/// Whether the auto-save must write `current` to `target_slot`: when the last
/// successful save went to another slot (or none), when nothing was saved
/// successfully, or when the state differs from the last success. A failed
/// save does not change the success marker, so it is retried.
pub fn fingerprint_requires_save(
    saved_slot: Option<i32>,
    last_success: Option<&SaveFingerprint>,
    target_slot: i32,
    current: &SaveFingerprint,
) -> (r: bool)
    ensures
        r == spec_requires_save(saved_slot, last_success, target_slot, current),
{
    match saved_slot {
        Some(slot) => {
            if slot != target_slot {
                return true;
            }
        },
        None => {
            return true;
        },
    }
    match last_success {
        None => true,
        Some(f) => !fingerprints_equal(f, current),
    }
}

/// Once a state is saved successfully to a slot, the same state needs no
/// further save to that slot; any change of a line or memory revision does.
pub proof fn lemma_success_settles_until_change(
    slot: i32,
    saved: &SaveFingerprint,
    current: &SaveFingerprint,
)
    ensures
        !spec_requires_save(Some(slot), Some(saved), slot, saved),
        !saved.same_as(current) ==> spec_requires_save(Some(slot), Some(saved), slot, current),
{
}

} // verus!
