use lingchat::game_system::auto_save::{fingerprint_requires_save, successful_fingerprint};

#[test]
fn memory_revision_change_requires_a_subsequent_save() {
    let saved = successful_fingerprint(42, vec![(7, 1)]);
    let unchanged = successful_fingerprint(42, vec![(7, 1)]);
    let after_memory_commit = successful_fingerprint(42, vec![(7, 2)]);

    assert!(!fingerprint_requires_save(
        Some(11),
        Some(&saved),
        11,
        &unchanged,
    ));
    assert!(fingerprint_requires_save(
        Some(11),
        Some(&saved),
        11,
        &after_memory_commit,
    ));
}

#[test]
fn failed_persistence_does_not_advance_success_fingerprint_and_retries() {
    let saved = successful_fingerprint(42, vec![(7, 1)]);
    let after_memory_commit = successful_fingerprint(42, vec![(7, 2)]);
    let mut success_marker = Some(saved.clone());

    assert!(fingerprint_requires_save(
        Some(11),
        success_marker.as_ref(),
        11,
        &after_memory_commit,
    ));
    assert_eq!(success_marker.as_ref(), Some(&saved));

    success_marker = Some(after_memory_commit.clone());
    assert!(!fingerprint_requires_save(
        Some(11),
        success_marker.as_ref(),
        11,
        &after_memory_commit,
    ));
}

#[test]
fn another_slot_or_no_success_requires_a_save() {
    let current = successful_fingerprint(5, vec![(1, 3), (2, 4)]);
    let same = successful_fingerprint(5, vec![(1, 3), (2, 4)]);
    assert!(fingerprint_requires_save(None, Some(&same), 3, &current));
    assert!(fingerprint_requires_save(Some(2), Some(&same), 3, &current));
    assert!(fingerprint_requires_save(Some(3), None, 3, &current));
    assert!(!fingerprint_requires_save(Some(3), Some(&same), 3, &current));
    let moved_lines = successful_fingerprint(6, vec![(1, 3), (2, 4)]);
    assert!(fingerprint_requires_save(Some(3), Some(&same), 3, &moved_lines));
}
