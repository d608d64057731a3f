use polykit::sync::{Delta, DeltaOp, SyncError, SyncManager, SyncState};

fn delta(table: &str, sequence: u64, operation: DeltaOp, data: Option<Vec<u8>>) -> Delta {
    Delta { sequence, operation, table: table.to_string(), key: vec![1, 2], data }
}

#[test]
fn snapshot_then_delta_then_replayed_delta() {
    let mut mgr = SyncManager::new();
    mgr.register("users");
    mgr.apply_snapshot("users", b"full-state", 100);
    assert_eq!(mgr.state("users"), SyncState::Synced { last_sequence: 100 });

    let d101 = delta("users", 101, DeltaOp::Insert, Some(vec![7]));
    assert_eq!(mgr.apply_delta(&d101), Ok(()));
    assert_eq!(mgr.state("users"), SyncState::Synced { last_sequence: 101 });

    // Re-delivering the same delta is a sequence gap and changes nothing.
    assert_eq!(
        mgr.apply_delta(&d101),
        Err(SyncError::SequenceGap { expected: 102, got: 101 })
    );
    assert_eq!(mgr.state("users"), SyncState::Synced { last_sequence: 101 });
}

#[test]
fn delta_without_sync_fails_and_mutates_nothing() {
    let mut mgr = SyncManager::new();
    mgr.register("inbox");
    let d = delta("inbox", 1, DeltaOp::Update, Some(vec![1]));
    assert_eq!(mgr.apply_delta(&d), Err(SyncError::NotSynced));
    assert_eq!(mgr.state("inbox"), SyncState::Unsynced);

    // Same for a table that was never registered.
    let d2 = delta("ghost", 1, DeltaOp::Delete, None);
    assert_eq!(mgr.apply_delta(&d2), Err(SyncError::NotSynced));
    assert_eq!(mgr.state("ghost"), SyncState::Unsynced);
}

#[test]
fn snapshot_replaces_any_prior_state() {
    let mut mgr = SyncManager::new();
    // Snapshot without registration.
    mgr.apply_snapshot("a", b"x", 5);
    assert_eq!(mgr.state("a"), SyncState::Synced { last_sequence: 5 });
    // Snapshot over an existing baseline rebases the sequence, even backwards.
    mgr.apply_snapshot("a", b"y", 3);
    assert_eq!(mgr.state("a"), SyncState::Synced { last_sequence: 3 });
    let d4 = delta("a", 4, DeltaOp::Insert, Some(vec![0]));
    assert_eq!(mgr.apply_delta(&d4), Ok(()));
    assert_eq!(mgr.state("a"), SyncState::Synced { last_sequence: 4 });
}

#[test]
fn register_resets_to_unsynced() {
    let mut mgr = SyncManager::new();
    mgr.apply_snapshot("t", b"x", 9);
    mgr.register("t");
    assert_eq!(mgr.state("t"), SyncState::Unsynced);
    // Idempotent.
    mgr.register("t");
    assert_eq!(mgr.state("t"), SyncState::Unsynced);
}

#[test]
fn gaps_in_both_directions_are_rejected() {
    let mut mgr = SyncManager::new();
    mgr.apply_snapshot("t", b"x", 10);
    let low = delta("t", 10, DeltaOp::Insert, Some(vec![1]));
    assert_eq!(
        mgr.apply_delta(&low),
        Err(SyncError::SequenceGap { expected: 11, got: 10 })
    );
    let high = delta("t", 12, DeltaOp::Insert, Some(vec![1]));
    assert_eq!(
        mgr.apply_delta(&high),
        Err(SyncError::SequenceGap { expected: 11, got: 12 })
    );
    assert_eq!(mgr.state("t"), SyncState::Synced { last_sequence: 10 });
}

#[test]
fn tables_are_independent() {
    let mut mgr = SyncManager::new();
    mgr.apply_snapshot("a", b"x", 1);
    mgr.apply_snapshot("b", b"y", 2);
    let d = delta("a", 2, DeltaOp::Insert, Some(vec![1]));
    assert_eq!(mgr.apply_delta(&d), Ok(()));
    assert_eq!(mgr.state("a"), SyncState::Synced { last_sequence: 2 });
    assert_eq!(mgr.state("b"), SyncState::Synced { last_sequence: 2 });
}
