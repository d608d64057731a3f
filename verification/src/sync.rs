//! Snapshot + delta sync engine.
//!
//! Each table is a little state machine: it starts `Unsynced`, a snapshot
//! moves it to `Synced` at the snapshot's baseline sequence, and deltas
//! advance the sequence one step at a time. A delta whose sequence is not
//! exactly one past the confirmed sequence is rejected and leaves the table
//! untouched, so a transport may re-deliver the missing delta; a fresh
//! snapshot is the universal recovery path from any state.

use vstd::prelude::*;
use crate::strmap::StrMap;

verus! {

/// Sync state of one table.
#[derive(Debug, PartialEq, Eq)]
pub enum SyncState {
    /// Not yet synced; no data trusted.
    Unsynced,
    /// Snapshot received; data trusted up to `last_sequence`.
    Synced { last_sequence: u64 },
    /// Sync intentionally suspended; data up to `last_sequence` stays trusted.
    Paused { last_sequence: u64 },
    /// Sync failed; recover with a fresh snapshot.
    Error(String),
}

impl Clone for SyncState {
    fn clone(&self) -> (r: Self)
        ensures
            r == self,
    {
        match self {
            SyncState::Unsynced => SyncState::Unsynced,
            SyncState::Synced { last_sequence } => SyncState::Synced {
                last_sequence: *last_sequence,
            },
            SyncState::Paused { last_sequence } => SyncState::Paused {
                last_sequence: *last_sequence,
            },
            SyncState::Error(reason) => SyncState::Error(reason.clone()),
        }
    }
}

/// A delta update for one table.
#[derive(Debug, Clone)]
pub struct Delta {
    /// Per-table counter; the first delta after a snapshot with baseline `s` carries `s + 1`.
    pub sequence: u64,
    pub operation: DeltaOp,
    pub table: String,
    pub key: Vec<u8>,
    /// Payload bytes; absent for `Delete`.
    pub data: Option<Vec<u8>>,
}

#[derive(Debug, Clone, Copy, PartialEq, Eq, Structural)]
pub enum DeltaOp {
    Insert,
    Update,
    Delete,
}

/// Why a delta was rejected.
#[derive(Debug, Clone, Copy, PartialEq, Eq, Structural)]
pub enum SyncError {
    /// The table is not in `Synced` state; register and snapshot first.
    NotSynced,
    /// The delta's sequence is not exactly one past the confirmed sequence.
    SequenceGap { expected: u64, got: u64 },
}

/// Sync manager for a set of tables.
pub struct SyncManager {
    states: StrMap<SyncState>,
}

impl SyncManager {
    /// The state recorded for a table; `Unsynced` for tables never registered.
    pub closed spec fn state_of(self, table: Seq<char>) -> SyncState {
        if self.states@.contains_key(table) {
            self.states@[table]
        } else {
            SyncState::Unsynced
        }
    }

    pub fn new() -> (r: Self)
        ensures
            forall|t: Seq<char>| #[trigger] r.state_of(t) == SyncState::Unsynced,
    {
        SyncManager { states: StrMap::new() }
    }

    /// Register a table for sync, resetting it to `Unsynced`. Idempotent.
    pub fn register(&mut self, table: &str)
        ensures
            final(self).state_of(table@) == SyncState::Unsynced,
            forall|t: Seq<char>|
                t != table@ ==> #[trigger] final(self).state_of(t) == old(self).state_of(t),
    {
        self.states.set(table, SyncState::Unsynced);
    }

    /// Apply a snapshot: a full-state replacement whose `sequence` becomes the
    /// new baseline, whatever state the table was in before.
    pub fn apply_snapshot(&mut self, table: &str, _data: &[u8], sequence: u64)
        ensures
            final(self).state_of(table@) == (SyncState::Synced { last_sequence: sequence }),
            forall|t: Seq<char>|
                t != table@ ==> #[trigger] final(self).state_of(t) == old(self).state_of(t),
    {
        self.states.set(table, SyncState::Synced { last_sequence: sequence });
    }

    /// Apply one delta. Succeeds exactly when the table is `Synced` and the
    /// delta's sequence continues the confirmed sequence; any rejection leaves
    /// every table's state as it was. The confirmed sequence must sit below
    /// the counter's ceiling so that a successor exists.
    pub fn apply_delta(&mut self, delta: &Delta) -> (r: Result<(), SyncError>)
        requires
            old(self).state_of(delta.table@) matches SyncState::Synced { last_sequence } ==>
                last_sequence < u64::MAX,
        ensures
            match old(self).state_of(delta.table@) {
                SyncState::Synced { last_sequence } => {
                    if delta.sequence == last_sequence + 1 {
                        &&& r is Ok
                        &&& final(self).state_of(delta.table@) == (SyncState::Synced {
                            last_sequence: delta.sequence,
                        })
                        &&& forall|t: Seq<char>|
                            t != delta.table@ ==> #[trigger] final(self).state_of(t) == old(
                                self,
                            ).state_of(t)
                    } else {
                        &&& r == Err::<(), SyncError>(SyncError::SequenceGap {
                            expected: (last_sequence + 1) as u64,
                            got: delta.sequence,
                        })
                        &&& *final(self) == *old(self)
                    }
                },
                _ => r == Err::<(), SyncError>(SyncError::NotSynced) && *final(self) == *old(
                    self,
                ),
            },
    {
        let confirmed: Option<u64> = match self.states.get(delta.table.as_str()) {
            Some(SyncState::Synced { last_sequence }) => Some(*last_sequence),
            _ => None,
        };
        match confirmed {
            Some(last) => {
                if delta.sequence != last + 1 {
                    Err(SyncError::SequenceGap { expected: last + 1, got: delta.sequence })
                } else {
                    self.states.set(
                        delta.table.as_str(),
                        SyncState::Synced { last_sequence: delta.sequence },
                    );
                    Ok(())
                }
            },
            None => Err(SyncError::NotSynced),
        }
    }

    /// Read a table's sync state without changing anything.
    pub fn state(&self, table: &str) -> (r: SyncState)
        ensures
            r == self.state_of(table@),
    {
        match self.states.get(table) {
            Some(s) => s.clone(),
            None => SyncState::Unsynced,
        }
    }
}

} // verus!
