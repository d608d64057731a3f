//! Versioned, forward-only schema migrations.
//!
//! Each table namespace carries its own schema-version counter, starting at
//! 0 ("no migrations applied"). A call to [`MigrationRunner::migrate`] walks
//! the supplied migration list in order, applies every migration whose
//! version is above the namespace's current version, and records each
//! applied migration's version as the new current version; migrations at or
//! below the current version are skipped, which makes replay idempotent.
//!
//! Executing a migration's operations against the backing store is
//! delegated to the host — the runner itself performs no I/O — so within
//! this core an applied migration always succeeds and the runner's job is
//! the ordering, version tracking and idempotence.

use vstd::prelude::*;
use crate::schema::TableDef;
use crate::strmap::StrMap;

verus! {

/// A single schema migration.
#[derive(Debug, Clone)]
pub struct Migration {
    /// Monotonically increasing version number (1, 2, 3, ...).
    pub version: u32,
    /// Human-readable description.
    pub description: String,
    /// Operations executed in list order.
    pub operations: Vec<MigrationOp>,
}

/// A migration operation.
#[derive(Debug, Clone)]
pub enum MigrationOp {
    /// Create a new table.
    CreateTable(TableDef),
    /// Add a column to an existing table.
    AddColumn {
        table: String,
        name: String,
        column_type: String,
        default: Option<String>,
        nullable: bool,
        indexed: bool,
    },
    /// Create an index.
    CreateIndex { table: String, columns: Vec<String>, unique: bool },
    /// Drop a table.
    DropTable(String),
}

/// Error from executing a migration against the backing store. The runner
/// itself performs no store I/O, so its own calls never produce one; the
/// variant exists for hosts that surface store failures through this type.
#[derive(Debug, Clone, Copy, PartialEq, Eq, Structural)]
pub enum MigrationError {
    /// An operation of the migration with this version failed in the store.
    OperationFailed { version: u32 },
}

/// How many migrations a run over `ms` applies when the namespace currently
/// sits at version `current`.
pub open spec fn applied_count(ms: Seq<Migration>, current: u32) -> nat
    decreases ms.len(),
{
    if ms.len() == 0 {
        0
    } else if ms[0].version > current {
        1 + applied_count(ms.skip(1), ms[0].version)
    } else {
        applied_count(ms.skip(1), current)
    }
}

/// The namespace version recorded after a run over `ms` starting from
/// `current`: the version of the last migration applied, or `current` when
/// none is.
pub open spec fn resulting_version(ms: Seq<Migration>, current: u32) -> u32
    decreases ms.len(),
{
    if ms.len() == 0 {
        current
    } else if ms[0].version > current {
        resulting_version(ms.skip(1), ms[0].version)
    } else {
        resulting_version(ms.skip(1), current)
    }
}

/// The list is strictly ascending by version, as the caller contract asks.
pub open spec fn sorted_by_version(ms: Seq<Migration>) -> bool {
    forall|i: int, j: int| 0 <= i < j < ms.len() ==> ms[i].version < ms[j].version
}

proof fn lemma_run_from_fresh(ms: Seq<Migration>, current: u32)
    requires
        sorted_by_version(ms),
        ms.len() > 0,
        current < ms[0].version,
    ensures
        applied_count(ms, current) == ms.len(),
        resulting_version(ms, current) == ms.last().version,
    decreases ms.len(),
{
    if ms.len() == 1 {
        assert(ms.skip(1) =~= Seq::<Migration>::empty());
        assert(applied_count(ms.skip(1), ms[0].version) == 0);
        assert(resulting_version(ms.skip(1), ms[0].version) == ms[0].version);
    } else {
        assert(sorted_by_version(ms.skip(1)));
        assert(ms.skip(1)[0] == ms[1]);
        lemma_run_from_fresh(ms.skip(1), ms[0].version);
        assert(ms.skip(1).last() == ms.last());
    }
}

proof fn lemma_run_applies_nothing(ms: Seq<Migration>, current: u32)
    requires
        forall|i: int| 0 <= i < ms.len() ==> #[trigger] ms[i].version <= current,
    ensures
        applied_count(ms, current) == 0,
        resulting_version(ms, current) == current,
    decreases ms.len(),
{
    if ms.len() > 0 {
        assert(forall|i: int|
            0 <= i < ms.skip(1).len() ==> #[trigger] ms.skip(1)[i].version <= current);
        lemma_run_applies_nothing(ms.skip(1), current);
        assert(applied_count(ms, current) == applied_count(ms.skip(1), current));
    }
}

/// Law: migration replay is idempotent. From an untouched namespace
/// (version 0), one run of a sorted migration list applies every entry and
/// records the last entry's version; a second run of the same list — or of
/// any prefix of it — applies nothing and leaves the version where it was.
pub proof fn lemma_migrate_idempotent(ms: Seq<Migration>)
    requires
        sorted_by_version(ms),
        ms.len() > 0,
        ms[0].version > 0,
    ensures
        applied_count(ms, 0) == ms.len(),
        resulting_version(ms, 0) == ms.last().version,
        applied_count(ms, ms.last().version) == 0,
        resulting_version(ms, ms.last().version) == ms.last().version,
        forall|k: int|
            0 <= k <= ms.len() ==> #[trigger] applied_count(ms.take(k), ms.last().version) == 0,
{
    lemma_run_from_fresh(ms, 0);
    assert(forall|i: int| 0 <= i < ms.len() ==> #[trigger] ms[i].version <= ms.last().version);
    lemma_run_applies_nothing(ms, ms.last().version);
    assert forall|k: int| 0 <= k <= ms.len() implies #[trigger] applied_count(
        ms.take(k),
        ms.last().version,
    ) == 0 by {
        assert(forall|i: int|
            0 <= i < ms.take(k).len() ==> #[trigger] ms.take(k)[i].version
                <= ms.last().version);
        lemma_run_applies_nothing(ms.take(k), ms.last().version);
    }
}

/// Migration runner. Tracks the applied version of each table namespace.
pub struct MigrationRunner {
    applied_versions: StrMap<u32>,
}

impl MigrationRunner {
    /// The version recorded for a namespace; 0 for namespaces never migrated.
    pub closed spec fn version_of(self, namespace: Seq<char>) -> u32 {
        if self.applied_versions@.contains_key(namespace) {
            self.applied_versions@[namespace]
        } else {
            0
        }
    }

    pub fn new() -> (r: Self)
        ensures
            forall|ns: Seq<char>| #[trigger] r.version_of(ns) == 0,
    {
        MigrationRunner { applied_versions: StrMap::new() }
    }

    /// Run all unapplied migrations of the list for a namespace and return
    /// how many were applied this call; the count is a `u32`, so the list
    /// must fit one.
    #[verifier::loop_isolation(false)]
    pub fn migrate(&mut self, namespace: &str, migrations: &[Migration]) -> (r: Result<
        u32,
        MigrationError,
    >)
        requires
            migrations@.len() <= u32::MAX,
        ensures
            r is Ok,
            r->Ok_0 == applied_count(migrations@, old(self).version_of(namespace@)),
            final(self).version_of(namespace@) == resulting_version(
                migrations@,
                old(self).version_of(namespace@),
            ),
            forall|ns: Seq<char>|
                ns != namespace@ ==> #[trigger] final(self).version_of(ns) == old(
                    self,
                ).version_of(ns),
    {
        let ghost current0 = self.version_of(namespace@);
        let mut current = self.current_version(namespace);
        let mut applied: u32 = 0;
        let n = migrations.len();
        let mut i: usize = 0;
        proof {
            assert(migrations@.skip(0) =~= migrations@);
        }
        while i < n
            invariant
                n == migrations@.len() <= u32::MAX,
                i <= n,
                applied <= i,
                applied_count(migrations@, current0) == applied + applied_count(
                    migrations@.skip(i as int),
                    current,
                ),
                resulting_version(migrations@, current0) == resulting_version(
                    migrations@.skip(i as int),
                    current,
                ),
            decreases n - i,
        {
            proof {
                assert(migrations@.skip(i as int)[0] == migrations@[i as int]);
                assert(migrations@.skip(i as int).skip(1) =~= migrations@.skip(i as int + 1));
            }
            if migrations[i].version > current {
                // Executing this migration's operations against the store is
                // the host's job; once they are through, the migration's
                // version becomes the namespace's new current version.
                current = migrations[i].version;
                applied = applied + 1;
            }
            i += 1;
        }
        proof {
            assert(migrations@.skip(n as int) =~= Seq::<Migration>::empty());
        }
        self.applied_versions.set(namespace, current);
        Ok(applied)
    }

    /// Current schema version of a namespace; a pure read.
    pub fn current_version(&self, namespace: &str) -> (r: u32)
        ensures
            r == self.version_of(namespace@),
    {
        match self.applied_versions.get(namespace) {
            Some(v) => *v,
            None => 0,
        }
    }
}

} // verus!
