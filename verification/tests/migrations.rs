use polykit::migrations::{Migration, MigrationOp, MigrationRunner};

fn migration(version: u32, description: &str) -> Migration {
    Migration {
        version,
        description: description.to_string(),
        operations: vec![MigrationOp::DropTable("scratch".to_string())],
    }
}

#[test]
fn migrate_applies_all_then_replays_zero() {
    let mut runner = MigrationRunner::new();
    let migs = vec![migration(1, "init"), migration(2, "add index")];
    assert_eq!(runner.migrate("orders", &migs), Ok(2));
    assert_eq!(runner.current_version("orders"), 2);
    assert_eq!(runner.migrate("orders", &migs), Ok(0));
    assert_eq!(runner.current_version("orders"), 2);
}

#[test]
fn prefix_replay_applies_zero_and_keeps_version() {
    let mut runner = MigrationRunner::new();
    let migs = vec![migration(1, "a"), migration(2, "b"), migration(3, "c")];
    assert_eq!(runner.migrate("ns", &migs), Ok(3));
    let prefix = vec![migration(1, "a"), migration(2, "b")];
    assert_eq!(runner.migrate("ns", &prefix), Ok(0));
    assert_eq!(runner.current_version("ns"), 3);
}

#[test]
fn only_newer_migrations_apply() {
    let mut runner = MigrationRunner::new();
    let first = vec![migration(1, "a"), migration(2, "b")];
    assert_eq!(runner.migrate("ns", &first), Ok(2));
    let extended = vec![migration(1, "a"), migration(2, "b"), migration(5, "later")];
    assert_eq!(runner.migrate("ns", &extended), Ok(1));
    assert_eq!(runner.current_version("ns"), 5);
}

#[test]
fn unknown_namespace_reads_zero() {
    let runner = MigrationRunner::new();
    assert_eq!(runner.current_version("never-seen"), 0);
}

#[test]
fn empty_list_applies_nothing() {
    let mut runner = MigrationRunner::new();
    assert_eq!(runner.migrate("ns", &[]), Ok(0));
    assert_eq!(runner.current_version("ns"), 0);
}

#[test]
fn namespaces_are_independent() {
    let mut runner = MigrationRunner::new();
    assert_eq!(runner.migrate("a", &[migration(1, "x")]), Ok(1));
    assert_eq!(runner.current_version("a"), 1);
    assert_eq!(runner.current_version("b"), 0);
    assert_eq!(runner.migrate("b", &[migration(1, "x"), migration(2, "y")]), Ok(2));
    assert_eq!(runner.current_version("a"), 1);
    assert_eq!(runner.current_version("b"), 2);
}
