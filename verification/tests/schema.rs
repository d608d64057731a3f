use polykit::schema::{ColumnType, SchemaError, TableBuilder};

#[test]
fn ttl_must_reference_an_existing_column() {
    let missing = TableBuilder::new("events")
        .column("id", ColumnType::Integer)
        .primary_key()
        .done()
        .ttl("expires_at", 60_000)
        .build();
    assert_eq!(missing.unwrap_err(), SchemaError::TtlColumnMissing);

    let ok = TableBuilder::new("events")
        .column("id", ColumnType::Integer)
        .primary_key()
        .done()
        .column("expires_at", ColumnType::Integer)
        .done()
        .ttl("expires_at", 60_000)
        .build()
        .unwrap();
    assert_eq!(ok.name, "events");
    assert_eq!(ok.columns.len(), 2);
    let ttl = ok.ttl.unwrap();
    assert_eq!(ttl.column, "expires_at");
    assert_eq!(ttl.cleanup_interval_ms, 60_000);
}

#[test]
fn duplicate_column_names_are_rejected() {
    let r = TableBuilder::new("t")
        .column("name", ColumnType::Text)
        .done()
        .column("name", ColumnType::Blob)
        .done()
        .build();
    assert_eq!(r.unwrap_err(), SchemaError::DuplicateColumn);
}

#[test]
fn at_most_one_primary_key() {
    let r = TableBuilder::new("t")
        .column("a", ColumnType::Integer)
        .primary_key()
        .done()
        .column("b", ColumnType::Integer)
        .primary_key()
        .done()
        .build();
    assert_eq!(r.unwrap_err(), SchemaError::MultiplePrimaryKeys);
}

#[test]
fn zero_cleanup_interval_is_rejected() {
    let r = TableBuilder::new("t")
        .column("exp", ColumnType::Integer)
        .done()
        .ttl("exp", 0)
        .build();
    assert_eq!(r.unwrap_err(), SchemaError::TtlIntervalZero);
}

#[test]
fn column_flags_and_default_are_recorded() {
    let t = TableBuilder::new("t")
        .column("id", ColumnType::Integer)
        .primary_key()
        .done()
        .column("note", ColumnType::Text)
        .nullable()
        .indexed()
        .default("n/a")
        .done()
        .build()
        .unwrap();
    assert!(t.columns[0].primary_key);
    assert!(!t.columns[0].nullable);
    let note = &t.columns[1];
    assert!(note.nullable && note.indexed && !note.primary_key);
    assert_eq!(note.default.as_deref(), Some("n/a"));
    assert_eq!(note.column_type, ColumnType::Text);
}
