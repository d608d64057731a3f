//! Table schema definitions and the validating builder.
//!
//! A [`TableDef`] is an immutable description of a table's shape. The
//! builder checks the schema invariants — column names unique, at most one
//! primary key, a TTL policy that names an existing column with a positive
//! cleanup interval — and refuses to produce a definition that violates
//! them. After construction the catalog exposes no mutation; schema change
//! happens only through migration operations.

use vstd::prelude::*;

verus! {

/// Table definition.
#[derive(Debug, Clone)]
pub struct TableDef {
    pub name: String,
    pub columns: Vec<ColumnDef>,
    /// Optional row-expiry configuration.
    pub ttl: Option<TtlConfig>,
}

/// Column definition.
#[derive(Debug, Clone)]
pub struct ColumnDef {
    pub name: String,
    pub column_type: ColumnType,
    pub primary_key: bool,
    pub indexed: bool,
    pub nullable: bool,
    pub default: Option<String>,
}

/// Column data types.
#[derive(Debug, Clone, Copy, PartialEq, Eq, Structural)]
pub enum ColumnType {
    Text,
    Integer,
    Real,
    Blob,
    Boolean,
}

/// Configuration for auto-expiring rows.
#[derive(Debug, Clone)]
pub struct TtlConfig {
    /// Column holding the expiration timestamp.
    pub column: String,
    /// How often to check for expired rows (milliseconds); always positive.
    pub cleanup_interval_ms: u64,
}

/// The schema rule an invalid table definition broke.
#[derive(Debug, Clone, Copy, PartialEq, Eq, Structural)]
pub enum SchemaError {
    /// Two columns share a name.
    DuplicateColumn,
    /// More than one column is marked as primary key.
    MultiplePrimaryKeys,
    /// The TTL configuration names a column the table does not have.
    TtlColumnMissing,
    /// The TTL cleanup interval is zero.
    TtlIntervalZero,
}

/// Two columns of the sequence share a name.
pub open spec fn has_duplicate_column(cols: Seq<ColumnDef>) -> bool {
    exists|i: int, j: int| 0 <= i < j < cols.len() && cols[i].name@ == cols[j].name@
}

/// More than one column of the sequence is marked as primary key.
pub open spec fn has_multiple_primary_keys(cols: Seq<ColumnDef>) -> bool {
    exists|i: int, j: int|
        0 <= i < j < cols.len() && cols[i].primary_key && cols[j].primary_key
}

/// Some column of the sequence carries this name.
pub open spec fn has_column_named(cols: Seq<ColumnDef>, name: Seq<char>) -> bool {
    exists|i: int| 0 <= i < cols.len() && cols[i].name@ == name
}

impl TableDef {
    /// The schema invariants of §3: unique column names, at most one primary
    /// key, and a TTL policy that points at an existing column with a
    /// positive interval.
    pub open spec fn wf(self) -> bool {
        &&& !has_duplicate_column(self.columns@)
        &&& !has_multiple_primary_keys(self.columns@)
        &&& (self.ttl matches Some(t) ==> has_column_named(self.columns@, t.column@)
            && t.cleanup_interval_ms > 0)
    }
}

/// Builder for table definitions.
pub struct TableBuilder {
    name: String,
    columns: Vec<ColumnDef>,
    ttl: Option<TtlConfig>,
}

impl TableBuilder {
    pub closed spec fn spec_name(self) -> Seq<char> {
        self.name@
    }

    pub closed spec fn spec_columns(self) -> Seq<ColumnDef> {
        self.columns@
    }

    pub closed spec fn spec_ttl(self) -> Option<TtlConfig> {
        self.ttl
    }

    pub fn new(name: &str) -> (r: Self)
        ensures
            r.spec_name() == name@,
            r.spec_columns() == Seq::<ColumnDef>::empty(),
            r.spec_ttl() is None,
    {
        TableBuilder { name: name.to_owned(), columns: Vec::new(), ttl: None }
    }

    /// Start a column with the given name and type; flags default to off.
    pub fn column(self, name: &str, col_type: ColumnType) -> (r: ColumnBuilder)
        ensures
            r.spec_table() == self,
            r.spec_def().name@ == name@,
            r.spec_def().column_type == col_type,
            !r.spec_def().primary_key,
            !r.spec_def().indexed,
            !r.spec_def().nullable,
            r.spec_def().default is None,
    {
        ColumnBuilder {
            table: self,
            def: ColumnDef {
                name: name.to_owned(),
                column_type: col_type,
                primary_key: false,
                indexed: false,
                nullable: false,
                default: None,
            },
        }
    }

    /// Attach a TTL policy naming the expiry column and the cleanup interval.
    pub fn ttl(self, column: &str, cleanup_interval_ms: u64) -> (r: Self)
        ensures
            r.spec_name() == self.spec_name(),
            r.spec_columns() == self.spec_columns(),
            r.spec_ttl() matches Some(t) && t.column@ == column@ && t.cleanup_interval_ms
                == cleanup_interval_ms,
    {
        TableBuilder {
            ttl: Some(TtlConfig { column: column.to_owned(), cleanup_interval_ms }),
            ..self
        }
    }

    /// Validate the collected definition and produce it, or report the first
    /// violated schema rule: duplicate columns, then extra primary keys,
    /// then the TTL policy's column and interval.
    #[verifier::loop_isolation(false)]
    pub fn build(self) -> (r: Result<TableDef, SchemaError>)
        ensures
            r is Ok <==> !has_duplicate_column(self.spec_columns())
                && !has_multiple_primary_keys(self.spec_columns()) && (
            self.spec_ttl() matches Some(t) ==> has_column_named(self.spec_columns(), t.column@)
                && t.cleanup_interval_ms > 0),
            r matches Ok(d) ==> d.wf() && d.name@ == self.spec_name() && d.columns@
                == self.spec_columns() && d.ttl == self.spec_ttl(),
            has_duplicate_column(self.spec_columns()) ==> r == Err::<TableDef, SchemaError>(
                SchemaError::DuplicateColumn,
            ),
            !has_duplicate_column(self.spec_columns()) && has_multiple_primary_keys(
                self.spec_columns(),
            ) ==> r == Err::<TableDef, SchemaError>(SchemaError::MultiplePrimaryKeys),
            !has_duplicate_column(self.spec_columns()) && !has_multiple_primary_keys(
                self.spec_columns(),
            ) && (self.spec_ttl() matches Some(t) && !has_column_named(
                self.spec_columns(),
                t.column@,
            )) ==> r == Err::<TableDef, SchemaError>(SchemaError::TtlColumnMissing),
            !has_duplicate_column(self.spec_columns()) && !has_multiple_primary_keys(
                self.spec_columns(),
            ) && (self.spec_ttl() matches Some(t) && has_column_named(
                self.spec_columns(),
                t.column@,
            ) && t.cleanup_interval_ms == 0) ==> r == Err::<TableDef, SchemaError>(
                SchemaError::TtlIntervalZero,
            ),
    {
        let n = self.columns.len();
        let mut i: usize = 0;
        while i < n
            invariant
                n == self.columns@.len(),
                i <= n,
                forall|a: int, b: int|
                    0 <= a < b < i ==> self.columns@[a].name@ != self.columns@[b].name@,
            decreases n - i,
        {
            let mut j: usize = 0;
            while j < i
                invariant
                    i < n == self.columns@.len(),
                    j <= i,
                    forall|b: int| 0 <= b < j ==> self.columns@[b].name@ != self.columns@[
                        i as int
                    ].name@,
                decreases i - j,
            {
                if self.columns[j].name == self.columns[i].name {
                    return Err(SchemaError::DuplicateColumn);
                }
                j += 1;
            }
            i += 1;
        }
        let mut i: usize = 0;
        while i < n
            invariant
                n == self.columns@.len(),
                i <= n,
                forall|a: int, b: int|
                    0 <= a < b < i ==> !(self.columns@[a].primary_key && self.columns@[
                        b
                    ].primary_key),
            decreases n - i,
        {
            if self.columns[i].primary_key {
                let mut j: usize = 0;
                while j < i
                    invariant
                        i < n == self.columns@.len(),
                        j <= i,
                        self.columns@[i as int].primary_key,
                        forall|b: int| 0 <= b < j ==> !self.columns@[b].primary_key,
                    decreases i - j,
                {
                    if self.columns[j].primary_key {
                        return Err(SchemaError::MultiplePrimaryKeys);
                    }
                    j += 1;
                }
            }
            i += 1;
        }
        proof {
            assert(self.columns@.take(n as int) =~= self.columns@);
        }
        if let Some(ttl) = &self.ttl {
            let mut found = false;
            let mut i: usize = 0;
            while i < n
                invariant
                    n == self.columns@.len(),
                    i <= n,
                    found ==> has_column_named(self.columns@, ttl.column@),
                    !found ==> forall|a: int|
                        0 <= a < i ==> self.columns@[a].name@ != ttl.column@,
                decreases n - i,
            {
                if self.columns[i].name == ttl.column {
                    found = true;
                }
                i += 1;
            }
            if !found {
                return Err(SchemaError::TtlColumnMissing);
            }
            if ttl.cleanup_interval_ms == 0 {
                return Err(SchemaError::TtlIntervalZero);
            }
        }
        Ok(TableDef { name: self.name, columns: self.columns, ttl: self.ttl })
    }
}

/// Builder for one column; `done` hands the finished column back to its table.
pub struct ColumnBuilder {
    table: TableBuilder,
    def: ColumnDef,
}

impl ColumnBuilder {
    pub closed spec fn spec_table(self) -> TableBuilder {
        self.table
    }

    pub closed spec fn spec_def(self) -> ColumnDef {
        self.def
    }

    pub fn primary_key(self) -> (r: Self)
        ensures
            r.spec_table() == self.spec_table(),
            r.spec_def() == (ColumnDef { primary_key: true, ..self.spec_def() }),
    {
        ColumnBuilder { def: ColumnDef { primary_key: true, ..self.def }, ..self }
    }

    pub fn indexed(self) -> (r: Self)
        ensures
            r.spec_table() == self.spec_table(),
            r.spec_def() == (ColumnDef { indexed: true, ..self.spec_def() }),
    {
        ColumnBuilder { def: ColumnDef { indexed: true, ..self.def }, ..self }
    }

    pub fn nullable(self) -> (r: Self)
        ensures
            r.spec_table() == self.spec_table(),
            r.spec_def() == (ColumnDef { nullable: true, ..self.spec_def() }),
    {
        ColumnBuilder { def: ColumnDef { nullable: true, ..self.def }, ..self }
    }

    pub fn default(self, value: &str) -> (r: Self)
        ensures
            r.spec_table() == self.spec_table(),
            r.spec_def() matches ColumnDef { default: Some(d), .. } && d@ == value@,
            r.spec_def() == (ColumnDef { default: r.spec_def().default, ..self.spec_def() }),
    {
        ColumnBuilder { def: ColumnDef { default: Some(value.to_owned()), ..self.def }, ..self }
    }

    /// Finish the column and return to the table builder.
    pub fn done(self) -> (r: TableBuilder)
        ensures
            r.spec_name() == self.spec_table().spec_name(),
            r.spec_columns() == self.spec_table().spec_columns().push(self.spec_def()),
            r.spec_ttl() == self.spec_table().spec_ttl(),
    {
        let mut table = self.table;
        table.columns.push(self.def);
        table
    }
}

} // verus!
