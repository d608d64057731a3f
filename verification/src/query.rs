//! Query builder for the embedded store.
//!
//! Builds table queries fluently; execution against the store happens
//! through host imports, so within this core `execute` returns the empty
//! result with the selected column list.

use vstd::prelude::*;
use crate::json::JsonValue;

verus! {

/// Query result handed back to the host binding layer.
#[derive(Debug, Clone)]
pub struct QueryResult {
    pub columns: Vec<String>,
    pub rows: Vec<Vec<JsonValue>>,
    pub row_count: usize,
}

/// A single restriction on the rows a query returns.
#[derive(Debug, Clone)]
pub enum WhereClause {
    Eq(String, JsonValue),
    Lt(String, JsonValue),
    Gt(String, JsonValue),
    Like(String, String),
    In(String, Vec<JsonValue>),
    IsNull(String),
    IsNotNull(String),
}

/// Sort direction.
#[derive(Debug, Clone, Copy, PartialEq, Eq, Structural)]
pub enum Order {
    Asc,
    Desc,
}

/// Query builder.
#[derive(Debug, Clone)]
pub struct Query {
    pub table: String,
    pub select: Vec<String>,
    pub where_clauses: Vec<WhereClause>,
    pub order_by: Option<(String, Order)>,
    pub limit: Option<usize>,
    pub offset: Option<usize>,
}

impl Query {
    /// Start a query over a table, selecting every column.
    pub fn from(table: &str) -> (r: Self)
        ensures
            r.table@ == table@,
            r.select@.len() == 1 && r.select@[0]@ == "*"@,
            r.where_clauses@.len() == 0,
            r.order_by is None,
            r.limit is None,
            r.offset is None,
    {
        let mut select: Vec<String> = Vec::new();
        select.push("*".to_owned());
        Query {
            table: table.to_owned(),
            select,
            where_clauses: Vec::new(),
            order_by: None,
            limit: None,
            offset: None,
        }
    }

    /// Replace the selected columns.
    pub fn select(self, columns: &[&str]) -> (r: Self)
        ensures
            r.select@.len() == columns@.len(),
            forall|i: int| 0 <= i < columns@.len() ==> r.select@[i]@ == columns@[i]@,
            r.table == self.table,
            r.where_clauses == self.where_clauses,
            r.order_by == self.order_by,
            r.limit == self.limit,
            r.offset == self.offset,
    {
        let mut select: Vec<String> = Vec::new();
        let n = columns.len();
        let mut i: usize = 0;
        while i < n
            invariant
                i <= n,
                n == columns@.len(),
                select@.len() == i,
                forall|a: int| 0 <= a < i ==> select@[a]@ == columns@[a]@,
            decreases n - i,
        {
            select.push(columns[i].to_owned());
            i += 1;
        }
        Query { select, ..self }
    }

    /// Add an equality restriction on a column.
    pub fn where_eq(self, column: &str, value: JsonValue) -> (r: Self)
        ensures
            r.where_clauses@.len() == self.where_clauses@.len() + 1,
            forall|i: int|
                0 <= i < self.where_clauses@.len() ==> r.where_clauses@[i]
                    == self.where_clauses@[i],
            r.where_clauses@.last() matches WhereClause::Eq(c, v) && c@ == column@ && v == value,
            r.table == self.table,
            r.select == self.select,
            r.order_by == self.order_by,
            r.limit == self.limit,
            r.offset == self.offset,
    {
        let mut where_clauses = self.where_clauses;
        where_clauses.push(WhereClause::Eq(column.to_owned(), value));
        Query { where_clauses, ..self }
    }

    /// Order the result by a column.
    pub fn order_by(self, column: &str, order: Order) -> (r: Self)
        ensures
            r.order_by matches Some((c, o)) && c@ == column@ && o == order,
            r.table == self.table,
            r.select == self.select,
            r.where_clauses == self.where_clauses,
            r.limit == self.limit,
            r.offset == self.offset,
    {
        Query { order_by: Some((column.to_owned(), order)), ..self }
    }

    /// Cap the number of rows returned.
    pub fn limit(self, n: usize) -> (r: Self)
        ensures
            r.limit == Some(n),
            r.table == self.table,
            r.select == self.select,
            r.where_clauses == self.where_clauses,
            r.order_by == self.order_by,
            r.offset == self.offset,
    {
        Query { limit: Some(n), ..self }
    }

    /// Execute the query. Running rows through the store is the host's job;
    /// within this core the result carries the selected columns and no rows.
    pub fn execute(&self) -> (r: Result<QueryResult, String>)
        ensures
            r matches Ok(q) && q.columns@.len() == self.select@.len() && (forall|i: int|
                0 <= i < self.select@.len() ==> q.columns@[i]@ == self.select@[i]@)
                && q.rows@.len() == 0 && q.row_count == 0,
    {
        let mut columns: Vec<String> = Vec::new();
        let n = self.select.len();
        let mut i: usize = 0;
        while i < n
            invariant
                i <= n,
                n == self.select@.len(),
                columns@.len() == i,
                forall|a: int| 0 <= a < i ==> columns@[a]@ == self.select@[a]@,
            decreases n - i,
        {
            columns.push(self.select[i].clone());
            i += 1;
        }
        Ok(QueryResult { columns, rows: Vec::new(), row_count: 0 })
    }
}

} // verus!
