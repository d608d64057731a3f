use polykit::json::JsonValue;
use polykit::query::{Order, Query};

#[test]
fn from_selects_everything_by_default() {
    let q = Query::from("users");
    assert_eq!(q.table, "users");
    assert_eq!(q.select, vec!["*".to_string()]);
    assert!(q.where_clauses.is_empty());
    assert!(q.order_by.is_none());
    assert!(q.limit.is_none());
    assert!(q.offset.is_none());
}

#[test]
fn builder_accumulates() {
    let q = Query::from("users")
        .select(&["id", "name"])
        .where_eq("active", JsonValue::Bool(true))
        .order_by("name", Order::Asc)
        .limit(10);
    assert_eq!(q.select, vec!["id".to_string(), "name".to_string()]);
    assert_eq!(q.where_clauses.len(), 1);
    let (col, ord) = q.order_by.clone().unwrap();
    assert_eq!(col, "name");
    assert_eq!(ord, Order::Asc);
    assert_eq!(q.limit, Some(10));
}

#[test]
fn execute_echoes_columns_with_no_rows() {
    let q = Query::from("users").select(&["id"]).limit(3);
    let result = q.execute().unwrap();
    assert_eq!(result.columns, vec!["id".to_string()]);
    assert!(result.rows.is_empty());
    assert_eq!(result.row_count, 0);
}
