use store_bridge::accessors::{typed_value_as_long, value_at_index_as_long, values_len};
use store_bridge::envelope::store_value_for_attribute;
use store_bridge::query::{
    query_builder_bind_boolean, query_builder_bind_long, query_builder_bind_ref_kw,
    query_builder_bind_uuid, query_builder_execute, query_builder_execute_coll,
    query_builder_execute_scalar, query_builder_execute_tuple, store_query,
};
use store_bridge::registry::{query_builder_destroy, Registry};
use store_bridge::store::Schema;
use store_bridge::value::{NamespacedKeyword, TypedValue};

fn rows(data: Vec<Vec<i64>>) -> Vec<Vec<TypedValue>> {
    data.into_iter().map(|r| r.into_iter().map(TypedValue::Long).collect()).collect()
}

#[test]
fn store_query_stages_a_builder_handle() {
    let mut reg = Registry::new();
    let qb = store_query(&mut reg, "[:find ?x]");
    assert!(qb != 0);
    assert!(query_builder_bind_long(&mut reg, qb, "?x", 1));
    assert!(query_builder_bind_boolean(&mut reg, qb, "?b", true));
    assert!(query_builder_destroy(&mut reg, qb));
    assert!(!query_builder_bind_long(&mut reg, qb, "?x", 1));
}

#[test]
fn bind_on_a_dead_or_foreign_handle_is_reported() {
    let mut reg = Registry::new();
    assert!(!query_builder_bind_long(&mut reg, 0, "?x", 1));
    assert!(!query_builder_bind_long(&mut reg, 99, "?x", 1));
}

#[test]
fn bind_ref_kw_resolves_through_the_schema() {
    let mut reg = Registry::new();
    let mut schema = Schema::new();
    let kw = NamespacedKeyword { namespace: "db".to_string(), name: "ident".to_string() };
    schema.add_attribute(&kw, 10);
    let qb = store_query(&mut reg, "q");
    assert!(query_builder_bind_ref_kw(&mut reg, &schema, qb, "?a", ":db/ident"));
    assert!(!query_builder_bind_ref_kw(&mut reg, &schema, qb, "?a", ":db/unknown"));
    assert!(!query_builder_bind_ref_kw(&mut reg, &schema, qb, "?a", "malformed"));
}

#[test]
fn bind_uuid_on_handle_rejects_malformed_text() {
    let mut reg = Registry::new();
    let qb = store_query(&mut reg, "q");
    assert!(query_builder_bind_uuid(&mut reg, qb, "?u", "00000000-0000-0000-0000-000000000000"));
    assert!(!query_builder_bind_uuid(&mut reg, qb, "?u", "nope"));
}

#[test]
fn scalar_of_zero_rows_is_null_success_null_error() {
    let mut reg = Registry::new();
    let r = query_builder_execute_scalar(&mut reg, Ok(rows(vec![])));
    assert_eq!(r.ok, 0);
    assert!(r.err.is_none());
}

#[test]
fn scalar_of_one_row_returns_the_value() {
    let mut reg = Registry::new();
    let r = query_builder_execute_scalar(&mut reg, Ok(rows(vec![vec![42]])));
    assert!(r.err.is_none());
    assert_eq!(typed_value_as_long(&mut reg, r.ok), Some(42));
}

#[test]
fn scalar_of_several_rows_takes_the_first() {
    let mut reg = Registry::new();
    let r = query_builder_execute_scalar(&mut reg, Ok(rows(vec![vec![1], vec![2], vec![3]])));
    assert!(r.err.is_none());
    assert_eq!(typed_value_as_long(&mut reg, r.ok), Some(1));
}

#[test]
fn scalar_of_an_engine_failure_carries_the_message() {
    let mut reg = Registry::new();
    let r = query_builder_execute_scalar(&mut reg, Err("bad query".to_string()));
    assert_eq!(r.ok, 0);
    assert_eq!(r.err.as_deref(), Some("bad query"));
}

#[test]
fn scalar_of_an_empty_row_is_an_error() {
    let mut reg = Registry::new();
    let r = query_builder_execute_scalar(&mut reg, Ok(vec![vec![]]));
    assert_eq!(r.ok, 0);
    assert_eq!(r.err.as_deref(), Some("scalar result row is empty"));
}

#[test]
fn tuple_of_zero_rows_is_null_success_null_error() {
    let mut reg = Registry::new();
    let r = query_builder_execute_tuple(&mut reg, Ok(rows(vec![])));
    assert_eq!(r.ok, 0);
    assert!(r.err.is_none());
}

#[test]
fn tuple_of_one_row_returns_the_whole_row() {
    let mut reg = Registry::new();
    let r = query_builder_execute_tuple(&mut reg, Ok(rows(vec![vec![1, 2, 3]])));
    assert!(r.err.is_none());
    assert_eq!(values_len(&reg, r.ok), Some(3));
    assert_eq!(value_at_index_as_long(&reg, r.ok, 2), Some(3));
}

#[test]
fn coll_flattens_single_column_rows() {
    let mut reg = Registry::new();
    let r = query_builder_execute_coll(&mut reg, Ok(rows(vec![vec![7], vec![8], vec![9]])));
    assert!(r.err.is_none());
    assert_eq!(values_len(&reg, r.ok), Some(3));
    assert_eq!(value_at_index_as_long(&reg, r.ok, 0), Some(7));
    assert_eq!(value_at_index_as_long(&reg, r.ok, 2), Some(9));
}

#[test]
fn coll_reports_a_row_without_a_column() {
    let mut reg = Registry::new();
    let r = query_builder_execute_coll(&mut reg, Ok(vec![vec![TypedValue::Long(1)], vec![]]));
    assert_eq!(r.ok, 0);
    assert_eq!(r.err.as_deref(), Some("collection result row is empty"));
}

#[test]
fn rel_returns_the_row_set_in_order() {
    let mut reg = Registry::new();
    let r = query_builder_execute(&mut reg, Ok(rows(vec![vec![1, 2], vec![3, 4]])));
    assert!(r.err.is_none());
    assert_eq!(store_bridge::accessors::rows_len(&reg, r.ok), Some(2));
    let row = store_bridge::accessors::row_at_index(&mut reg, r.ok, 1);
    assert_eq!(value_at_index_as_long(&reg, row, 1), Some(4));
}

#[test]
fn value_for_attribute_composes_result_and_option() {
    let mut reg = Registry::new();
    let found = store_value_for_attribute(&mut reg, Ok(Some(TypedValue::Long(5))));
    assert!(found.err.is_none());
    assert_eq!(typed_value_as_long(&mut reg, found.ok), Some(5));

    let absent = store_value_for_attribute(&mut reg, Ok(None));
    assert_eq!(absent.ok, 0);
    assert!(absent.err.is_none());

    let failed = store_value_for_attribute(&mut reg, Err("no such attribute".to_string()));
    assert_eq!(failed.ok, 0);
    assert_eq!(failed.err.as_deref(), Some("no such attribute"));
}
