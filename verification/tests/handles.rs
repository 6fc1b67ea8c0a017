use store_bridge::accessors::{
    row_at_index, rows_iter, rows_iter_next, typed_value_as_boolean, typed_value_as_kw,
    typed_value_as_long, typed_value_as_string, typed_value_as_uuid, typed_value_value_type,
    value_at_index, value_at_index_as_long, value_at_index_as_string, values_iter,
    values_iter_next, values_iter_next_as_boolean, values_iter_next_as_long,
    values_iter_next_as_string, values_iter_next_as_uuid, values_len,
};
use store_bridge::envelope::extern_option_from;
use store_bridge::registry::{
    destroy, query_builder_destroy, typed_value_destroy, typed_value_list_destroy,
    typed_value_list_iter_destroy, typed_value_result_set_destroy,
    typed_value_result_set_iter_destroy, tx_report_destroy, Payload, Registry,
};
use store_bridge::value::{TypedValue, ValueType};

#[test]
fn destroy_null_is_a_no_op_for_every_destructor_kind() {
    let mut reg = Registry::new();
    assert!(!destroy(&mut reg, 0));
    assert!(!query_builder_destroy(&mut reg, 0));
    assert!(!tx_report_destroy(&mut reg, 0));
    assert!(!typed_value_destroy(&mut reg, 0));
    assert!(!typed_value_list_destroy(&mut reg, 0));
    assert!(!typed_value_list_iter_destroy(&mut reg, 0));
    assert!(!typed_value_result_set_destroy(&mut reg, 0));
    assert!(!typed_value_result_set_iter_destroy(&mut reg, 0));
}

#[test]
fn one_destroy_per_handle_and_a_second_is_reported() {
    let mut reg = Registry::new();
    let h = reg.register(Payload::Value(TypedValue::Long(5)));
    assert!(h != 0);
    assert!(destroy(&mut reg, h));
    assert!(!destroy(&mut reg, h));
}

#[test]
fn typed_destructor_frees_only_its_own_kind() {
    let mut reg = Registry::new();
    let h = reg.register(Payload::Value(TypedValue::Long(5)));
    assert!(!tx_report_destroy(&mut reg, h));
    assert_eq!(typed_value_value_type(&reg, h), Some(ValueType::Long));
    assert!(typed_value_destroy(&mut reg, h));
    assert_eq!(typed_value_value_type(&reg, h), None);
}

#[test]
fn consuming_accessor_is_single_use() {
    let mut reg = Registry::new();
    let h = reg.register(Payload::Value(TypedValue::Long(7)));
    assert_eq!(typed_value_as_long(&mut reg, h), Some(7));
    assert_eq!(typed_value_as_long(&mut reg, h), None);
    assert!(!destroy(&mut reg, h));
}

#[test]
fn consuming_accessor_consumes_even_on_mismatch() {
    let mut reg = Registry::new();
    let h = reg.register(Payload::Value(TypedValue::Boolean(true)));
    assert_eq!(typed_value_as_long(&mut reg, h), None);
    assert_eq!(typed_value_as_boolean(&mut reg, h), None);
}

#[test]
fn consuming_accessor_leaves_other_kinds_intact() {
    let mut reg = Registry::new();
    let h = reg.register(Payload::Values(vec![TypedValue::Long(1)]));
    assert_eq!(typed_value_as_long(&mut reg, h), None);
    assert_eq!(values_len(&reg, h), Some(1));
}

#[test]
fn consuming_kw_and_string_and_uuid_accessors() {
    let mut reg = Registry::new();
    let kw = store_bridge::keyword::kw_from_string(":foo/bar").unwrap();
    let h1 = reg.register(Payload::Value(TypedValue::Keyword(kw)));
    assert_eq!(typed_value_as_kw(&mut reg, h1), Some(":foo/bar".to_string()));
    let h2 = reg.register(Payload::Value(TypedValue::Text("hi".to_string())));
    assert_eq!(typed_value_as_string(&mut reg, h2), Some("hi".to_string()));
    let h3 = reg.register(Payload::Value(TypedValue::Uuid(0)));
    assert_eq!(
        typed_value_as_uuid(&mut reg, h3),
        Some("00000000-0000-0000-0000-000000000000".to_string())
    );
}

#[test]
fn indexed_access_is_idempotent() {
    let mut reg = Registry::new();
    let h = reg.register(Payload::Values(vec![
        TypedValue::Long(10),
        TypedValue::Text("a".to_string()),
    ]));
    assert_eq!(value_at_index_as_long(&reg, h, 0), Some(10));
    assert_eq!(value_at_index_as_long(&reg, h, 0), Some(10));
    assert_eq!(value_at_index_as_string(&reg, h, 1), Some("a".to_string()));
    assert_eq!(value_at_index_as_long(&reg, h, 0), Some(10));
    assert!(value_at_index(&reg, h, 0).is_some());
    assert_eq!(values_len(&reg, h), Some(2));
}

#[test]
fn indexed_access_out_of_range_is_reported() {
    let mut reg = Registry::new();
    let h = reg.register(Payload::Values(vec![TypedValue::Long(10)]));
    assert_eq!(value_at_index_as_long(&reg, h, 1), None);
    assert!(value_at_index(&reg, h, 7).is_none());
}

#[test]
fn values_iterator_consumes_the_handle_and_exhausts() {
    let mut reg = Registry::new();
    let h = reg.register(Payload::Values(vec![TypedValue::Long(1), TypedValue::Long(2)]));
    let it = values_iter(&mut reg, h);
    assert!(it != 0);
    assert_eq!(values_len(&reg, h), None);
    let v1 = values_iter_next(&mut reg, it);
    assert_eq!(typed_value_as_long(&mut reg, v1), Some(1));
    let v2 = values_iter_next(&mut reg, it);
    assert_eq!(typed_value_as_long(&mut reg, v2), Some(2));
    assert_eq!(values_iter_next(&mut reg, it), 0);
    assert_eq!(values_iter_next(&mut reg, it), 0);
    assert!(typed_value_list_iter_destroy(&mut reg, it));
}

#[test]
fn typed_iterator_reads_advance_the_cursor() {
    let mut reg = Registry::new();
    let h = reg.register(Payload::Values(vec![
        TypedValue::Long(4),
        TypedValue::Boolean(true),
        TypedValue::Text("s".to_string()),
        TypedValue::Uuid(1),
    ]));
    let it = values_iter(&mut reg, h);
    assert_eq!(values_iter_next_as_long(&mut reg, it), Some(4));
    assert_eq!(values_iter_next_as_boolean(&mut reg, it), Some(true));
    assert_eq!(values_iter_next_as_string(&mut reg, it), Some("s".to_string()));
    assert_eq!(
        values_iter_next_as_uuid(&mut reg, it),
        Some("00000000-0000-0000-0000-000000000001".to_string())
    );
    assert_eq!(values_iter_next_as_long(&mut reg, it), None);
}

#[test]
fn typed_iterator_read_consumes_the_element_on_mismatch() {
    let mut reg = Registry::new();
    let h = reg.register(Payload::Values(vec![TypedValue::Boolean(true), TypedValue::Long(2)]));
    let it = values_iter(&mut reg, h);
    assert_eq!(values_iter_next_as_long(&mut reg, it), None);
    assert_eq!(values_iter_next_as_long(&mut reg, it), Some(2));
}

#[test]
fn option_envelope_marks_presence_with_a_handle() {
    let mut reg = Registry::new();
    let present = extern_option_from(&mut reg, Some(Payload::Value(TypedValue::Long(3))));
    assert!(present.value != 0);
    assert_eq!(typed_value_as_long(&mut reg, present.value), Some(3));
    let absent = extern_option_from(&mut reg, None);
    assert_eq!(absent.value, 0);
}

#[test]
fn rows_iterator_walks_rows_in_order() {
    let mut reg = Registry::new();
    let h = reg.register(Payload::Rows(vec![
        vec![TypedValue::Long(1)],
        vec![TypedValue::Long(2)],
    ]));
    let it = rows_iter(&mut reg, h);
    assert!(it != 0);
    let r1 = rows_iter_next(&mut reg, it);
    assert_eq!(value_at_index_as_long(&reg, r1, 0), Some(1));
    let r2 = rows_iter_next(&mut reg, it);
    assert_eq!(value_at_index_as_long(&reg, r2, 0), Some(2));
    assert_eq!(rows_iter_next(&mut reg, it), 0);
    assert!(typed_value_result_set_iter_destroy(&mut reg, it));
}

#[test]
fn row_at_index_clones_and_leaves_the_row_set() {
    let mut reg = Registry::new();
    let h = reg.register(Payload::Rows(vec![
        vec![TypedValue::Long(1), TypedValue::Boolean(true)],
        vec![TypedValue::Long(2), TypedValue::Boolean(false)],
    ]));
    let row = row_at_index(&mut reg, h, 1);
    assert!(row != 0);
    assert_eq!(value_at_index_as_long(&reg, row, 0), Some(2));
    let again = row_at_index(&mut reg, h, 1);
    assert!(again != 0);
    assert!(again != row);
    assert_eq!(row_at_index(&mut reg, h, 2), 0);
    assert!(typed_value_result_set_destroy(&mut reg, h));
}
