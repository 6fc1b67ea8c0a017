use store_bridge::store::{
    assert_datom, store_entid_for_attribute, store_set_boolean_for_attribute_on_entid,
    write_error_result,
    store_set_double_for_attribute_on_entid, store_set_entid_for_attribute_on_entid,
    store_set_kw_ref_for_attribute_on_entid, store_set_long_for_attribute_on_entid,
    store_set_string_for_attribute_on_entid, store_set_timestamp_for_attribute_on_entid,
    store_set_uuid_for_attribute_on_entid, Schema, WriteError,
};
use store_bridge::value::{NamespacedKeyword, TypedValue};

fn kw(ns: &str, name: &str) -> NamespacedKeyword {
    NamespacedKeyword { namespace: ns.to_string(), name: name.to_string() }
}

#[test]
fn entid_resolution_requires_a_known_well_formed_keyword() {
    let mut schema = Schema::new();
    schema.add_attribute(&kw("person", "name"), 65);
    assert_eq!(store_entid_for_attribute(&schema, ":person/name"), Some(65));
    assert_eq!(store_entid_for_attribute(&schema, ":person/age"), None);
    assert_eq!(store_entid_for_attribute(&schema, "person/name"), None);
}

#[test]
fn schema_takes_the_latest_registration() {
    let mut schema = Schema::new();
    schema.add_attribute(&kw("a", "b"), 1);
    schema.add_attribute(&kw("a", "b"), 2);
    assert_eq!(schema.get_entid(&kw("a", "b")), Some(2));
}

#[test]
fn long_write_request_carries_the_typed_value() {
    let d = store_set_long_for_attribute_on_entid(17, ":person/age", 30).unwrap();
    assert_eq!(d.entity, 17);
    assert_eq!(d.attribute.namespace, "person");
    assert_eq!(d.attribute.name, "age");
    assert!(matches!(d.value, TypedValue::Long(30)));
}

#[test]
fn malformed_attribute_text_is_reported() {
    let e = store_set_long_for_attribute_on_entid(17, "no-colon", 1).unwrap_err();
    assert!(matches!(e, WriteError::MalformedAttribute(ref t) if t == "no-colon"));
    assert_eq!(e.message(), "Malformed attribute keyword no-colon");
    let e2 = assert_datom(17, ":a", TypedValue::Long(1)).unwrap_err();
    assert!(matches!(e2, WriteError::MalformedAttribute(ref t) if t == ":a"));
}

#[test]
fn each_typed_write_request_tags_its_value() {
    assert!(matches!(
        store_set_entid_for_attribute_on_entid(1, ":a/b", 9).unwrap().value,
        TypedValue::Ref(9)
    ));
    assert!(matches!(
        store_set_boolean_for_attribute_on_entid(1, ":a/b", true).unwrap().value,
        TypedValue::Boolean(true)
    ));
    assert!(matches!(
        store_set_timestamp_for_attribute_on_entid(1, ":a/b", 1523440800).unwrap().value,
        TypedValue::Instant(1523440800)
    ));
    let bits = 2.5f64.to_bits();
    match store_set_double_for_attribute_on_entid(1, ":a/b", bits).unwrap().value {
        TypedValue::Double(b) => assert_eq!(f64::from_bits(b), 2.5),
        _ => panic!("expected a double"),
    }
    match store_set_string_for_attribute_on_entid(1, ":a/b", "hello".to_string()).unwrap().value {
        TypedValue::Text(s) => assert_eq!(s, "hello"),
        _ => panic!("expected text"),
    }
}

#[test]
fn uuid_write_request_parses_canonical_text() {
    let d = store_set_uuid_for_attribute_on_entid(
        1,
        ":a/b",
        "550e8400-e29b-41d4-a716-446655440000",
    )
    .unwrap();
    assert!(matches!(d.value, TypedValue::Uuid(0x550e8400e29b41d4a716446655440000)));
    let e = store_set_uuid_for_attribute_on_entid(1, ":a/b", "bad").unwrap_err();
    assert!(matches!(e, WriteError::MalformedUuid(ref t) if t == "bad"));
    assert_eq!(e.message(), "Malformed UUID bad");
}

#[test]
fn kw_ref_write_resolves_the_value_keyword() {
    let mut schema = Schema::new();
    schema.add_attribute(&kw("db", "ident"), 10);
    let d = store_set_kw_ref_for_attribute_on_entid(&schema, 1, ":a/b", ":db/ident");
    let d = d.unwrap();
    assert!(matches!(d.value, TypedValue::Ref(10)));
}

#[test]
fn kw_ref_write_reports_an_unknown_attribute() {
    let schema = Schema::new();
    let e = store_set_kw_ref_for_attribute_on_entid(&schema, 1, ":a/b", ":db/ident").unwrap_err();
    assert!(matches!(e, WriteError::UnknownAttribute(ref t) if t == ":db/ident"));
    let e2 = store_set_kw_ref_for_attribute_on_entid(&schema, 1, ":a/b", "junk").unwrap_err();
    assert!(matches!(e2, WriteError::MalformedValue(ref t) if t == "junk"));
    assert_eq!(e2.message(), "Malformed value keyword junk");
}

#[test]
fn unknown_attribute_error_crosses_as_a_message_naming_the_keyword() {
    let schema = Schema::new();
    let e = store_set_kw_ref_for_attribute_on_entid(&schema, 9, ":a/b", ":db/ident").unwrap_err();
    assert_eq!(e.message(), "Unknown attribute :db/ident");
    let envelope = write_error_result(&e);
    assert_eq!(envelope.ok, 0);
    assert_eq!(envelope.err.as_deref(), Some("Unknown attribute :db/ident"));
}
