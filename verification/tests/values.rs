use store_bridge::query::QueryBuilder;
use store_bridge::value::{NamespacedKeyword, TypedValue, ValueType};

fn kw(ns: &str, name: &str) -> NamespacedKeyword {
    NamespacedKeyword { namespace: ns.to_string(), name: name.to_string() }
}

#[test]
fn tag_query_matches_each_variant() {
    assert_eq!(TypedValue::Long(7).value_type(), ValueType::Long);
    assert_eq!(TypedValue::Ref(7).value_type(), ValueType::Ref);
    assert_eq!(TypedValue::Boolean(true).value_type(), ValueType::Boolean);
    assert_eq!(TypedValue::Instant(0).value_type(), ValueType::Instant);
    assert_eq!(TypedValue::Double(1.5f64.to_bits()).value_type(), ValueType::Double);
    assert_eq!(TypedValue::Text("x".to_string()).value_type(), ValueType::Text);
    assert_eq!(TypedValue::Keyword(kw("a", "b")).value_type(), ValueType::Keyword);
    assert_eq!(TypedValue::Uuid(0).value_type(), ValueType::Uuid);
}

#[test]
fn long_and_ref_share_a_representation() {
    assert_eq!(TypedValue::Long(-3).into_entid(), Some(-3));
    assert_eq!(TypedValue::Ref(42).into_long(), Some(42));
    assert_eq!(TypedValue::Long(0).into_long(), Some(0));
}

#[test]
fn mismatched_coercions_are_reported() {
    assert_eq!(TypedValue::Boolean(true).into_long(), None);
    assert_eq!(TypedValue::Text("x".to_string()).into_boolean(), None);
    assert_eq!(TypedValue::Long(1).into_string(), None);
    assert_eq!(TypedValue::Instant(5).into_double(), None);
    assert_eq!(TypedValue::Double(0).into_timestamp(), None);
    assert!(TypedValue::Uuid(1).into_kw().is_none());
    assert_eq!(TypedValue::Keyword(kw("a", "b")).into_uuid(), None);
}

#[test]
fn bind_long_round_trip() {
    let mut qb = QueryBuilder::new("[:find ?x]".to_string());
    qb.bind_long("?x", -9223372036854775808);
    let v = qb.bound_value("?x").unwrap();
    assert_eq!(v.value_type(), ValueType::Long);
    assert_eq!(v.clone().into_long(), Some(-9223372036854775808));
}

#[test]
fn bind_ref_round_trip() {
    let mut qb = QueryBuilder::new("q".to_string());
    qb.bind_ref("?e", 65536);
    let v = qb.bound_value("?e").unwrap();
    assert_eq!(v.value_type(), ValueType::Ref);
    assert_eq!(v.clone().into_entid(), Some(65536));
}

#[test]
fn bind_boolean_round_trip() {
    let mut qb = QueryBuilder::new("q".to_string());
    qb.bind_boolean("?b", false);
    let v = qb.bound_value("?b").unwrap();
    assert_eq!(v.value_type(), ValueType::Boolean);
    assert_eq!(v.clone().into_boolean(), Some(false));
}

#[test]
fn bind_double_round_trip() {
    let mut qb = QueryBuilder::new("q".to_string());
    qb.bind_double("?d", (-0.5f64).to_bits());
    let v = qb.bound_value("?d").unwrap();
    assert_eq!(v.value_type(), ValueType::Double);
    assert_eq!(f64::from_bits(v.clone().into_double().unwrap()), -0.5);
}

#[test]
fn bind_timestamp_round_trip() {
    let mut qb = QueryBuilder::new("q".to_string());
    qb.bind_instant("?t", 0);
    let v = qb.bound_value("?t").unwrap();
    assert_eq!(v.value_type(), ValueType::Instant);
    assert_eq!(v.clone().into_timestamp(), Some(0));
}

#[test]
fn bind_string_round_trip_empty_string() {
    let mut qb = QueryBuilder::new("q".to_string());
    qb.bind_string("?s", "".to_string());
    let v = qb.bound_value("?s").unwrap();
    assert_eq!(v.value_type(), ValueType::Text);
    assert_eq!(v.clone().into_string(), Some("".to_string()));
}

#[test]
fn bind_kw_round_trip() {
    let mut qb = QueryBuilder::new("q".to_string());
    qb.bind_kw("?k", kw("foo", "bar"));
    let v = qb.bound_value("?k").unwrap();
    assert_eq!(v.value_type(), ValueType::Keyword);
    let back = v.clone().into_kw().unwrap();
    assert_eq!(back.namespace, "foo");
    assert_eq!(back.name, "bar");
}

#[test]
fn bind_uuid_round_trip_nil_uuid() {
    let mut qb = QueryBuilder::new("q".to_string());
    assert!(qb.bind_uuid("?u", "00000000-0000-0000-0000-000000000000"));
    let v = qb.bound_value("?u").unwrap();
    assert_eq!(v.value_type(), ValueType::Uuid);
    assert_eq!(v.clone().into_uuid(), Some(0));
}

#[test]
fn bind_uuid_malformed_is_reported_and_ignored() {
    let mut qb = QueryBuilder::new("q".to_string());
    assert!(!qb.bind_uuid("?u", "not-a-uuid"));
    assert!(qb.bound_value("?u").is_none());
}

#[test]
fn rebinding_a_variable_shadows_the_earlier_binding() {
    let mut qb = QueryBuilder::new("q".to_string());
    qb.bind_long("?x", 1);
    qb.bind_long("?x", 2);
    assert_eq!(qb.bound_value("?x").unwrap().clone().into_long(), Some(2));
}
