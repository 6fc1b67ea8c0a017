use store_bridge::keyword::{keyword_to_text, kw_from_string};
use store_bridge::uuid::{uuid_from_string, uuid_to_string};
use store_bridge::value::NamespacedKeyword;

#[test]
fn keyword_parses_canonical_text() {
    let kw = kw_from_string(":foo/bar").unwrap();
    assert_eq!(kw.namespace, "foo");
    assert_eq!(kw.name, "bar");
}

#[test]
fn keyword_takes_first_slash_as_separator() {
    let kw = kw_from_string(":a/b/c").unwrap();
    assert_eq!(kw.namespace, "a");
    assert_eq!(kw.name, "b/c");
}

#[test]
fn keyword_rejects_malformed_text() {
    assert!(kw_from_string("").is_none());
    assert!(kw_from_string("foo/bar").is_none());
    assert!(kw_from_string(":foobar").is_none());
    assert!(kw_from_string(":/bar").is_none());
    assert!(kw_from_string(":foo/").is_none());
    assert!(kw_from_string(":a").is_none());
}

#[test]
fn keyword_text_round_trip() {
    let kw = NamespacedKeyword { namespace: "db".to_string(), name: "ident".to_string() };
    let text = keyword_to_text(&kw);
    assert_eq!(text, ":db/ident");
    let back = kw_from_string(&text).unwrap();
    assert_eq!(back.namespace, "db");
    assert_eq!(back.name, "ident");
}

#[test]
fn uuid_parses_canonical_text() {
    let u = uuid_from_string("550e8400-e29b-41d4-a716-446655440000").unwrap();
    assert_eq!(u, 0x550e8400e29b41d4a716446655440000u128);
}

#[test]
fn uuid_accepts_upper_case_digits() {
    let u = uuid_from_string("550E8400-E29B-41D4-A716-446655440000").unwrap();
    assert_eq!(u, 0x550e8400e29b41d4a716446655440000u128);
}

#[test]
fn uuid_rejects_malformed_text() {
    assert!(uuid_from_string("").is_none());
    assert!(uuid_from_string("550e8400e29b41d4a716446655440000").is_none());
    assert!(uuid_from_string("550e8400-e29b-41d4-a716-44665544000").is_none());
    assert!(uuid_from_string("550e8400-e29b-41d4-a716-4466554400zz").is_none());
    assert!(uuid_from_string("550e8400+e29b+41d4+a716+446655440000").is_none());
}

#[test]
fn uuid_writes_lower_case_canonical_text() {
    let s = uuid_to_string(0x550e8400e29b41d4a716446655440000u128);
    assert_eq!(s, "550e8400-e29b-41d4-a716-446655440000");
}

#[test]
fn uuid_nil_round_trip() {
    let s = uuid_to_string(0);
    assert_eq!(s, "00000000-0000-0000-0000-000000000000");
    assert_eq!(uuid_from_string(&s), Some(0));
}

#[test]
fn uuid_max_round_trip() {
    let u = u128::MAX;
    let s = uuid_to_string(u);
    assert_eq!(s, "ffffffff-ffff-ffff-ffff-ffffffffffff");
    assert_eq!(uuid_from_string(&s), Some(u));
}
