//! Boundary-wide laws: binding round-trips and indexed-read idempotence.
//!
//! Each law here relates the contracts of several boundary operations.
//! The binding round-trips say that a value bound under a variable is read
//! back with the tag of its type and coerces to the original value; the
//! idempotence law says that the indexed, non-consuming accessors always
//! read the same value from the same handle and index.

use vstd::prelude::*;
use crate::registry::{Payload, Registry};
use crate::value::{Entid, NamespacedKeyword, TypedValue, ValueType};

verus! {

/// LAW: a long bound under a variable reads back with tag `Long` and
/// coerces to the original value, for every map, variable and value.
pub proof fn lemma_bind_long_round_trip(m: Map<Seq<char>, TypedValue>, var: Seq<char>, value: i64)
    ensures
        m.insert(var, TypedValue::Long(value)).contains_key(var),
        m.insert(var, TypedValue::Long(value))[var].spec_value_type() == ValueType::Long,
        m.insert(var, TypedValue::Long(value))[var].spec_into_long() == Some(value),
{
}

/// LAW: an entity reference bound under a variable reads back with tag
/// `Ref` and coerces to the original id.
pub proof fn lemma_bind_ref_round_trip(m: Map<Seq<char>, TypedValue>, var: Seq<char>, value: Entid)
    ensures
        m.insert(var, TypedValue::Ref(value)).contains_key(var),
        m.insert(var, TypedValue::Ref(value))[var].spec_value_type() == ValueType::Ref,
        m.insert(var, TypedValue::Ref(value))[var].spec_into_entid() == Some(value),
{
}

/// LAW: a keyword bound under a variable reads back with tag `Keyword`
/// and coerces to the original keyword.
pub proof fn lemma_bind_kw_round_trip(
    m: Map<Seq<char>, TypedValue>,
    var: Seq<char>,
    kw: NamespacedKeyword,
)
    ensures
        m.insert(var, TypedValue::Keyword(kw)).contains_key(var),
        m.insert(var, TypedValue::Keyword(kw))[var].spec_value_type() == ValueType::Keyword,
        m.insert(var, TypedValue::Keyword(kw))[var].spec_into_kw() == Some(kw),
{
}

/// LAW: a boolean bound under a variable reads back with tag `Boolean`
/// and coerces to the original value.
pub proof fn lemma_bind_boolean_round_trip(
    m: Map<Seq<char>, TypedValue>,
    var: Seq<char>,
    value: bool,
)
    ensures
        m.insert(var, TypedValue::Boolean(value)).contains_key(var),
        m.insert(var, TypedValue::Boolean(value))[var].spec_value_type() == ValueType::Boolean,
        m.insert(var, TypedValue::Boolean(value))[var].spec_into_boolean() == Some(value),
{
}

/// LAW: a floating-point bit pattern bound under a variable reads back
/// with tag `Double` and coerces to the original bits.
pub proof fn lemma_bind_double_round_trip(
    m: Map<Seq<char>, TypedValue>,
    var: Seq<char>,
    bits: u64,
)
    ensures
        m.insert(var, TypedValue::Double(bits)).contains_key(var),
        m.insert(var, TypedValue::Double(bits))[var].spec_value_type() == ValueType::Double,
        m.insert(var, TypedValue::Double(bits))[var].spec_into_double() == Some(bits),
{
}

/// LAW: an instant bound under a variable reads back with tag `Instant`
/// and coerces to the original epoch value.
pub proof fn lemma_bind_timestamp_round_trip(
    m: Map<Seq<char>, TypedValue>,
    var: Seq<char>,
    value: i64,
)
    ensures
        m.insert(var, TypedValue::Instant(value)).contains_key(var),
        m.insert(var, TypedValue::Instant(value))[var].spec_value_type() == ValueType::Instant,
        m.insert(var, TypedValue::Instant(value))[var].spec_into_timestamp() == Some(value),
{
}

/// LAW: a string bound under a variable reads back with tag `Text` and
/// coerces to the original string, the empty string included.
pub proof fn lemma_bind_string_round_trip(
    m: Map<Seq<char>, TypedValue>,
    var: Seq<char>,
    value: String,
)
    ensures
        m.insert(var, TypedValue::Text(value)).contains_key(var),
        m.insert(var, TypedValue::Text(value))[var].spec_value_type() == ValueType::Text,
        m.insert(var, TypedValue::Text(value))[var].spec_into_string() == Some(value),
{
}

/// LAW: a UUID bound under a variable reads back with tag `Uuid` and
/// coerces to the original 128-bit value, the nil UUID included.
pub proof fn lemma_bind_uuid_round_trip(m: Map<Seq<char>, TypedValue>, var: Seq<char>, value: u128)
    ensures
        m.insert(var, TypedValue::Uuid(value)).contains_key(var),
        m.insert(var, TypedValue::Uuid(value))[var].spec_value_type() == ValueType::Uuid,
        m.insert(var, TypedValue::Uuid(value))[var].spec_into_uuid() == Some(value),
{
}

/// LAW: the indexed, non-consuming accessors are idempotent: they borrow
/// the registry, and any two results their contract admits for the same
/// registry, handle and index are equal, so a second read returns the
/// same value and the collection stays usable.
pub proof fn lemma_indexed_read_idempotent(
    reg: Registry,
    values: u64,
    index: usize,
    r1: Option<i64>,
    r2: Option<i64>,
)
    requires
        match reg.payload(values) {
            Some(Payload::Values(v)) => r1 == (if index < v@.len() {
                v@[index as int].spec_into_long()
            } else {
                None::<i64>
            }),
            _ => r1 is None,
        },
        match reg.payload(values) {
            Some(Payload::Values(v)) => r2 == (if index < v@.len() {
                v@[index as int].spec_into_long()
            } else {
                None::<i64>
            }),
            _ => r2 is None,
        },
    ensures
        r1 == r2,
{
}

/// LAW: idempotence of the indexed accessors that clone an owned value:
/// as above, two results the string accessor's contract admits for the
/// same state are equal.
pub proof fn lemma_indexed_string_read_idempotent(
    reg: Registry,
    values: u64,
    index: usize,
    r1: Option<String>,
    r2: Option<String>,
)
    requires
        match reg.payload(values) {
            Some(Payload::Values(v)) => r1 == (if index < v@.len() {
                v@[index as int].spec_into_string()
            } else {
                None::<String>
            }),
            _ => r1 is None,
        },
        match reg.payload(values) {
            Some(Payload::Values(v)) => r2 == (if index < v@.len() {
                v@[index as int].spec_into_string()
            } else {
                None::<String>
            }),
            _ => r2 is None,
        },
    ensures
        r1 == r2,
{
}

} // verus!
