//! The tagged scalar that query execution and attribute lookup produce,
//! and the checked coercions out of it.
//!
//! A `TypedValue` carries exactly one of the supported native types, and
//! every extraction either returns the value interpreted as the requested
//! type or reports a mismatch; the only cross-tag readings allowed are the
//! two numeric/id coercions between `Long` and `Ref`, which share a
//! representation by design.

use vstd::prelude::*;

verus! {

/// An entity id in the store.
pub type Entid = i64;

/// The tag of a [`TypedValue`].
#[derive(Clone, Copy, PartialEq, Eq, Structural, Debug)]
pub enum ValueType {
    Ref,
    Boolean,
    Instant,
    Long,
    Double,
    Text,
    Keyword,
    Uuid,
}

/// A namespaced keyword: a namespace and a name, written `:namespace/name`.
#[derive(Debug)]
pub struct NamespacedKeyword {
    pub namespace: String,
    pub name: String,
}

impl Clone for NamespacedKeyword {
    fn clone(&self) -> (r: Self)
        ensures
            r == *self,
    {
        NamespacedKeyword { namespace: self.namespace.clone(), name: self.name.clone() }
    }
}

/// A dynamically typed scalar.  The tag is immutable once the value is
/// produced; floating-point values are carried as their IEEE-754 bit
/// pattern, and UUIDs as their 128-bit value.
#[derive(Debug)]
pub enum TypedValue {
    Ref(Entid),
    Boolean(bool),
    Instant(i64),
    Long(i64),
    Double(u64),
    Text(String),
    Keyword(NamespacedKeyword),
    Uuid(u128),
}

impl Clone for TypedValue {
    fn clone(&self) -> (r: Self)
        ensures
            r == *self,
    {
        match self {
            TypedValue::Ref(e) => TypedValue::Ref(*e),
            TypedValue::Boolean(b) => TypedValue::Boolean(*b),
            TypedValue::Instant(t) => TypedValue::Instant(*t),
            TypedValue::Long(v) => TypedValue::Long(*v),
            TypedValue::Double(bits) => TypedValue::Double(*bits),
            TypedValue::Text(s) => TypedValue::Text(s.clone()),
            TypedValue::Keyword(kw) => TypedValue::Keyword(kw.clone()),
            TypedValue::Uuid(u) => TypedValue::Uuid(*u),
        }
    }
}

/// An element-wise copy of a value sequence.
pub fn clone_values(v: &Vec<TypedValue>) -> (r: Vec<TypedValue>)
    ensures
        r@ == v@,
{
    let mut r: Vec<TypedValue> = Vec::new();
    let mut i: usize = 0;
    while i < v.len()
        invariant
            i <= v@.len(),
            r@.len() == i,
            forall|j: int| 0 <= j < i ==> r@[j] == v@[j],
        decreases v@.len() - i,
    {
        r.push(v[i].clone());
        i = i + 1;
    }
    proof {
        assert(r@ =~= v@);
    }
    r
}

impl View for TypedValue {
    type V = TypedValue;

    open spec fn view(&self) -> TypedValue {
        *self
    }
}

impl TypedValue {
    /// The tag of this value.
    pub open spec fn spec_value_type(self) -> ValueType {
        match self {
            TypedValue::Ref(_) => ValueType::Ref,
            TypedValue::Boolean(_) => ValueType::Boolean,
            TypedValue::Instant(_) => ValueType::Instant,
            TypedValue::Long(_) => ValueType::Long,
            TypedValue::Double(_) => ValueType::Double,
            TypedValue::Text(_) => ValueType::Text,
            TypedValue::Keyword(_) => ValueType::Keyword,
            TypedValue::Uuid(_) => ValueType::Uuid,
        }
    }

    /// Tag query: reads the tag without consuming the value.
    pub fn value_type(&self) -> (t: ValueType)
        ensures
            t == self.spec_value_type(),
    {
        match self {
            TypedValue::Ref(_) => ValueType::Ref,
            TypedValue::Boolean(_) => ValueType::Boolean,
            TypedValue::Instant(_) => ValueType::Instant,
            TypedValue::Long(_) => ValueType::Long,
            TypedValue::Double(_) => ValueType::Double,
            TypedValue::Text(_) => ValueType::Text,
            TypedValue::Keyword(_) => ValueType::Keyword,
            TypedValue::Uuid(_) => ValueType::Uuid,
        }
    }

    pub open spec fn spec_into_long(self) -> Option<i64> {
        match self {
            TypedValue::Long(v) => Some(v),
            TypedValue::Ref(e) => Some(e),
            _ => None,
        }
    }

    /// The value read as a long integer; `Ref` shares the representation.
    pub fn into_long(self) -> (r: Option<i64>)
        ensures
            r == self.spec_into_long(),
    {
        match self {
            TypedValue::Long(v) => Some(v),
            TypedValue::Ref(e) => Some(e),
            _ => None,
        }
    }

    pub open spec fn spec_into_entid(self) -> Option<Entid> {
        match self {
            TypedValue::Ref(e) => Some(e),
            TypedValue::Long(v) => Some(v),
            _ => None,
        }
    }

    /// The value read as an entity id; `Long` shares the representation.
    pub fn into_entid(self) -> (r: Option<Entid>)
        ensures
            r == self.spec_into_entid(),
    {
        match self {
            TypedValue::Ref(e) => Some(e),
            TypedValue::Long(v) => Some(v),
            _ => None,
        }
    }

    pub open spec fn spec_into_boolean(self) -> Option<bool> {
        match self {
            TypedValue::Boolean(b) => Some(b),
            _ => None,
        }
    }

    pub fn into_boolean(self) -> (r: Option<bool>)
        ensures
            r == self.spec_into_boolean(),
    {
        match self {
            TypedValue::Boolean(b) => Some(b),
            _ => None,
        }
    }

    pub open spec fn spec_into_double(self) -> Option<u64> {
        match self {
            TypedValue::Double(bits) => Some(bits),
            _ => None,
        }
    }

    /// The value read as a floating-point bit pattern.
    pub fn into_double(self) -> (r: Option<u64>)
        ensures
            r == self.spec_into_double(),
    {
        match self {
            TypedValue::Double(bits) => Some(bits),
            _ => None,
        }
    }

    pub open spec fn spec_into_timestamp(self) -> Option<i64> {
        match self {
            TypedValue::Instant(t) => Some(t),
            _ => None,
        }
    }

    pub fn into_timestamp(self) -> (r: Option<i64>)
        ensures
            r == self.spec_into_timestamp(),
    {
        match self {
            TypedValue::Instant(t) => Some(t),
            _ => None,
        }
    }

    pub open spec fn spec_into_kw(self) -> Option<NamespacedKeyword> {
        match self {
            TypedValue::Keyword(kw) => Some(kw),
            _ => None,
        }
    }

    pub fn into_kw(self) -> (r: Option<NamespacedKeyword>)
        ensures
            r == self.spec_into_kw(),
    {
        match self {
            TypedValue::Keyword(kw) => Some(kw),
            _ => None,
        }
    }

    pub open spec fn spec_into_string(self) -> Option<String> {
        match self {
            TypedValue::Text(s) => Some(s),
            _ => None,
        }
    }

    pub fn into_string(self) -> (r: Option<String>)
        ensures
            r == self.spec_into_string(),
    {
        match self {
            TypedValue::Text(s) => Some(s),
            _ => None,
        }
    }

    pub open spec fn spec_into_uuid(self) -> Option<u128> {
        match self {
            TypedValue::Uuid(u) => Some(u),
            _ => None,
        }
    }

    pub fn into_uuid(self) -> (r: Option<u128>)
        ensures
            r == self.spec_into_uuid(),
    {
        match self {
            TypedValue::Uuid(u) => Some(u),
            _ => None,
        }
    }
}

} // verus!
