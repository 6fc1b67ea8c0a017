//! Store-facing decisions: the attribute registry and single-datom writes.
//!
//! The engine owns storage and schema enforcement; what the boundary
//! decides is how attribute keywords resolve against the schema's
//! attribute registry and how a single-attribute write request is formed
//! (or refused) before the engine applies it.

use vstd::prelude::*;
use crate::envelope::ExternResult;
use crate::keyed::{keyed_get, keyed_put, keyed_view};
use crate::keyword::{is_keyword_text, keyword_to_text, kw_from_string, kw_name, kw_ns,
    lemma_keyword_text_identity};
use crate::value::{Entid, NamespacedKeyword, TypedValue};
use vstd::string::StringExecFns;

verus! {

/// The schema's attribute registry: the mapping from a keyword's canonical
/// text to the attribute's entity id, as the engine reported it.
#[derive(Debug)]
pub struct Schema {
    attributes: Vec<(String, Entid)>,
}

impl Schema {
    /// The registry as a map from canonical keyword text to entity id.
    pub closed spec fn entid_map(self) -> Map<Seq<char>, Entid> {
        keyed_view(self.attributes@)
    }

    /// An empty registry.
    pub fn new() -> (r: Schema)
        ensures
            r.entid_map() == Map::<Seq<char>, Entid>::empty(),
    {
        Schema { attributes: Vec::new() }
    }

    /// Records an attribute's entity id; a later entry for the same
    /// keyword shadows the earlier one.
    pub fn add_attribute(&mut self, kw: &NamespacedKeyword, entid: Entid)
        ensures
            final(self).entid_map() == old(self).entid_map().insert(
                crate::keyword::keyword_text(kw.namespace@, kw.name@),
                entid,
            ),
    {
        let text = keyword_to_text(kw);
        keyed_put(&mut self.attributes, text, entid);
    }

    /// The entity id of an attribute keyword, or the absent marker for a
    /// keyword the schema does not know.
    pub fn get_entid(&self, kw: &NamespacedKeyword) -> (r: Option<Entid>)
        ensures
            match r {
                Some(e) => self.entid_map().contains_key(
                    crate::keyword::keyword_text(kw.namespace@, kw.name@),
                ) && e == self.entid_map()[crate::keyword::keyword_text(
                    kw.namespace@,
                    kw.name@,
                )],
                None => !self.entid_map().contains_key(
                    crate::keyword::keyword_text(kw.namespace@, kw.name@),
                ),
            },
    {
        let text = keyword_to_text(kw);
        match keyed_get(&self.attributes, text.as_str()) {
            Some(e) => Some(*e),
            None => None,
        }
    }
}

/// Resolves attribute-keyword text to its entity id: the text must be a
/// well-formed keyword and the schema must know it.
pub fn store_entid_for_attribute(schema: &Schema, attr: &str) -> (r: Option<Entid>)
    ensures
        match r {
            Some(e) => is_keyword_text(attr@) && schema.entid_map().contains_key(attr@)
                && e == schema.entid_map()[attr@],
            None => !is_keyword_text(attr@) || !schema.entid_map().contains_key(attr@),
        },
{
    match kw_from_string(attr) {
        Some(kw) => {
            proof {
                lemma_keyword_text_identity(attr@);
            }
            schema.get_entid(&kw)
        },
        None => None,
    }
}

/// A single-datom write request: assert `value` for `attribute` on the
/// entity, ready for the engine to apply.
#[derive(Debug)]
pub struct Datom {
    pub entity: Entid,
    pub attribute: NamespacedKeyword,
    pub value: TypedValue,
}

/// Why a write request could not be formed; each variant carries the
/// offending text, so the error's message can name it.
#[derive(Debug)]
pub enum WriteError {
    /// The attribute text is not a well-formed `:namespace/name` keyword.
    MalformedAttribute(String),
    /// The value text is not a well-formed `:namespace/name` keyword.
    MalformedValue(String),
    /// The value keyword names no attribute known to the schema.
    UnknownAttribute(String),
    /// The value text is not a canonical UUID.
    MalformedUuid(String),
}

impl WriteError {
    /// The message string of this error, as it crosses the boundary:
    /// what went wrong, naming the offending text.
    pub open spec fn spec_message(self) -> Seq<char> {
        match self {
            WriteError::MalformedAttribute(t) => "Malformed attribute keyword "@ + t@,
            WriteError::MalformedValue(t) => "Malformed value keyword "@ + t@,
            WriteError::UnknownAttribute(t) => "Unknown attribute "@ + t@,
            WriteError::MalformedUuid(t) => "Malformed UUID "@ + t@,
        }
    }

    /// Renders the error's message.
    pub fn message(&self) -> (r: String)
        ensures
            r@ == self.spec_message(),
    {
        match self {
            WriteError::MalformedAttribute(t) => {
                let mut s = "Malformed attribute keyword ".to_owned();
                s.append(t.as_str());
                s
            },
            WriteError::MalformedValue(t) => {
                let mut s = "Malformed value keyword ".to_owned();
                s.append(t.as_str());
                s
            },
            WriteError::UnknownAttribute(t) => {
                let mut s = "Unknown attribute ".to_owned();
                s.append(t.as_str());
                s
            },
            WriteError::MalformedUuid(t) => {
                let mut s = "Malformed UUID ".to_owned();
                s.append(t.as_str());
                s
            },
        }
    }
}

/// Renders a refused write request into a result envelope: the null
/// handle beside the error's message string.
pub fn write_error_result(e: &WriteError) -> (r: ExternResult)
    ensures
        r.wf(),
        r.ok == 0,
        (r.err matches Some(m) && m@ == e.spec_message()),
{
    ExternResult { ok: 0, err: Some(e.message()) }
}

/// Forms the write request shared by every typed write: a well-formed
/// attribute keyword around an already tagged value.
pub fn assert_datom(entid: Entid, attribute: &str, value: TypedValue) -> (r: Result<
    Datom,
    WriteError,
>)
    ensures
        match r {
            Ok(d) => is_keyword_text(attribute@) && d.entity == entid && d.attribute.namespace@
                == kw_ns(attribute@) && d.attribute.name@ == kw_name(attribute@) && d.value
                == value,
            Err(e) => !is_keyword_text(attribute@) && (e matches WriteError::MalformedAttribute(t)
                && t@ == attribute@),
        },
{
    match kw_from_string(attribute) {
        Some(kw) => Ok(Datom { entity: entid, attribute: kw, value }),
        None => Err(WriteError::MalformedAttribute(attribute.to_owned())),
    }
}

/// Write request for a long value.
pub fn store_set_long_for_attribute_on_entid(entid: Entid, attribute: &str, value: i64) -> (r:
    Result<Datom, WriteError>)
    ensures
        match r {
            Ok(d) => is_keyword_text(attribute@) && d.entity == entid && d.attribute.namespace@
                == kw_ns(attribute@) && d.attribute.name@ == kw_name(attribute@) && d.value
                == TypedValue::Long(value),
            Err(e) => !is_keyword_text(attribute@) && (e matches WriteError::MalformedAttribute(t)
                && t@ == attribute@),
        },
{
    assert_datom(entid, attribute, TypedValue::Long(value))
}

/// Write request for an entity reference given by its numeric id.
pub fn store_set_entid_for_attribute_on_entid(entid: Entid, attribute: &str, value: Entid) -> (r:
    Result<Datom, WriteError>)
    ensures
        match r {
            Ok(d) => is_keyword_text(attribute@) && d.entity == entid && d.attribute.namespace@
                == kw_ns(attribute@) && d.attribute.name@ == kw_name(attribute@) && d.value
                == TypedValue::Ref(value),
            Err(e) => !is_keyword_text(attribute@) && (e matches WriteError::MalformedAttribute(t)
                && t@ == attribute@),
        },
{
    assert_datom(entid, attribute, TypedValue::Ref(value))
}

/// Write request for a reference given as a keyword: the value keyword is
/// resolved against the schema, and an unknown attribute is reported.
pub fn store_set_kw_ref_for_attribute_on_entid(
    schema: &Schema,
    entid: Entid,
    attribute: &str,
    value: &str,
) -> (r: Result<Datom, WriteError>)
    ensures
        match r {
            Ok(d) => {
                &&& is_keyword_text(attribute@)
                &&& is_keyword_text(value@)
                &&& schema.entid_map().contains_key(value@)
                &&& d.entity == entid
                &&& d.attribute.namespace@ == kw_ns(attribute@)
                &&& d.attribute.name@ == kw_name(attribute@)
                &&& d.value == TypedValue::Ref(schema.entid_map()[value@])
            },
            Err(e) => match e {
                WriteError::MalformedValue(t) => !is_keyword_text(value@) && t@ == value@,
                WriteError::UnknownAttribute(t) => is_keyword_text(value@)
                    && !schema.entid_map().contains_key(value@) && t@ == value@,
                WriteError::MalformedAttribute(t) => is_keyword_text(value@)
                    && schema.entid_map().contains_key(value@) && !is_keyword_text(attribute@)
                    && t@ == attribute@,
                _ => false,
            },
        },
{
    match kw_from_string(value) {
        Some(value_kw) => {
            proof {
                lemma_keyword_text_identity(value@);
            }
            match schema.get_entid(&value_kw) {
                Some(e) => assert_datom(entid, attribute, TypedValue::Ref(e)),
                None => Err(WriteError::UnknownAttribute(value.to_owned())),
            }
        },
        None => Err(WriteError::MalformedValue(value.to_owned())),
    }
}

/// Write request for a boolean value.
pub fn store_set_boolean_for_attribute_on_entid(entid: Entid, attribute: &str, value: bool) -> (r:
    Result<Datom, WriteError>)
    ensures
        match r {
            Ok(d) => is_keyword_text(attribute@) && d.entity == entid && d.attribute.namespace@
                == kw_ns(attribute@) && d.attribute.name@ == kw_name(attribute@) && d.value
                == TypedValue::Boolean(value),
            Err(e) => !is_keyword_text(attribute@) && (e matches WriteError::MalformedAttribute(t)
                && t@ == attribute@),
        },
{
    assert_datom(entid, attribute, TypedValue::Boolean(value))
}

/// Write request for a floating-point value given as its IEEE-754 bit
/// pattern.
pub fn store_set_double_for_attribute_on_entid(entid: Entid, attribute: &str, bits: u64) -> (r:
    Result<Datom, WriteError>)
    ensures
        match r {
            Ok(d) => is_keyword_text(attribute@) && d.entity == entid && d.attribute.namespace@
                == kw_ns(attribute@) && d.attribute.name@ == kw_name(attribute@) && d.value
                == TypedValue::Double(bits),
            Err(e) => !is_keyword_text(attribute@) && (e matches WriteError::MalformedAttribute(t)
                && t@ == attribute@),
        },
{
    assert_datom(entid, attribute, TypedValue::Double(bits))
}

/// Write request for an instant given as the engine's epoch value.
pub fn store_set_timestamp_for_attribute_on_entid(entid: Entid, attribute: &str, value: i64) -> (r:
    Result<Datom, WriteError>)
    ensures
        match r {
            Ok(d) => is_keyword_text(attribute@) && d.entity == entid && d.attribute.namespace@
                == kw_ns(attribute@) && d.attribute.name@ == kw_name(attribute@) && d.value
                == TypedValue::Instant(value),
            Err(e) => !is_keyword_text(attribute@) && (e matches WriteError::MalformedAttribute(t)
                && t@ == attribute@),
        },
{
    assert_datom(entid, attribute, TypedValue::Instant(value))
}

/// Write request for an owned string value.
pub fn store_set_string_for_attribute_on_entid(entid: Entid, attribute: &str, value: String) -> (r:
    Result<Datom, WriteError>)
    ensures
        match r {
            Ok(d) => is_keyword_text(attribute@) && d.entity == entid && d.attribute.namespace@
                == kw_ns(attribute@) && d.attribute.name@ == kw_name(attribute@) && d.value
                == TypedValue::Text(value),
            Err(e) => !is_keyword_text(attribute@) && (e matches WriteError::MalformedAttribute(t)
                && t@ == attribute@),
        },
{
    assert_datom(entid, attribute, TypedValue::Text(value))
}

/// Write request for a UUID written in canonical text form.
pub fn store_set_uuid_for_attribute_on_entid(entid: Entid, attribute: &str, value: &str) -> (r:
    Result<Datom, WriteError>)
    ensures
        match r {
            Ok(d) => {
                &&& crate::uuid::is_uuid_text(value@)
                &&& is_keyword_text(attribute@)
                &&& d.entity == entid
                &&& d.attribute.namespace@ == kw_ns(attribute@)
                &&& d.attribute.name@ == kw_name(attribute@)
                &&& d.value == TypedValue::Uuid(crate::uuid::uuid_of_text(value@))
            },
            Err(e) => match e {
                WriteError::MalformedUuid(t) => !crate::uuid::is_uuid_text(value@) && t@ == value@,
                WriteError::MalformedAttribute(t) => crate::uuid::is_uuid_text(value@)
                    && !is_keyword_text(attribute@) && t@ == attribute@,
                _ => false,
            },
        },
{
    match crate::uuid::uuid_from_string(value) {
        Some(u) => assert_datom(entid, attribute, TypedValue::Uuid(u)),
        None => Err(WriteError::MalformedUuid(value.to_owned())),
    }
}

} // verus!
