//! The staged query object.
//!
//! A query builder holds the query text and a mapping from variable name to
//! bound value, built incrementally by the typed `bind_*` operations; a
//! later binding of the same variable shadows the earlier one.  Executing
//! the staged query is the engine's work; shaping its answer into the four
//! result shapes lives with the result envelopes.

use vstd::prelude::*;
use crate::envelope::{extern_result_from, ExternResult};
use crate::keyed::{keyed_get, keyed_put, keyed_view};
use crate::keyword::{is_keyword_text, kw_from_string, kw_name, kw_ns};
use crate::registry::{Payload, Registry};
use crate::store::Schema;
use crate::uuid::uuid_from_string;
use crate::value::{Entid, NamespacedKeyword, TypedValue};

verus! {

/// A staged query: the query text plus the variable bindings accumulated
/// so far.
#[derive(Debug)]
pub struct QueryBuilder {
    query: String,
    bindings: Vec<(String, TypedValue)>,
}

impl QueryBuilder {
    /// The query text.
    pub closed spec fn query_text(self) -> Seq<char> {
        self.query@
    }

    /// The variable bindings as a map from variable name to bound value.
    pub closed spec fn bindings_map(self) -> Map<Seq<char>, TypedValue> {
        keyed_view(self.bindings@)
    }

    /// A fresh builder over the given query text, with no bindings.
    pub fn new(query: String) -> (r: QueryBuilder)
        ensures
            r.query_text() == query@,
            r.bindings_map() == Map::<Seq<char>, TypedValue>::empty(),
    {
        QueryBuilder { query, bindings: Vec::new() }
    }

    /// Binds a variable to an already tagged value.
    pub fn bind_value(&mut self, var: &str, value: TypedValue)
        ensures
            final(self).query_text() == old(self).query_text(),
            final(self).bindings_map() == old(self).bindings_map().insert(var@, value),
    {
        keyed_put(&mut self.bindings, var.to_owned(), value);
    }

    /// Binds a variable to a long integer.
    pub fn bind_long(&mut self, var: &str, value: i64)
        ensures
            final(self).query_text() == old(self).query_text(),
            final(self).bindings_map() == old(self).bindings_map().insert(
                var@,
                TypedValue::Long(value),
            ),
    {
        self.bind_value(var, TypedValue::Long(value));
    }

    /// Binds a variable to an entity reference given by its numeric id.
    pub fn bind_ref(&mut self, var: &str, value: Entid)
        ensures
            final(self).query_text() == old(self).query_text(),
            final(self).bindings_map() == old(self).bindings_map().insert(
                var@,
                TypedValue::Ref(value),
            ),
    {
        self.bind_value(var, TypedValue::Ref(value));
    }

    /// Binds a variable to the entity the schema resolves a keyword to;
    /// reports an unknown keyword and leaves the bindings unchanged.
    pub fn bind_ref_from_kw(&mut self, schema: &Schema, var: &str, kw: &NamespacedKeyword) -> (r:
        bool)
        ensures
            final(self).query_text() == old(self).query_text(),
            match schema.entid_map().contains_key(crate::keyword::keyword_text(
                kw.namespace@,
                kw.name@,
            )) {
                true => r && final(self).bindings_map() == old(self).bindings_map().insert(
                    var@,
                    TypedValue::Ref(
                        schema.entid_map()[crate::keyword::keyword_text(
                            kw.namespace@,
                            kw.name@,
                        )],
                    ),
                ),
                false => !r && final(self).bindings_map() == old(self).bindings_map(),
            },
    {
        match schema.get_entid(kw) {
            Some(e) => {
                self.bind_value(var, TypedValue::Ref(e));
                true
            },
            None => false,
        }
    }

    /// Binds a variable to a keyword itself, as a value rather than a
    /// reference.
    pub fn bind_kw(&mut self, var: &str, kw: NamespacedKeyword)
        ensures
            final(self).query_text() == old(self).query_text(),
            final(self).bindings_map() == old(self).bindings_map().insert(
                var@,
                TypedValue::Keyword(kw),
            ),
    {
        self.bind_value(var, TypedValue::Keyword(kw));
    }

    /// Binds a variable to a boolean.
    pub fn bind_boolean(&mut self, var: &str, value: bool)
        ensures
            final(self).query_text() == old(self).query_text(),
            final(self).bindings_map() == old(self).bindings_map().insert(
                var@,
                TypedValue::Boolean(value),
            ),
    {
        self.bind_value(var, TypedValue::Boolean(value));
    }

    /// Binds a variable to a floating-point value given as its IEEE-754
    /// bit pattern.
    pub fn bind_double(&mut self, var: &str, bits: u64)
        ensures
            final(self).query_text() == old(self).query_text(),
            final(self).bindings_map() == old(self).bindings_map().insert(
                var@,
                TypedValue::Double(bits),
            ),
    {
        self.bind_value(var, TypedValue::Double(bits));
    }

    /// Binds a variable to an instant given as the engine's epoch value.
    pub fn bind_instant(&mut self, var: &str, value: i64)
        ensures
            final(self).query_text() == old(self).query_text(),
            final(self).bindings_map() == old(self).bindings_map().insert(
                var@,
                TypedValue::Instant(value),
            ),
    {
        self.bind_value(var, TypedValue::Instant(value));
    }

    /// Binds a variable to an owned string.
    pub fn bind_string(&mut self, var: &str, value: String)
        ensures
            final(self).query_text() == old(self).query_text(),
            final(self).bindings_map() == old(self).bindings_map().insert(
                var@,
                TypedValue::Text(value),
            ),
    {
        self.bind_value(var, TypedValue::Text(value));
    }

    /// Binds a variable to the UUID written in canonical text form;
    /// reports malformed text and leaves the bindings unchanged.
    pub fn bind_uuid(&mut self, var: &str, text: &str) -> (r: bool)
        ensures
            final(self).query_text() == old(self).query_text(),
            match crate::uuid::is_uuid_text(text@) {
                true => r && final(self).bindings_map() == old(self).bindings_map().insert(
                    var@,
                    TypedValue::Uuid(crate::uuid::uuid_of_text(text@)),
                ),
                false => !r && final(self).bindings_map() == old(self).bindings_map(),
            },
    {
        match uuid_from_string(text) {
            Some(u) => {
                self.bind_value(var, TypedValue::Uuid(u));
                true
            },
            None => false,
        }
    }

    /// The value currently bound to a variable, if any.
    pub fn bound_value(&self, var: &str) -> (r: Option<&TypedValue>)
        ensures
            match r {
                Some(v) => self.bindings_map().contains_key(var@)
                    && *v == self.bindings_map()[var@],
                None => !self.bindings_map().contains_key(var@),
            },
    {
        keyed_get(&self.bindings, var)
    }
}

/// Whether the handle refers to a live query builder.
pub open spec fn is_builder(p: Option<Payload>) -> bool {
    p matches Some(Payload::Builder(_))
}

/// The builder behind the handle gained one binding, chosen by `accept`,
/// and kept its query text and every other binding.
pub open spec fn builder_rebound_with(
    p0: Option<Payload>,
    p1: Option<Payload>,
    var: Seq<char>,
    accept: spec_fn(TypedValue) -> bool,
) -> bool {
    match (p0, p1) {
        (Some(Payload::Builder(b0)), Some(Payload::Builder(b1))) => {
            &&& b1.query_text() == b0.query_text()
            &&& b1.bindings_map().contains_key(var)
            &&& accept(b1.bindings_map()[var])
            &&& b1.bindings_map() == b0.bindings_map().insert(var, b1.bindings_map()[var])
        },
        _ => false,
    }
}

/// The builder behind the handle gained exactly this binding.
pub open spec fn builder_rebound(
    p0: Option<Payload>,
    p1: Option<Payload>,
    var: Seq<char>,
    value: TypedValue,
) -> bool {
    builder_rebound_with(p0, p1, var, |tv: TypedValue| tv == value)
}

/// Stages a fresh query over the given text and hands its builder to the
/// caller as a fresh handle.
pub fn store_query(reg: &mut Registry, query: &str) -> (h: u64)
    requires
        old(reg).can_allocate(),
    ensures
        h != 0,
        !old(reg).is_live(h),
        (final(reg).payload(h) matches Some(Payload::Builder(b)) && b.query_text() == query@
            && b.bindings_map() == Map::<Seq<char>, TypedValue>::empty()),
        forall|h2: u64| h2 != h ==> final(reg).payload(h2) == old(reg).payload(h2),
{
    let b = QueryBuilder::new(query.to_owned());
    reg.register(Payload::Builder(b))
}

/// Binds a long on the builder behind the handle; a handle that is not a
/// live builder is reported and nothing changes.
pub fn query_builder_bind_long(reg: &mut Registry, qb: u64, var: &str, value: i64) -> (applied:
    bool)
    ensures
        applied == is_builder(old(reg).payload(qb)),
        applied ==> builder_rebound(
            old(reg).payload(qb),
            final(reg).payload(qb),
            var@,
            TypedValue::Long(value),
        ),
        !applied ==> final(reg).payload(qb) == old(reg).payload(qb),
        forall|h: u64| h != qb ==> final(reg).payload(h) == old(reg).payload(h),
{
    match reg.take(qb) {
        Some(Payload::Builder(mut b)) => {
            b.bind_long(var, value);
            reg.put(qb, Payload::Builder(b));
            true
        },
        Some(p) => {
            reg.put(qb, p);
            false
        },
        None => false,
    }
}

/// Binds an entity reference by numeric id on the builder behind the
/// handle.
pub fn query_builder_bind_ref(reg: &mut Registry, qb: u64, var: &str, value: Entid) -> (applied:
    bool)
    ensures
        applied == is_builder(old(reg).payload(qb)),
        applied ==> builder_rebound(
            old(reg).payload(qb),
            final(reg).payload(qb),
            var@,
            TypedValue::Ref(value),
        ),
        !applied ==> final(reg).payload(qb) == old(reg).payload(qb),
        forall|h: u64| h != qb ==> final(reg).payload(h) == old(reg).payload(h),
{
    match reg.take(qb) {
        Some(Payload::Builder(mut b)) => {
            b.bind_ref(var, value);
            reg.put(qb, Payload::Builder(b));
            true
        },
        Some(p) => {
            reg.put(qb, p);
            false
        },
        None => false,
    }
}

/// Binds an entity reference given as attribute-keyword text, resolved
/// against the schema; malformed text, an unknown keyword, or a handle
/// that is not a live builder is reported and nothing changes.
pub fn query_builder_bind_ref_kw(
    reg: &mut Registry,
    schema: &Schema,
    qb: u64,
    var: &str,
    value: &str,
) -> (applied: bool)
    ensures
        applied == (is_builder(old(reg).payload(qb)) && is_keyword_text(value@)
            && schema.entid_map().contains_key(value@)),
        applied ==> builder_rebound(
            old(reg).payload(qb),
            final(reg).payload(qb),
            var@,
            TypedValue::Ref(schema.entid_map()[value@]),
        ),
        !applied ==> final(reg).payload(qb) == old(reg).payload(qb),
        forall|h: u64| h != qb ==> final(reg).payload(h) == old(reg).payload(h),
{
    match kw_from_string(value) {
        Some(kw) => {
            proof {
                crate::keyword::lemma_keyword_text_identity(value@);
            }
            match schema.get_entid(&kw) {
                Some(e) => match reg.take(qb) {
                    Some(Payload::Builder(mut b)) => {
                        b.bind_ref(var, e);
                        reg.put(qb, Payload::Builder(b));
                        true
                    },
                    Some(p) => {
                        reg.put(qb, p);
                        false
                    },
                    None => false,
                },
                None => false,
            }
        },
        None => false,
    }
}

/// Binds a keyword itself, given as text, as a value; malformed text or a
/// handle that is not a live builder is reported and nothing changes.
pub fn query_builder_bind_kw(reg: &mut Registry, qb: u64, var: &str, value: &str) -> (applied:
    bool)
    ensures
        applied == (is_builder(old(reg).payload(qb)) && is_keyword_text(value@)),
        applied ==> builder_rebound_with(
            old(reg).payload(qb),
            final(reg).payload(qb),
            var@,
            |tv: TypedValue|
                {
                    &&& tv matches TypedValue::Keyword(kw)
                    &&& kw.namespace@ == kw_ns(value@)
                    &&& kw.name@ == kw_name(value@)
                },
        ),
        !applied ==> final(reg).payload(qb) == old(reg).payload(qb),
        forall|h: u64| h != qb ==> final(reg).payload(h) == old(reg).payload(h),
{
    match kw_from_string(value) {
        Some(kw) => match reg.take(qb) {
            Some(Payload::Builder(mut b)) => {
                b.bind_kw(var, kw);
                reg.put(qb, Payload::Builder(b));
                true
            },
            Some(p) => {
                reg.put(qb, p);
                false
            },
            None => false,
        },
        None => false,
    }
}

/// Binds a boolean on the builder behind the handle.
pub fn query_builder_bind_boolean(reg: &mut Registry, qb: u64, var: &str, value: bool) -> (applied:
    bool)
    ensures
        applied == is_builder(old(reg).payload(qb)),
        applied ==> builder_rebound(
            old(reg).payload(qb),
            final(reg).payload(qb),
            var@,
            TypedValue::Boolean(value),
        ),
        !applied ==> final(reg).payload(qb) == old(reg).payload(qb),
        forall|h: u64| h != qb ==> final(reg).payload(h) == old(reg).payload(h),
{
    match reg.take(qb) {
        Some(Payload::Builder(mut b)) => {
            b.bind_boolean(var, value);
            reg.put(qb, Payload::Builder(b));
            true
        },
        Some(p) => {
            reg.put(qb, p);
            false
        },
        None => false,
    }
}

/// Binds a floating-point value, given as its IEEE-754 bit pattern, on
/// the builder behind the handle.
pub fn query_builder_bind_double(reg: &mut Registry, qb: u64, var: &str, bits: u64) -> (applied:
    bool)
    ensures
        applied == is_builder(old(reg).payload(qb)),
        applied ==> builder_rebound(
            old(reg).payload(qb),
            final(reg).payload(qb),
            var@,
            TypedValue::Double(bits),
        ),
        !applied ==> final(reg).payload(qb) == old(reg).payload(qb),
        forall|h: u64| h != qb ==> final(reg).payload(h) == old(reg).payload(h),
{
    match reg.take(qb) {
        Some(Payload::Builder(mut b)) => {
            b.bind_double(var, bits);
            reg.put(qb, Payload::Builder(b));
            true
        },
        Some(p) => {
            reg.put(qb, p);
            false
        },
        None => false,
    }
}

/// Binds an instant, given as a platform time value normalized to the
/// engine's epoch representation, on the builder behind the handle.
pub fn query_builder_bind_timestamp(reg: &mut Registry, qb: u64, var: &str, value: i64) -> (applied:
    bool)
    ensures
        applied == is_builder(old(reg).payload(qb)),
        applied ==> builder_rebound(
            old(reg).payload(qb),
            final(reg).payload(qb),
            var@,
            TypedValue::Instant(value),
        ),
        !applied ==> final(reg).payload(qb) == old(reg).payload(qb),
        forall|h: u64| h != qb ==> final(reg).payload(h) == old(reg).payload(h),
{
    match reg.take(qb) {
        Some(Payload::Builder(mut b)) => {
            b.bind_instant(var, value);
            reg.put(qb, Payload::Builder(b));
            true
        },
        Some(p) => {
            reg.put(qb, p);
            false
        },
        None => false,
    }
}

/// Binds an owned string on the builder behind the handle.
pub fn query_builder_bind_string(reg: &mut Registry, qb: u64, var: &str, value: &str) -> (applied:
    bool)
    ensures
        applied == is_builder(old(reg).payload(qb)),
        applied ==> builder_rebound_with(
            old(reg).payload(qb),
            final(reg).payload(qb),
            var@,
            |tv: TypedValue| tv matches TypedValue::Text(s) && s@ == value@,
        ),
        !applied ==> final(reg).payload(qb) == old(reg).payload(qb),
        forall|h: u64| h != qb ==> final(reg).payload(h) == old(reg).payload(h),
{
    match reg.take(qb) {
        Some(Payload::Builder(mut b)) => {
            b.bind_string(var, value.to_owned());
            reg.put(qb, Payload::Builder(b));
            true
        },
        Some(p) => {
            reg.put(qb, p);
            false
        },
        None => false,
    }
}

/// Binds a UUID, given in canonical text form, on the builder behind the
/// handle; malformed text is reported and nothing changes.
pub fn query_builder_bind_uuid(reg: &mut Registry, qb: u64, var: &str, value: &str) -> (applied:
    bool)
    ensures
        applied == (is_builder(old(reg).payload(qb)) && crate::uuid::is_uuid_text(value@)),
        applied ==> builder_rebound(
            old(reg).payload(qb),
            final(reg).payload(qb),
            var@,
            TypedValue::Uuid(crate::uuid::uuid_of_text(value@)),
        ),
        !applied ==> final(reg).payload(qb) == old(reg).payload(qb),
        forall|h: u64| h != qb ==> final(reg).payload(h) == old(reg).payload(h),
{
    match uuid_from_string(value) {
        Some(u) => match reg.take(qb) {
            Some(Payload::Builder(mut b)) => {
                b.bind_value(var, TypedValue::Uuid(u));
                reg.put(qb, Payload::Builder(b));
                true
            },
            Some(p) => {
                reg.put(qb, p);
                false
            },
            None => false,
        },
        None => false,
    }
}

/// Shapes the engine's answer to a scalar query: at most one row of one
/// column.  No rows is the composed "succeeded with nothing" outcome; of
/// several rows the first is taken, a deliberate and uniform choice.
pub fn query_builder_execute_scalar(
    reg: &mut Registry,
    reply: Result<Vec<Vec<TypedValue>>, String>,
) -> (r: ExternResult)
    requires
        old(reg).can_allocate(),
    ensures
        r.wf(),
        match reply {
            Err(m) => r.ok == 0 && r.err == Some(m) && forall|h: u64|
                final(reg).payload(h) == old(reg).payload(h),
            Ok(rows) => {
                if rows@.len() == 0 {
                    r.ok == 0 && r.err is None && forall|h: u64|
                        final(reg).payload(h) == old(reg).payload(h)
                } else if rows@[0]@.len() == 0 {
                    r.ok == 0 && (r.err matches Some(m) && m@ == "scalar result row is empty"@)
                        && forall|h: u64| final(reg).payload(h) == old(reg).payload(h)
                } else {
                    &&& r.err is None
                    &&& r.ok != 0
                    &&& !old(reg).is_live(r.ok)
                    &&& final(reg).payload(r.ok) == Some(Payload::Value(rows@[0]@[0]))
                    &&& forall|h: u64| h != r.ok ==> final(reg).payload(h) == old(reg).payload(h)
                }
            },
        },
{
    match reply {
        Err(m) => extern_result_from(reg, Err(m)),
        Ok(mut rows) => {
            if rows.len() == 0 {
                ExternResult { ok: 0, err: None }
            } else {
                let mut first = rows.remove(0);
                if first.len() == 0 {
                    ExternResult { ok: 0, err: Some("scalar result row is empty".to_owned()) }
                } else {
                    let v = first.remove(0);
                    extern_result_from(reg, Ok(Payload::Value(v)))
                }
            }
        },
    }
}

/// Shapes the engine's answer to a tuple query: at most one row.  No rows
/// is the composed "succeeded with nothing" outcome; of several rows the
/// first is taken, a deliberate and uniform choice.
pub fn query_builder_execute_tuple(
    reg: &mut Registry,
    reply: Result<Vec<Vec<TypedValue>>, String>,
) -> (r: ExternResult)
    requires
        old(reg).can_allocate(),
    ensures
        r.wf(),
        match reply {
            Err(m) => r.ok == 0 && r.err == Some(m) && forall|h: u64|
                final(reg).payload(h) == old(reg).payload(h),
            Ok(rows) => {
                if rows@.len() == 0 {
                    r.ok == 0 && r.err is None && forall|h: u64|
                        final(reg).payload(h) == old(reg).payload(h)
                } else {
                    &&& r.err is None
                    &&& r.ok != 0
                    &&& !old(reg).is_live(r.ok)
                    &&& final(reg).payload(r.ok) == Some(Payload::Values(rows@[0]))
                    &&& forall|h: u64| h != r.ok ==> final(reg).payload(h) == old(reg).payload(h)
                }
            },
        },
{
    match reply {
        Err(m) => extern_result_from(reg, Err(m)),
        Ok(mut rows) => {
            if rows.len() == 0 {
                ExternResult { ok: 0, err: None }
            } else {
                let first = rows.remove(0);
                extern_result_from(reg, Ok(Payload::Values(first)))
            }
        },
    }
}

/// Every row of the reply has at least its first column.
pub open spec fn each_row_has_a_column(rows: Seq<Vec<TypedValue>>) -> bool {
    forall|i: int| 0 <= i < rows.len() ==> #[trigger] rows[i]@.len() > 0
}

/// Shapes the engine's answer to a collection query: many rows of exactly
/// one column each, flattened to the sequence of first columns.  A row
/// without a column is reported as an error.
pub fn query_builder_execute_coll(reg: &mut Registry, reply: Result<Vec<Vec<TypedValue>>, String>)
    -> (r: ExternResult)
    requires
        old(reg).can_allocate(),
    ensures
        r.wf(),
        match reply {
            Err(m) => r.ok == 0 && r.err == Some(m) && forall|h: u64|
                final(reg).payload(h) == old(reg).payload(h),
            Ok(rows) => {
                &&& (each_row_has_a_column(rows@) ==> {
                    &&& r.err is None
                    &&& r.ok != 0
                    &&& !old(reg).is_live(r.ok)
                    &&& (final(reg).payload(r.ok) matches Some(Payload::Values(w)) && w@.len()
                        == rows@.len() && (forall|i: int|
                        0 <= i < rows@.len() ==> #[trigger] w@[i] == rows@[i]@[0]))
                    &&& forall|h: u64| h != r.ok ==> final(reg).payload(h) == old(reg).payload(h)
                })
                &&& (!each_row_has_a_column(rows@) ==> r.ok == 0 && (r.err matches Some(m) && m@
                    == "collection result row is empty"@) && forall|h: u64|
                    final(reg).payload(h) == old(reg).payload(h))
            },
        },
{
    match reply {
        Err(m) => extern_result_from(reg, Err(m)),
        Ok(rows) => {
            let mut out: Vec<TypedValue> = Vec::new();
            let mut i: usize = 0;
            while i < rows.len()
                invariant
                    reply == Ok::<Vec<Vec<TypedValue>>, String>(rows),
                    old(reg).can_allocate(),
                    reg == old(reg),
                    i <= rows@.len(),
                    out@.len() == i,
                    forall|j: int| 0 <= j < i ==> #[trigger] rows@[j]@.len() > 0,
                    forall|j: int| 0 <= j < i ==> #[trigger] out@[j] == rows@[j]@[0],
                decreases rows@.len() - i,
            {
                let row = &rows[i];
                if row.len() == 0 {
                    proof {
                        assert(!each_row_has_a_column(rows@)) by {
                            assert(rows@[i as int]@.len() == 0);
                        }
                    }
                    return ExternResult {
                        ok: 0,
                        err: Some("collection result row is empty".to_owned()),
                    };
                }
                out.push(row[0].clone());
                i = i + 1;
            }
            extern_result_from(reg, Ok(Payload::Values(out)))
        },
    }
}

/// Shapes the engine's answer to a relation query: the row-set as it
/// came, in result order.
pub fn query_builder_execute(reg: &mut Registry, reply: Result<Vec<Vec<TypedValue>>, String>) -> (r:
    ExternResult)
    requires
        old(reg).can_allocate(),
    ensures
        r.wf(),
        match reply {
            Err(m) => r.ok == 0 && r.err == Some(m) && forall|h: u64|
                final(reg).payload(h) == old(reg).payload(h),
            Ok(rows) => {
                &&& r.err is None
                &&& r.ok != 0
                &&& !old(reg).is_live(r.ok)
                &&& final(reg).payload(r.ok) == Some(Payload::Rows(rows))
                &&& forall|h: u64| h != r.ok ==> final(reg).payload(h) == old(reg).payload(h)
            },
        },
{
    match reply {
        Err(m) => extern_result_from(reg, Err(m)),
        Ok(rows) => extern_result_from(reg, Ok(Payload::Rows(rows))),
    }
}

} // verus!
