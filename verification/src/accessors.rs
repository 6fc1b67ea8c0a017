//! Reading values out of boundary handles.
//!
//! Two accessor families, by deliberate dual contract: the consuming
//! single-value accessors take ownership of a standalone value handle and
//! invalidate it whether or not the coercion succeeds; the indexed
//! accessors borrow a sequence handle, clone the element they read, and
//! leave the handle intact.  Collections offer two terminal consumption
//! paths: repeatable indexed access, or a one-shot forward iterator that
//! consumes the indexable handle on conversion and reports a null sentinel
//! at exhaustion.

use vstd::prelude::*;
use crate::keyword::keyword_text;
use crate::registry::{untouched, untouched_except, Payload, Registry};
use crate::uuid::{is_lower_uuid_text, is_uuid_text, uuid_of_text, uuid_to_string};
use crate::value::{clone_values, Entid, TypedValue, ValueType};

verus! {

/// Consumes a value handle and reads it as a long; a tag mismatch is
/// reported, but the handle is gone either way.
pub fn typed_value_as_long(reg: &mut Registry, h: u64) -> (r: Option<i64>)
    ensures
        untouched_except(*old(reg), *final(reg), h),
        match old(reg).payload(h) {
            Some(Payload::Value(tv)) => final(reg).payload(h) is None && r == tv.spec_into_long(),
            _ => final(reg).payload(h) == old(reg).payload(h) && r is None,
        },
{
    match reg.take(h) {
        Some(Payload::Value(tv)) => tv.into_long(),
        Some(p) => {
            reg.put(h, p);
            None
        },
        None => None,
    }
}

/// Consumes a value handle and reads it as an entity id.
pub fn typed_value_as_entid(reg: &mut Registry, h: u64) -> (r: Option<Entid>)
    ensures
        untouched_except(*old(reg), *final(reg), h),
        match old(reg).payload(h) {
            Some(Payload::Value(tv)) => final(reg).payload(h) is None && r == tv.spec_into_entid(),
            _ => final(reg).payload(h) == old(reg).payload(h) && r is None,
        },
{
    match reg.take(h) {
        Some(Payload::Value(tv)) => tv.into_entid(),
        Some(p) => {
            reg.put(h, p);
            None
        },
        None => None,
    }
}

/// Consumes a value handle and reads it as a keyword's canonical text.
pub fn typed_value_as_kw(reg: &mut Registry, h: u64) -> (r: Option<String>)
    ensures
        untouched_except(*old(reg), *final(reg), h),
        match old(reg).payload(h) {
            Some(Payload::Value(tv)) => final(reg).payload(h) is None && match tv.spec_into_kw() {
                Some(kw) => r matches Some(s) && s@ == keyword_text(kw.namespace@, kw.name@),
                None => r is None,
            },
            _ => final(reg).payload(h) == old(reg).payload(h) && r is None,
        },
{
    match reg.take(h) {
        Some(Payload::Value(tv)) => match tv.into_kw() {
            Some(kw) => Some(crate::keyword::keyword_to_text(&kw)),
            None => None,
        },
        Some(p) => {
            reg.put(h, p);
            None
        },
        None => None,
    }
}

/// Consumes a value handle and reads it as a boolean.
pub fn typed_value_as_boolean(reg: &mut Registry, h: u64) -> (r: Option<bool>)
    ensures
        untouched_except(*old(reg), *final(reg), h),
        match old(reg).payload(h) {
            Some(Payload::Value(tv)) => final(reg).payload(h) is None && r
                == tv.spec_into_boolean(),
            _ => final(reg).payload(h) == old(reg).payload(h) && r is None,
        },
{
    match reg.take(h) {
        Some(Payload::Value(tv)) => tv.into_boolean(),
        Some(p) => {
            reg.put(h, p);
            None
        },
        None => None,
    }
}

/// Consumes a value handle and reads it as a floating-point bit pattern.
pub fn typed_value_as_double(reg: &mut Registry, h: u64) -> (r: Option<u64>)
    ensures
        untouched_except(*old(reg), *final(reg), h),
        match old(reg).payload(h) {
            Some(Payload::Value(tv)) => final(reg).payload(h) is None && r
                == tv.spec_into_double(),
            _ => final(reg).payload(h) == old(reg).payload(h) && r is None,
        },
{
    match reg.take(h) {
        Some(Payload::Value(tv)) => tv.into_double(),
        Some(p) => {
            reg.put(h, p);
            None
        },
        None => None,
    }
}

/// Consumes a value handle and reads it as an instant's epoch value.
pub fn typed_value_as_timestamp(reg: &mut Registry, h: u64) -> (r: Option<i64>)
    ensures
        untouched_except(*old(reg), *final(reg), h),
        match old(reg).payload(h) {
            Some(Payload::Value(tv)) => final(reg).payload(h) is None && r
                == tv.spec_into_timestamp(),
            _ => final(reg).payload(h) == old(reg).payload(h) && r is None,
        },
{
    match reg.take(h) {
        Some(Payload::Value(tv)) => tv.into_timestamp(),
        Some(p) => {
            reg.put(h, p);
            None
        },
        None => None,
    }
}

/// Consumes a value handle and reads it as an owned string.
pub fn typed_value_as_string(reg: &mut Registry, h: u64) -> (r: Option<String>)
    ensures
        untouched_except(*old(reg), *final(reg), h),
        match old(reg).payload(h) {
            Some(Payload::Value(tv)) => final(reg).payload(h) is None && r
                == tv.spec_into_string(),
            _ => final(reg).payload(h) == old(reg).payload(h) && r is None,
        },
{
    match reg.take(h) {
        Some(Payload::Value(tv)) => tv.into_string(),
        Some(p) => {
            reg.put(h, p);
            None
        },
        None => None,
    }
}

/// Consumes a value handle and reads it as a UUID's canonical text.
pub fn typed_value_as_uuid(reg: &mut Registry, h: u64) -> (r: Option<String>)
    ensures
        untouched_except(*old(reg), *final(reg), h),
        match old(reg).payload(h) {
            Some(Payload::Value(tv)) => final(reg).payload(h) is None && match tv.spec_into_uuid() {
                Some(u) => r matches Some(s) && is_uuid_text(s@) && is_lower_uuid_text(s@)
                    && uuid_of_text(s@) == u,
                None => r is None,
            },
            _ => final(reg).payload(h) == old(reg).payload(h) && r is None,
        },
{
    match reg.take(h) {
        Some(Payload::Value(tv)) => match tv.into_uuid() {
            Some(u) => Some(uuid_to_string(u)),
            None => None,
        },
        Some(p) => {
            reg.put(h, p);
            None
        },
        None => None,
    }
}

/// The tag query: reads the tag behind a value handle without consuming
/// it.  Call it before a consuming accessor when the shape is not known.
pub fn typed_value_value_type(reg: &Registry, h: u64) -> (r: Option<ValueType>)
    ensures
        match reg.payload(h) {
            Some(Payload::Value(tv)) => r == Some(tv.spec_value_type()),
            _ => r is None,
        },
{
    match reg.peek(h) {
        Some(Payload::Value(tv)) => Some(tv.value_type()),
        _ => None,
    }
}

/// Borrows the element at `index` of a value-sequence handle; bounds are
/// caller-verified via the length query, and a bad index or handle is
/// reported.
pub fn value_at_index<'a>(reg: &'a Registry, values: u64, index: usize) -> (r: Option<
    &'a TypedValue,
>)
    ensures
        match reg.payload(values) {
            Some(Payload::Values(v)) => {
                &&& (index < v@.len() ==> (r matches Some(x) && *x == v@[index as int]))
                &&& (index >= v@.len() ==> r is None)
            },
            _ => r is None,
        },
{
    match reg.peek(values) {
        Some(Payload::Values(v)) => {
            if index < v.len() {
                Some(&v[index])
            } else {
                None
            }
        },
        _ => None,
    }
}

/// The number of values behind a value-sequence handle: the length query
/// that callers use to keep indexed access in bounds.
pub fn values_len(reg: &Registry, values: u64) -> (r: Option<usize>)
    ensures
        match reg.payload(values) {
            Some(Payload::Values(v)) => r == Some(v@.len() as usize),
            _ => r is None,
        },
{
    match reg.peek(values) {
        Some(Payload::Values(v)) => Some(v.len()),
        _ => None,
    }
}

/// The number of rows behind a row-set handle.
pub fn rows_len(reg: &Registry, rows: u64) -> (r: Option<usize>)
    ensures
        match reg.payload(rows) {
            Some(Payload::Rows(rs)) => r == Some(rs@.len() as usize),
            _ => r is None,
        },
{
    match reg.peek(rows) {
        Some(Payload::Rows(rs)) => Some(rs.len()),
        _ => None,
    }
}

/// Clones the element at `index` and reads it as a long, leaving the
/// sequence intact.
pub fn value_at_index_as_long(reg: &Registry, values: u64, index: usize) -> (r: Option<i64>)
    ensures
        match reg.payload(values) {
            Some(Payload::Values(v)) => r == (if index < v@.len() {
                v@[index as int].spec_into_long()
            } else {
                None
            }),
            _ => r is None,
        },
{
    match reg.peek(values) {
        Some(Payload::Values(v)) => {
            if index < v.len() {
                v[index].clone().into_long()
            } else {
                None
            }
        },
        _ => None,
    }
}

/// Clones the element at `index` and reads it as an entity id.
pub fn value_at_index_as_entid(reg: &Registry, values: u64, index: usize) -> (r: Option<Entid>)
    ensures
        match reg.payload(values) {
            Some(Payload::Values(v)) => r == (if index < v@.len() {
                v@[index as int].spec_into_entid()
            } else {
                None
            }),
            _ => r is None,
        },
{
    match reg.peek(values) {
        Some(Payload::Values(v)) => {
            if index < v.len() {
                v[index].clone().into_entid()
            } else {
                None
            }
        },
        _ => None,
    }
}

/// Clones the element at `index` and reads it as a keyword's canonical
/// text.
pub fn value_at_index_as_kw(reg: &Registry, values: u64, index: usize) -> (r: Option<String>)
    ensures
        match reg.payload(values) {
            Some(Payload::Values(v)) => {
                if index < v@.len() {
                    match v@[index as int].spec_into_kw() {
                        Some(kw) => r matches Some(s) && s@ == keyword_text(
                            kw.namespace@,
                            kw.name@,
                        ),
                        None => r is None,
                    }
                } else {
                    r is None
                }
            },
            _ => r is None,
        },
{
    match reg.peek(values) {
        Some(Payload::Values(v)) => {
            if index < v.len() {
                match v[index].clone().into_kw() {
                    Some(kw) => Some(crate::keyword::keyword_to_text(&kw)),
                    None => None,
                }
            } else {
                None
            }
        },
        _ => None,
    }
}

/// Clones the element at `index` and reads it as a boolean.
pub fn value_at_index_as_boolean(reg: &Registry, values: u64, index: usize) -> (r: Option<bool>)
    ensures
        match reg.payload(values) {
            Some(Payload::Values(v)) => r == (if index < v@.len() {
                v@[index as int].spec_into_boolean()
            } else {
                None
            }),
            _ => r is None,
        },
{
    match reg.peek(values) {
        Some(Payload::Values(v)) => {
            if index < v.len() {
                v[index].clone().into_boolean()
            } else {
                None
            }
        },
        _ => None,
    }
}

/// Clones the element at `index` and reads it as a floating-point bit
/// pattern.
pub fn value_at_index_as_double(reg: &Registry, values: u64, index: usize) -> (r: Option<u64>)
    ensures
        match reg.payload(values) {
            Some(Payload::Values(v)) => r == (if index < v@.len() {
                v@[index as int].spec_into_double()
            } else {
                None
            }),
            _ => r is None,
        },
{
    match reg.peek(values) {
        Some(Payload::Values(v)) => {
            if index < v.len() {
                v[index].clone().into_double()
            } else {
                None
            }
        },
        _ => None,
    }
}

/// Clones the element at `index` and reads it as an instant's epoch value.
pub fn value_at_index_as_timestamp(reg: &Registry, values: u64, index: usize) -> (r: Option<i64>)
    ensures
        match reg.payload(values) {
            Some(Payload::Values(v)) => r == (if index < v@.len() {
                v@[index as int].spec_into_timestamp()
            } else {
                None
            }),
            _ => r is None,
        },
{
    match reg.peek(values) {
        Some(Payload::Values(v)) => {
            if index < v.len() {
                v[index].clone().into_timestamp()
            } else {
                None
            }
        },
        _ => None,
    }
}

/// Clones the element at `index` and reads it as an owned string.
pub fn value_at_index_as_string(reg: &Registry, values: u64, index: usize) -> (r: Option<String>)
    ensures
        match reg.payload(values) {
            Some(Payload::Values(v)) => r == (if index < v@.len() {
                v@[index as int].spec_into_string()
            } else {
                None
            }),
            _ => r is None,
        },
{
    match reg.peek(values) {
        Some(Payload::Values(v)) => {
            if index < v.len() {
                v[index].clone().into_string()
            } else {
                None
            }
        },
        _ => None,
    }
}

/// Clones the element at `index` and reads it as a UUID's canonical text.
pub fn value_at_index_as_uuid(reg: &Registry, values: u64, index: usize) -> (r: Option<String>)
    ensures
        match reg.payload(values) {
            Some(Payload::Values(v)) => {
                if index < v@.len() {
                    match v@[index as int].spec_into_uuid() {
                        Some(u) => r matches Some(s) && is_uuid_text(s@) && is_lower_uuid_text(s@)
                            && uuid_of_text(s@) == u,
                        None => r is None,
                    }
                } else {
                    r is None
                }
            },
            _ => r is None,
        },
{
    match reg.peek(values) {
        Some(Payload::Values(v)) => {
            if index < v.len() {
                match v[index].clone().into_uuid() {
                    Some(u) => Some(uuid_to_string(u)),
                    None => None,
                }
            } else {
                None
            }
        },
        _ => None,
    }
}

/// Clones the row at `index` of a row-set handle and hands it out as a
/// fresh value-sequence handle; a bad index or handle is the null handle.
pub fn row_at_index(reg: &mut Registry, rows: u64, index: usize) -> (r: u64)
    requires
        old(reg).can_allocate(),
    ensures
        match old(reg).payload(rows) {
            Some(Payload::Rows(rs)) => {
                &&& (index < rs@.len() ==> {
                    &&& r != 0
                    &&& !old(reg).is_live(r)
                    &&& (final(reg).payload(r) matches Some(Payload::Values(w)) && w@ == rs@[index
                        as int]@)
                    &&& final(reg).payload(rows) == old(reg).payload(rows)
                    &&& forall|h2: u64| h2 != r ==> final(reg).payload(h2) == old(reg).payload(h2)
                })
                &&& (index >= rs@.len() ==> r == 0 && untouched(*old(reg), *final(reg)))
            },
            _ => r == 0 && untouched(*old(reg), *final(reg)),
        },
{
    match reg.take(rows) {
        Some(Payload::Rows(rs)) => {
            if index < rs.len() {
                let row = clone_values(&rs[index]);
                reg.put(rows, Payload::Rows(rs));
                reg.register(Payload::Values(row))
            } else {
                reg.put(rows, Payload::Rows(rs));
                0
            }
        },
        Some(p) => {
            reg.put(rows, p);
            0
        },
        None => 0,
    }
}

/// Converts a row-set handle into a one-shot row iterator, consuming the
/// indexable handle.
pub fn rows_iter(reg: &mut Registry, rows: u64) -> (r: u64)
    requires
        old(reg).can_allocate(),
    ensures
        match old(reg).payload(rows) {
            Some(Payload::Rows(rs)) => {
                &&& r != 0
                &&& !old(reg).is_live(r)
                &&& final(reg).payload(rows) is None
                &&& (final(reg).payload(r) matches Some(Payload::RowsIter(rs2, p2)) && rs2 == rs
                    && p2 == 0)
                &&& forall|h2: u64|
                    h2 != r && h2 != rows ==> final(reg).payload(h2) == old(reg).payload(h2)
            },
            _ => r == 0 && untouched(*old(reg), *final(reg)),
        },
{
    match reg.take(rows) {
        Some(Payload::Rows(rs)) => reg.register(Payload::RowsIter(rs, 0)),
        Some(p) => {
            reg.put(rows, p);
            0
        },
        None => 0,
    }
}

/// Converts a value-sequence handle into a one-shot value iterator,
/// consuming the indexable handle.
pub fn values_iter(reg: &mut Registry, values: u64) -> (r: u64)
    requires
        old(reg).can_allocate(),
    ensures
        match old(reg).payload(values) {
            Some(Payload::Values(v)) => {
                &&& r != 0
                &&& !old(reg).is_live(r)
                &&& final(reg).payload(values) is None
                &&& (final(reg).payload(r) matches Some(Payload::ValuesIter(v2, p2)) && v2 == v
                    && p2 == 0)
                &&& forall|h2: u64|
                    h2 != r && h2 != values ==> final(reg).payload(h2) == old(reg).payload(h2)
            },
            _ => r == 0 && untouched(*old(reg), *final(reg)),
        },
{
    match reg.take(values) {
        Some(Payload::Values(v)) => reg.register(Payload::ValuesIter(v, 0)),
        Some(p) => {
            reg.put(values, p);
            0
        },
        None => 0,
    }
}

/// Advances a row iterator: the next row as a fresh value-sequence
/// handle, or the null sentinel at exhaustion; the exhausted iterator
/// stays destroyable.
pub fn rows_iter_next(reg: &mut Registry, it: u64) -> (r: u64)
    requires
        old(reg).can_allocate(),
    ensures
        match old(reg).payload(it) {
            Some(Payload::RowsIter(rs, pos)) => {
                &&& (pos < rs@.len() ==> {
                    &&& r != 0
                    &&& !old(reg).is_live(r)
                    &&& (final(reg).payload(r) matches Some(Payload::Values(w)) && w@ == rs@[pos
                        as int]@)
                    &&& (final(reg).payload(it) matches Some(Payload::RowsIter(rs2, p2)) && rs2
                        == rs && p2 == pos + 1)
                    &&& forall|h2: u64|
                        h2 != r && h2 != it ==> final(reg).payload(h2) == old(reg).payload(h2)
                })
                &&& (pos >= rs@.len() ==> r == 0 && untouched(*old(reg), *final(reg)))
            },
            _ => r == 0 && untouched(*old(reg), *final(reg)),
        },
{
    match reg.take(it) {
        Some(Payload::RowsIter(rs, pos)) => {
            if pos < rs.len() {
                let row = clone_values(&rs[pos]);
                reg.put(it, Payload::RowsIter(rs, pos + 1));
                reg.register(Payload::Values(row))
            } else {
                reg.put(it, Payload::RowsIter(rs, pos));
                0
            }
        },
        Some(p) => {
            reg.put(it, p);
            0
        },
        None => 0,
    }
}

/// Advances a value iterator: the next value as a fresh value handle, or
/// the null sentinel at exhaustion.
pub fn values_iter_next(reg: &mut Registry, it: u64) -> (r: u64)
    requires
        old(reg).can_allocate(),
    ensures
        match old(reg).payload(it) {
            Some(Payload::ValuesIter(v, pos)) => {
                &&& (pos < v@.len() ==> {
                    &&& r != 0
                    &&& !old(reg).is_live(r)
                    &&& final(reg).payload(r) == Some(Payload::Value(v@[pos as int]))
                    &&& (final(reg).payload(it) matches Some(Payload::ValuesIter(v2, p2)) && v2
                        == v && p2 == pos + 1)
                    &&& forall|h2: u64|
                        h2 != r && h2 != it ==> final(reg).payload(h2) == old(reg).payload(h2)
                })
                &&& (pos >= v@.len() ==> r == 0 && untouched(*old(reg), *final(reg)))
            },
            _ => r == 0 && untouched(*old(reg), *final(reg)),
        },
{
    match reg.take(it) {
        Some(Payload::ValuesIter(v, pos)) => {
            if pos < v.len() {
                let tv = v[pos].clone();
                reg.put(it, Payload::ValuesIter(v, pos + 1));
                reg.register(Payload::Value(tv))
            } else {
                reg.put(it, Payload::ValuesIter(v, pos));
                0
            }
        },
        Some(p) => {
            reg.put(it, p);
            0
        },
        None => 0,
    }
}

/// Advances a value iterator and reads the next value as a long; the
/// null sentinel marks exhaustion, a misused handle, or a tag mismatch,
/// and the element is consumed either way.
pub fn values_iter_next_as_long(reg: &mut Registry, it: u64) -> (r: Option<i64>)
    ensures
        match old(reg).payload(it) {
            Some(Payload::ValuesIter(v, pos)) => {
                &&& (pos < v@.len() ==> {
                    &&& r == v@[pos as int].spec_into_long()
                    &&& (final(reg).payload(it) matches Some(Payload::ValuesIter(v2, p2)) && v2
                        == v && p2 == pos + 1)
                    &&& forall|h2: u64| h2 != it ==> final(reg).payload(h2) == old(reg).payload(h2)
                })
                &&& (pos >= v@.len() ==> r is None && untouched(*old(reg), *final(reg)))
            },
            _ => r is None && untouched(*old(reg), *final(reg)),
        },
{
    match reg.take(it) {
        Some(Payload::ValuesIter(v, pos)) => {
            if pos < v.len() {
                let tv = v[pos].clone();
                reg.put(it, Payload::ValuesIter(v, pos + 1));
                tv.into_long()
            } else {
                reg.put(it, Payload::ValuesIter(v, pos));
                None
            }
        },
        Some(p) => {
            reg.put(it, p);
            None
        },
        None => None,
    }
}

/// Advances a value iterator and reads the next value as an entity id.
pub fn values_iter_next_as_entid(reg: &mut Registry, it: u64) -> (r: Option<Entid>)
    ensures
        match old(reg).payload(it) {
            Some(Payload::ValuesIter(v, pos)) => {
                &&& (pos < v@.len() ==> {
                    &&& r == v@[pos as int].spec_into_entid()
                    &&& (final(reg).payload(it) matches Some(Payload::ValuesIter(v2, p2)) && v2
                        == v && p2 == pos + 1)
                    &&& forall|h2: u64| h2 != it ==> final(reg).payload(h2) == old(reg).payload(h2)
                })
                &&& (pos >= v@.len() ==> r is None && untouched(*old(reg), *final(reg)))
            },
            _ => r is None && untouched(*old(reg), *final(reg)),
        },
{
    match reg.take(it) {
        Some(Payload::ValuesIter(v, pos)) => {
            if pos < v.len() {
                let tv = v[pos].clone();
                reg.put(it, Payload::ValuesIter(v, pos + 1));
                tv.into_entid()
            } else {
                reg.put(it, Payload::ValuesIter(v, pos));
                None
            }
        },
        Some(p) => {
            reg.put(it, p);
            None
        },
        None => None,
    }
}

/// Advances a value iterator and reads the next value as a keyword's
/// canonical text.
pub fn values_iter_next_as_kw(reg: &mut Registry, it: u64) -> (r: Option<String>)
    ensures
        match old(reg).payload(it) {
            Some(Payload::ValuesIter(v, pos)) => {
                &&& (pos < v@.len() ==> {
                    &&& match v@[pos as int].spec_into_kw() {
                        Some(kw) => r matches Some(s) && s@ == keyword_text(
                            kw.namespace@,
                            kw.name@,
                        ),
                        None => r is None,
                    }
                    &&& (final(reg).payload(it) matches Some(Payload::ValuesIter(v2, p2)) && v2
                        == v && p2 == pos + 1)
                    &&& forall|h2: u64| h2 != it ==> final(reg).payload(h2) == old(reg).payload(h2)
                })
                &&& (pos >= v@.len() ==> r is None && untouched(*old(reg), *final(reg)))
            },
            _ => r is None && untouched(*old(reg), *final(reg)),
        },
{
    match reg.take(it) {
        Some(Payload::ValuesIter(v, pos)) => {
            if pos < v.len() {
                let tv = v[pos].clone();
                reg.put(it, Payload::ValuesIter(v, pos + 1));
                match tv.into_kw() {
                    Some(kw) => Some(crate::keyword::keyword_to_text(&kw)),
                    None => None,
                }
            } else {
                reg.put(it, Payload::ValuesIter(v, pos));
                None
            }
        },
        Some(p) => {
            reg.put(it, p);
            None
        },
        None => None,
    }
}

/// Advances a value iterator and reads the next value as a boolean.
pub fn values_iter_next_as_boolean(reg: &mut Registry, it: u64) -> (r: Option<bool>)
    ensures
        match old(reg).payload(it) {
            Some(Payload::ValuesIter(v, pos)) => {
                &&& (pos < v@.len() ==> {
                    &&& r == v@[pos as int].spec_into_boolean()
                    &&& (final(reg).payload(it) matches Some(Payload::ValuesIter(v2, p2)) && v2
                        == v && p2 == pos + 1)
                    &&& forall|h2: u64| h2 != it ==> final(reg).payload(h2) == old(reg).payload(h2)
                })
                &&& (pos >= v@.len() ==> r is None && untouched(*old(reg), *final(reg)))
            },
            _ => r is None && untouched(*old(reg), *final(reg)),
        },
{
    match reg.take(it) {
        Some(Payload::ValuesIter(v, pos)) => {
            if pos < v.len() {
                let tv = v[pos].clone();
                reg.put(it, Payload::ValuesIter(v, pos + 1));
                tv.into_boolean()
            } else {
                reg.put(it, Payload::ValuesIter(v, pos));
                None
            }
        },
        Some(p) => {
            reg.put(it, p);
            None
        },
        None => None,
    }
}

/// Advances a value iterator and reads the next value as a
/// floating-point bit pattern.
pub fn values_iter_next_as_double(reg: &mut Registry, it: u64) -> (r: Option<u64>)
    ensures
        match old(reg).payload(it) {
            Some(Payload::ValuesIter(v, pos)) => {
                &&& (pos < v@.len() ==> {
                    &&& r == v@[pos as int].spec_into_double()
                    &&& (final(reg).payload(it) matches Some(Payload::ValuesIter(v2, p2)) && v2
                        == v && p2 == pos + 1)
                    &&& forall|h2: u64| h2 != it ==> final(reg).payload(h2) == old(reg).payload(h2)
                })
                &&& (pos >= v@.len() ==> r is None && untouched(*old(reg), *final(reg)))
            },
            _ => r is None && untouched(*old(reg), *final(reg)),
        },
{
    match reg.take(it) {
        Some(Payload::ValuesIter(v, pos)) => {
            if pos < v.len() {
                let tv = v[pos].clone();
                reg.put(it, Payload::ValuesIter(v, pos + 1));
                tv.into_double()
            } else {
                reg.put(it, Payload::ValuesIter(v, pos));
                None
            }
        },
        Some(p) => {
            reg.put(it, p);
            None
        },
        None => None,
    }
}

/// Advances a value iterator and reads the next value as an instant's
/// epoch value.
pub fn values_iter_next_as_timestamp(reg: &mut Registry, it: u64) -> (r: Option<i64>)
    ensures
        match old(reg).payload(it) {
            Some(Payload::ValuesIter(v, pos)) => {
                &&& (pos < v@.len() ==> {
                    &&& r == v@[pos as int].spec_into_timestamp()
                    &&& (final(reg).payload(it) matches Some(Payload::ValuesIter(v2, p2)) && v2
                        == v && p2 == pos + 1)
                    &&& forall|h2: u64| h2 != it ==> final(reg).payload(h2) == old(reg).payload(h2)
                })
                &&& (pos >= v@.len() ==> r is None && untouched(*old(reg), *final(reg)))
            },
            _ => r is None && untouched(*old(reg), *final(reg)),
        },
{
    match reg.take(it) {
        Some(Payload::ValuesIter(v, pos)) => {
            if pos < v.len() {
                let tv = v[pos].clone();
                reg.put(it, Payload::ValuesIter(v, pos + 1));
                tv.into_timestamp()
            } else {
                reg.put(it, Payload::ValuesIter(v, pos));
                None
            }
        },
        Some(p) => {
            reg.put(it, p);
            None
        },
        None => None,
    }
}

/// Advances a value iterator and reads the next value as an owned string.
pub fn values_iter_next_as_string(reg: &mut Registry, it: u64) -> (r: Option<String>)
    ensures
        match old(reg).payload(it) {
            Some(Payload::ValuesIter(v, pos)) => {
                &&& (pos < v@.len() ==> {
                    &&& r == v@[pos as int].spec_into_string()
                    &&& (final(reg).payload(it) matches Some(Payload::ValuesIter(v2, p2)) && v2
                        == v && p2 == pos + 1)
                    &&& forall|h2: u64| h2 != it ==> final(reg).payload(h2) == old(reg).payload(h2)
                })
                &&& (pos >= v@.len() ==> r is None && untouched(*old(reg), *final(reg)))
            },
            _ => r is None && untouched(*old(reg), *final(reg)),
        },
{
    match reg.take(it) {
        Some(Payload::ValuesIter(v, pos)) => {
            if pos < v.len() {
                let tv = v[pos].clone();
                reg.put(it, Payload::ValuesIter(v, pos + 1));
                tv.into_string()
            } else {
                reg.put(it, Payload::ValuesIter(v, pos));
                None
            }
        },
        Some(p) => {
            reg.put(it, p);
            None
        },
        None => None,
    }
}

/// Advances a value iterator and reads the next value as a UUID's
/// canonical text.
pub fn values_iter_next_as_uuid(reg: &mut Registry, it: u64) -> (r: Option<String>)
    ensures
        match old(reg).payload(it) {
            Some(Payload::ValuesIter(v, pos)) => {
                &&& (pos < v@.len() ==> {
                    &&& match v@[pos as int].spec_into_uuid() {
                        Some(u) => r matches Some(s) && is_uuid_text(s@) && is_lower_uuid_text(s@)
                            && uuid_of_text(s@) == u,
                        None => r is None,
                    }
                    &&& (final(reg).payload(it) matches Some(Payload::ValuesIter(v2, p2)) && v2
                        == v && p2 == pos + 1)
                    &&& forall|h2: u64| h2 != it ==> final(reg).payload(h2) == old(reg).payload(h2)
                })
                &&& (pos >= v@.len() ==> r is None && untouched(*old(reg), *final(reg)))
            },
            _ => r is None && untouched(*old(reg), *final(reg)),
        },
{
    match reg.take(it) {
        Some(Payload::ValuesIter(v, pos)) => {
            if pos < v.len() {
                let tv = v[pos].clone();
                reg.put(it, Payload::ValuesIter(v, pos + 1));
                match tv.into_uuid() {
                    Some(u) => Some(uuid_to_string(u)),
                    None => None,
                }
            } else {
                reg.put(it, Payload::ValuesIter(v, pos));
                None
            }
        },
        Some(p) => {
            reg.put(it, p);
            None
        },
        None => None,
    }
}

} // verus!
