//! The two universal wrappers around every fallible or optional outcome.
//!
//! A result envelope holds exactly one of a success payload handle or an
//! error message; an option envelope holds a payload handle or the null
//! marker.  For operations that can both fail and produce nothing, the two
//! compose: a null success handle beside a null error means "no result".

use vstd::prelude::*;
use crate::registry::{Payload, Registry};
use crate::report::TxReport;
use crate::value::TypedValue;

verus! {

/// Success-or-error: a payload handle (with no error), or an error message
/// (with the null handle).  A null handle beside no error is the composed
/// "succeeded with nothing" outcome.
#[derive(Debug)]
pub struct ExternResult {
    pub ok: u64,
    pub err: Option<String>,
}

impl ExternResult {
    /// An envelope never carries both a payload handle and an error.
    pub open spec fn wf(self) -> bool {
        self.err is Some ==> self.ok == 0
    }
}

/// Present-or-absent: a payload handle, or the null marker.  No error
/// concept: absence means the operation succeeded and produced nothing.
#[derive(Debug)]
pub struct ExternOption {
    pub value: u64,
}

/// A temporary id beside the entity it resolved to, as a flat pair.
#[derive(Debug)]
pub struct ExternTempId {
    pub key: String,
    pub value: i64,
}

/// Encodes an engine outcome: success registers the payload under a fresh
/// handle; failure carries the error message and the null handle.
pub fn extern_result_from(reg: &mut Registry, outcome: Result<Payload, String>) -> (r:
    ExternResult)
    requires
        old(reg).can_allocate(),
    ensures
        r.wf(),
        match outcome {
            Ok(p) => {
                &&& r.err is None
                &&& r.ok != 0
                &&& !old(reg).is_live(r.ok)
                &&& final(reg).payload(r.ok) == Some(p)
                &&& forall|h: u64| h != r.ok ==> final(reg).payload(h) == old(reg).payload(h)
            },
            Err(m) => r.ok == 0 && r.err == Some(m) && forall|h: u64|
                final(reg).payload(h) == old(reg).payload(h),
        },
{
    match outcome {
        Ok(p) => {
            let h = reg.register(p);
            ExternResult { ok: h, err: None }
        },
        Err(m) => ExternResult { ok: 0, err: Some(m) },
    }
}

/// Encodes an optional value: presence registers it under a fresh handle;
/// absence is the null marker.
pub fn extern_option_from(reg: &mut Registry, value: Option<Payload>) -> (r: ExternOption)
    requires
        old(reg).can_allocate(),
    ensures
        match value {
            Some(p) => {
                &&& r.value != 0
                &&& !old(reg).is_live(r.value)
                &&& final(reg).payload(r.value) == Some(p)
                &&& forall|h: u64| h != r.value ==> final(reg).payload(h) == old(reg).payload(h)
            },
            None => r.value == 0 && forall|h: u64|
                final(reg).payload(h) == old(reg).payload(h),
        },
{
    match value {
        Some(p) => {
            let h = reg.register(p);
            ExternOption { value: h }
        },
        None => ExternOption { value: 0 },
    }
}

/// Wraps the engine's transact outcome: a committed report becomes a fresh
/// report handle, a failure becomes its message.
pub fn store_transact(reg: &mut Registry, outcome: Result<TxReport, String>) -> (r: ExternResult)
    requires
        old(reg).can_allocate(),
    ensures
        r.wf(),
        match outcome {
            Ok(rep) => {
                &&& r.err is None
                &&& r.ok != 0
                &&& !old(reg).is_live(r.ok)
                &&& final(reg).payload(r.ok) == Some(Payload::Report(rep))
                &&& forall|h: u64| h != r.ok ==> final(reg).payload(h) == old(reg).payload(h)
            },
            Err(m) => r.ok == 0 && r.err == Some(m) && forall|h: u64|
                final(reg).payload(h) == old(reg).payload(h),
        },
{
    match outcome {
        Ok(rep) => extern_result_from(reg, Ok(Payload::Report(rep))),
        Err(m) => extern_result_from(reg, Err(m)),
    }
}

/// Wraps the engine's attribute lookup: a found value becomes a fresh
/// value handle, an absent value the composed null-null outcome, a
/// failure its message.
pub fn store_value_for_attribute(reg: &mut Registry, lookup: Result<Option<TypedValue>, String>)
    -> (r: ExternResult)
    requires
        old(reg).can_allocate(),
    ensures
        r.wf(),
        match lookup {
            Ok(Some(v)) => {
                &&& r.err is None
                &&& r.ok != 0
                &&& !old(reg).is_live(r.ok)
                &&& final(reg).payload(r.ok) == Some(Payload::Value(v))
                &&& forall|h: u64| h != r.ok ==> final(reg).payload(h) == old(reg).payload(h)
            },
            Ok(None) => r.ok == 0 && r.err is None && forall|h: u64|
                final(reg).payload(h) == old(reg).payload(h),
            Err(m) => r.ok == 0 && r.err == Some(m) && forall|h: u64|
                final(reg).payload(h) == old(reg).payload(h),
        },
{
    match lookup {
        Ok(Some(v)) => extern_result_from(reg, Ok(Payload::Value(v))),
        Ok(None) => ExternResult { ok: 0, err: None },
        Err(m) => extern_result_from(reg, Err(m)),
    }
}

/// Wraps the engine's sync outcome: a success description becomes a fresh
/// text handle, a failure its message.
pub fn store_sync(reg: &mut Registry, outcome: Result<String, String>) -> (r: ExternResult)
    requires
        old(reg).can_allocate(),
    ensures
        r.wf(),
        match outcome {
            Ok(desc) => {
                &&& r.err is None
                &&& r.ok != 0
                &&& !old(reg).is_live(r.ok)
                &&& final(reg).payload(r.ok) == Some(Payload::Text(desc))
                &&& forall|h: u64| h != r.ok ==> final(reg).payload(h) == old(reg).payload(h)
            },
            Err(m) => r.ok == 0 && r.err == Some(m) && forall|h: u64|
                final(reg).payload(h) == old(reg).payload(h),
        },
{
    match outcome {
        Ok(desc) => extern_result_from(reg, Ok(Payload::Text(desc))),
        Err(m) => extern_result_from(reg, Err(m)),
    }
}

} // verus!
