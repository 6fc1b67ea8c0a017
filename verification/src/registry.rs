//! The ownership ledger for every heap value that crosses the boundary.
//!
//! Each such value lives in one slot of a [`Registry`] and is addressed by
//! an opaque nonzero handle; `0` is the null handle.  A handle is live from
//! the allocation that returned it until the one destructor call that
//! frees it; destroying the null handle is a no-op, and destroying a dead
//! or mismatched handle is detected and reported rather than undefined.

use vstd::prelude::*;
use vstd::pervasive::VecAdditionalExecFns;
use crate::query::QueryBuilder;
use crate::report::TxReport;
use crate::value::TypedValue;

verus! {

/// A boundary-owned heap value.
#[derive(Debug)]
pub enum Payload {
    /// A standalone tagged scalar.
    Value(TypedValue),
    /// A row, or the flat value sequence of a collection result.
    Values(Vec<TypedValue>),
    /// A row-set: the ordered rows of a relation result.
    Rows(Vec<Vec<TypedValue>>),
    /// A one-shot forward iterator over values, with its cursor.
    ValuesIter(Vec<TypedValue>, usize),
    /// A one-shot forward iterator over rows, with its cursor.
    RowsIter(Vec<Vec<TypedValue>>, usize),
    /// A transaction report.
    Report(TxReport),
    /// A staged query.
    Builder(QueryBuilder),
    /// An owned text payload, such as a sync outcome description.
    Text(String),
}

/// The kind of value a handle refers to; each typed destructor frees
/// exactly one kind.
#[derive(Clone, Copy, PartialEq, Eq, Structural, Debug)]
pub enum HandleKind {
    Value,
    Values,
    Rows,
    ValuesIter,
    RowsIter,
    Report,
    Builder,
    Text,
}

/// The kind of a payload.
pub open spec fn kind_of(p: Payload) -> HandleKind {
    match p {
        Payload::Value(_) => HandleKind::Value,
        Payload::Values(_) => HandleKind::Values,
        Payload::Rows(_) => HandleKind::Rows,
        Payload::ValuesIter(_, _) => HandleKind::ValuesIter,
        Payload::RowsIter(_, _) => HandleKind::RowsIter,
        Payload::Report(_) => HandleKind::Report,
        Payload::Builder(_) => HandleKind::Builder,
        Payload::Text(_) => HandleKind::Text,
    }
}

/// The ledger: slot `h - 1` backs handle `h`; a freed slot stays empty, so
/// a handle is never reused within one registry's lifetime.
#[derive(Debug)]
pub struct Registry {
    slots: Vec<Option<Payload>>,
}

impl Registry {
    /// What the handle currently refers to; `None` for the null handle,
    /// a dead handle, or one this registry never issued.
    pub closed spec fn payload(self, h: u64) -> Option<Payload> {
        if 1 <= h && h <= self.slots@.len() && self.slots@[h - 1] is Some {
            self.slots@[h - 1]
        } else {
            None
        }
    }

    /// Whether the handle is live.
    pub open spec fn is_live(self, h: u64) -> bool {
        self.payload(h) is Some
    }

    /// Whether one more value can be registered (a machine limit).
    pub open spec fn can_allocate(self) -> bool {
        self.slot_count() < usize::MAX as int
    }

    /// An empty registry: no handle is live.
    pub fn new() -> (r: Registry)
        ensures
            forall|h: u64| r.payload(h) is None,
            r.slot_count() == 0,
    {
        Registry { slots: Vec::new() }
    }

    /// Registers a value and transfers its ownership to the caller as a
    /// fresh nonzero handle.
    pub fn register(&mut self, p: Payload) -> (h: u64)
        requires
            old(self).can_allocate(),
        ensures
            h != 0,
            h == old(self).slot_count() + 1,
            final(self).slot_count() == old(self).slot_count() + 1,
            !old(self).is_live(h),
            final(self).payload(h) == Some(p),
            forall|h2: u64| h2 != h ==> final(self).payload(h2) == old(self).payload(h2),
    {
        let h = (self.slots.len() as u64) + 1;
        self.slots.push(Some(p));
        proof {
            assert(final(self).payload(h) == Some(p));
            assert forall|h2: u64| h2 != h implies final(self).payload(h2) == old(self).payload(
                h2,
            ) by {
                if 1 <= h2 && h2 <= old(self).slots@.len() {
                    assert(final(self).slots@[h2 - 1] == old(self).slots@[h2 - 1]);
                }
            }
        }
        h
    }

    /// Takes the handle's value out, leaving the handle dead.
    pub fn take(&mut self, h: u64) -> (r: Option<Payload>)
        ensures
            r == old(self).payload(h),
            final(self).payload(h) is None,
            old(self).payload(h) is Some ==> 1 <= h && h <= old(self).slot_count(),
            forall|h2: u64| h2 != h ==> final(self).payload(h2) == old(self).payload(h2),
            final(self).can_allocate() == old(self).can_allocate(),
            final(self).slot_count() == old(self).slot_count(),
    {
        if h == 0 {
            return None;
        }
        let idx = h - 1;
        if idx >= self.slots.len() as u64 {
            return None;
        }
        let i = idx as usize;
        let mut taken: Option<Payload> = None;
        self.slots.set_and_swap(i, &mut taken);
        proof {
            assert forall|h2: u64| h2 != h implies final(self).payload(h2) == old(self).payload(
                h2,
            ) by {
                if 1 <= h2 && h2 <= old(self).slots@.len() {
                    assert(final(self).slots@[h2 - 1] == old(self).slots@[h2 - 1]);
                }
            }
        }
        taken
    }

    /// How many handles the registry has issued.
    pub closed spec fn slot_count(self) -> int {
        self.slots@.len() as int
    }

    /// Puts a value back into a dead slot, reviving its handle.
    pub fn put(&mut self, h: u64, p: Payload)
        requires
            1 <= h <= old(self).slot_count(),
            old(self).payload(h) is None,
        ensures
            final(self).payload(h) == Some(p),
            forall|h2: u64| h2 != h ==> final(self).payload(h2) == old(self).payload(h2),
            final(self).can_allocate() == old(self).can_allocate(),
            final(self).slot_count() == old(self).slot_count(),
    {
        let n = self.slots.len();
        assert(h - 1 < n as u64);
        let i = (h - 1) as usize;
        self.slots.set(i, Some(p));
        proof {
            assert forall|h2: u64| h2 != h implies final(self).payload(h2) == old(self).payload(
                h2,
            ) by {
                if 1 <= h2 && h2 <= old(self).slots@.len() {
                    assert(final(self).slots@[h2 - 1] == old(self).slots@[h2 - 1]);
                }
            }
        }
    }

    /// Reads the handle's value without consuming it.
    pub fn peek(&self, h: u64) -> (r: Option<&Payload>)
        ensures
            match r {
                Some(p) => self.payload(h) == Some(*p),
                None => self.payload(h) is None,
            },
    {
        if h == 0 {
            return None;
        }
        let idx = h - 1;
        if idx >= self.slots.len() as u64 {
            return None;
        }
        let i = idx as usize;
        match &self.slots[i] {
            Some(p) => Some(p),
            None => None,
        }
    }

    /// Frees the handle, whatever it refers to.  Freeing the null handle
    /// is a safe no-op; freeing a dead handle is reported by `false` and
    /// changes nothing.
    pub fn destroy(&mut self, h: u64) -> (freed: bool)
        ensures
            freed == old(self).is_live(h),
            final(self).payload(h) is None,
            forall|h2: u64| h2 != h ==> final(self).payload(h2) == old(self).payload(h2),
            final(self).can_allocate() == old(self).can_allocate(),
    {
        match self.take(h) {
            Some(_) => true,
            None => false,
        }
    }

    /// Frees the handle only if it refers to the given kind of value;
    /// a null, dead or mismatched handle is reported and changes nothing.
    pub fn destroy_kind(&mut self, h: u64, kind: HandleKind) -> (freed: bool)
        ensures
            freed == (old(self).payload(h) matches Some(p) && kind_of(p) == kind),
            freed ==> final(self).payload(h) is None,
            !freed ==> final(self).payload(h) == old(self).payload(h),
            forall|h2: u64| h2 != h ==> final(self).payload(h2) == old(self).payload(h2),
            final(self).can_allocate() == old(self).can_allocate(),
    {
        match self.take(h) {
            Some(p) => {
                let k = payload_kind(&p);
                if k == kind {
                    true
                } else {
                    self.put(h, p);
                    false
                }
            },
            None => false,
        }
    }
}

/// Every handle but `h` refers to what it did in the first state.
pub open spec fn untouched_except(r0: Registry, r1: Registry, h: u64) -> bool {
    forall|h2: u64| h2 != h ==> r1.payload(h2) == r0.payload(h2)
}

/// Every handle refers to what it did in the first state.
pub open spec fn untouched(r0: Registry, r1: Registry) -> bool {
    forall|h2: u64| r1.payload(h2) == r0.payload(h2)
}

/// The kind of a boundary value.
pub fn payload_kind(p: &Payload) -> (k: HandleKind)
    ensures
        k == kind_of(*p),
{
    match p {
        Payload::Value(_) => HandleKind::Value,
        Payload::Values(_) => HandleKind::Values,
        Payload::Rows(_) => HandleKind::Rows,
        Payload::ValuesIter(_, _) => HandleKind::ValuesIter,
        Payload::RowsIter(_, _) => HandleKind::RowsIter,
        Payload::Report(_) => HandleKind::Report,
        Payload::Builder(_) => HandleKind::Builder,
        Payload::Text(_) => HandleKind::Text,
    }
}

/// Frees any handle: the generic destructor.
pub fn destroy(reg: &mut Registry, h: u64) -> (freed: bool)
    ensures
        freed == old(reg).is_live(h),
        final(reg).payload(h) is None,
        forall|h2: u64| h2 != h ==> final(reg).payload(h2) == old(reg).payload(h2),
        final(reg).can_allocate() == old(reg).can_allocate(),
{
    reg.destroy(h)
}

/// Frees a query-builder handle.
pub fn query_builder_destroy(reg: &mut Registry, h: u64) -> (freed: bool)
    ensures
        freed == (old(reg).payload(h) matches Some(p) && kind_of(p) == HandleKind::Builder),
        freed ==> final(reg).payload(h) is None,
        !freed ==> final(reg).payload(h) == old(reg).payload(h),
        forall|h2: u64| h2 != h ==> final(reg).payload(h2) == old(reg).payload(h2),
{
    reg.destroy_kind(h, HandleKind::Builder)
}

/// Frees a transaction-report handle.
pub fn tx_report_destroy(reg: &mut Registry, h: u64) -> (freed: bool)
    ensures
        freed == (old(reg).payload(h) matches Some(p) && kind_of(p) == HandleKind::Report),
        freed ==> final(reg).payload(h) is None,
        !freed ==> final(reg).payload(h) == old(reg).payload(h),
        forall|h2: u64| h2 != h ==> final(reg).payload(h2) == old(reg).payload(h2),
{
    reg.destroy_kind(h, HandleKind::Report)
}

/// Frees a standalone value handle.
pub fn typed_value_destroy(reg: &mut Registry, h: u64) -> (freed: bool)
    ensures
        freed == (old(reg).payload(h) matches Some(p) && kind_of(p) == HandleKind::Value),
        freed ==> final(reg).payload(h) is None,
        !freed ==> final(reg).payload(h) == old(reg).payload(h),
        forall|h2: u64| h2 != h ==> final(reg).payload(h2) == old(reg).payload(h2),
{
    reg.destroy_kind(h, HandleKind::Value)
}

/// Frees a value-sequence handle.
pub fn typed_value_list_destroy(reg: &mut Registry, h: u64) -> (freed: bool)
    ensures
        freed == (old(reg).payload(h) matches Some(p) && kind_of(p) == HandleKind::Values),
        freed ==> final(reg).payload(h) is None,
        !freed ==> final(reg).payload(h) == old(reg).payload(h),
        forall|h2: u64| h2 != h ==> final(reg).payload(h2) == old(reg).payload(h2),
{
    reg.destroy_kind(h, HandleKind::Values)
}

/// Frees a value-iterator handle.
pub fn typed_value_list_iter_destroy(reg: &mut Registry, h: u64) -> (freed: bool)
    ensures
        freed == (old(reg).payload(h) matches Some(p) && kind_of(p) == HandleKind::ValuesIter),
        freed ==> final(reg).payload(h) is None,
        !freed ==> final(reg).payload(h) == old(reg).payload(h),
        forall|h2: u64| h2 != h ==> final(reg).payload(h2) == old(reg).payload(h2),
{
    reg.destroy_kind(h, HandleKind::ValuesIter)
}

/// Frees a row-set handle.
pub fn typed_value_result_set_destroy(reg: &mut Registry, h: u64) -> (freed: bool)
    ensures
        freed == (old(reg).payload(h) matches Some(p) && kind_of(p) == HandleKind::Rows),
        freed ==> final(reg).payload(h) is None,
        !freed ==> final(reg).payload(h) == old(reg).payload(h),
        forall|h2: u64| h2 != h ==> final(reg).payload(h2) == old(reg).payload(h2),
{
    reg.destroy_kind(h, HandleKind::Rows)
}

/// Frees a row-iterator handle.
pub fn typed_value_result_set_iter_destroy(reg: &mut Registry, h: u64) -> (freed: bool)
    ensures
        freed == (old(reg).payload(h) matches Some(p) && kind_of(p) == HandleKind::RowsIter),
        freed ==> final(reg).payload(h) is None,
        !freed ==> final(reg).payload(h) == old(reg).payload(h),
        forall|h2: u64| h2 != h ==> final(reg).payload(h2) == old(reg).payload(h2),
{
    reg.destroy_kind(h, HandleKind::RowsIter)
}

/// LAW: the null handle is never live, so destroying it frees nothing and
/// changes nothing: a safe no-op for every destructor kind.
pub proof fn lemma_null_handle_never_live(reg: Registry)
    ensures
        !reg.is_live(0),
        reg.payload(0) is None,
{
}

/// LAW: one allocation balanced by one destruction leaves no outstanding
/// allocation: if a fresh handle was issued over a first state and then
/// freed, every handle refers to what it did at the start.
pub proof fn lemma_register_destroy_balanced(r0: Registry, r1: Registry, r2: Registry, h: u64)
    requires
        !r0.is_live(h),
        r1.is_live(h),
        forall|h2: u64| h2 != h ==> r1.payload(h2) == r0.payload(h2),
        r2.payload(h) is None,
        forall|h2: u64| h2 != h ==> r2.payload(h2) == r1.payload(h2),
    ensures
        forall|h2: u64| r2.payload(h2) == r0.payload(h2),
{
}

} // verus!
