//! The outcome of a committed transaction.
//!
//! A report carries the assigned transaction entity-id, the transaction
//! instant, and the fully populated mapping from caller-supplied temporary
//! ids to the entity ids the engine resolved them to.  It is immutable
//! after creation and read through accessors.

use vstd::prelude::*;
use crate::keyed::{keyed_get, keyed_view};
use crate::registry::{Payload, Registry};
use crate::value::Entid;

verus! {

/// A committed transaction's outcome.
#[derive(Debug)]
pub struct TxReport {
    tx_id: Entid,
    tx_instant: i64,
    tempids: Vec<(String, Entid)>,
}

impl TxReport {
    /// The assigned transaction entity-id.
    pub closed spec fn spec_tx_id(self) -> Entid {
        self.tx_id
    }

    /// The transaction instant, as the engine's epoch value.
    pub closed spec fn spec_tx_instant(self) -> i64 {
        self.tx_instant
    }

    /// The temporary-id map: every temporary id the transaction referenced,
    /// and no others.
    pub closed spec fn tempid_map(self) -> Map<Seq<char>, Entid> {
        keyed_view(self.tempids@)
    }

    /// Builds a report over an already resolved temporary-id map; a later
    /// pair shadows an earlier one of the same temporary id.
    pub fn new(tx_id: Entid, tx_instant: i64, tempids: Vec<(String, Entid)>) -> (r: TxReport)
        ensures
            r.spec_tx_id() == tx_id,
            r.spec_tx_instant() == tx_instant,
            r.tempid_map() == keyed_view(tempids@),
    {
        TxReport { tx_id, tx_instant, tempids }
    }

    /// The assigned transaction entity-id.
    pub fn get_entid(&self) -> (r: Entid)
        ensures
            r == self.spec_tx_id(),
    {
        self.tx_id
    }

    /// The transaction instant.
    pub fn get_tx_instant(&self) -> (r: i64)
        ensures
            r == self.spec_tx_instant(),
    {
        self.tx_instant
    }

    /// The entity id a temporary id was resolved to, or the absent marker
    /// for a temporary id the transaction never referenced.
    pub fn entity_for_temp_id(&self, tempid: &str) -> (r: Option<Entid>)
        ensures
            match r {
                Some(e) => self.tempid_map().contains_key(tempid@)
                    && e == self.tempid_map()[tempid@],
                None => !self.tempid_map().contains_key(tempid@),
            },
    {
        match keyed_get(&self.tempids, tempid) {
            Some(e) => Some(*e),
            None => None,
        }
    }
}

/// The transaction entity-id behind a report handle; a handle that is not
/// a live report is reported.
pub fn tx_report_get_entid(reg: &Registry, h: u64) -> (r: Option<Entid>)
    ensures
        match reg.payload(h) {
            Some(Payload::Report(rep)) => r == Some(rep.spec_tx_id()),
            _ => r is None,
        },
{
    match reg.peek(h) {
        Some(Payload::Report(rep)) => Some(rep.get_entid()),
        _ => None,
    }
}

/// The transaction instant behind a report handle.
pub fn tx_report_get_tx_instant(reg: &Registry, h: u64) -> (r: Option<i64>)
    ensures
        match reg.payload(h) {
            Some(Payload::Report(rep)) => r == Some(rep.spec_tx_instant()),
            _ => r is None,
        },
{
    match reg.peek(h) {
        Some(Payload::Report(rep)) => Some(rep.get_tx_instant()),
        _ => None,
    }
}

/// The entity a temporary id resolved to, behind a report handle; a
/// temporary id the transaction never referenced is the absent marker.
pub fn tx_report_entity_for_temp_id(reg: &Registry, h: u64, tempid: &str) -> (r: Option<Entid>)
    ensures
        match reg.payload(h) {
            Some(Payload::Report(rep)) => match r {
                Some(e) => rep.tempid_map().contains_key(tempid@) && e == rep.tempid_map()[tempid@],
                None => !rep.tempid_map().contains_key(tempid@),
            },
            _ => r is None,
        },
{
    match reg.peek(h) {
        Some(Payload::Report(rep)) => rep.entity_for_temp_id(tempid),
        _ => None,
    }
}

impl Clone for TxReport {
    fn clone(&self) -> (r: Self)
        ensures
            r.spec_tx_id() == self.spec_tx_id(),
            r.spec_tx_instant() == self.spec_tx_instant(),
            r.tempid_map() == self.tempid_map(),
    {
        let mut tempids: Vec<(String, Entid)> = Vec::new();
        let mut i: usize = 0;
        while i < self.tempids.len()
            invariant
                i <= self.tempids@.len(),
                tempids@.len() == i,
                forall|j: int| 0 <= j < i ==> tempids@[j] == self.tempids@[j],
            decreases self.tempids@.len() - i,
        {
            let key = self.tempids[i].0.clone();
            let value = self.tempids[i].1;
            tempids.push((key, value));
            i = i + 1;
        }
        proof {
            assert(tempids@ =~= self.tempids@);
        }
        TxReport { tx_id: self.tx_id, tx_instant: self.tx_instant, tempids }
    }
}

} // verus!
