//! The change-notification bridge.
//!
//! Observers subscribe under a caller-chosen string key to a set of
//! watched attribute ids; re-registering a key replaces the prior
//! subscription and unregistering an unknown key is a silent no-op.  When
//! the engine commits a batch, [`dispatch`] plans the deliveries: each
//! observer watching an attribute some transaction touched is invoked
//! exactly once, with the batch re-shaped into a flat, boundary-safe
//! [`TxChangeList`] of that observer's applicable transactions.

use vstd::prelude::*;
use crate::keyed::{distinct_keys, keyed_find, keyed_view, lemma_keyed_view_remove_unique,
    lemma_keyed_view_update_unique};
use crate::value::Entid;
use vstd::pervasive::VecAdditionalExecFns;

verus! {

/// One transaction's changes: its id and the entities it touched.
#[derive(Debug)]
pub struct TransactionChange {
    pub txid: Entid,
    pub changes: Vec<Entid>,
}

/// The flat list of per-transaction changes handed to a foreign callback;
/// the bridge owns it for the duration of the call only.
#[derive(Debug)]
pub struct TxChangeList {
    pub reports: Vec<TransactionChange>,
}

/// Transaction changes as pairs of transaction id and changed entities.
pub open spec fn reports_view(reports: Seq<TransactionChange>) -> Seq<(Entid, Seq<Entid>)> {
    reports.map_values(|c: TransactionChange| (c.txid, c.changes@))
}

impl TxChangeList {
    /// The list as pairs of transaction id and changed entities.
    pub open spec fn changes_view(self) -> Seq<(Entid, Seq<Entid>)> {
        reports_view(self.reports@)
    }
}

/// One committed transaction as the engine reports it to the bridge: its
/// id, the entities it changed, and the attributes it touched.
#[derive(Debug)]
pub struct CommittedTx {
    pub txid: Entid,
    pub changes: Vec<Entid>,
    pub attributes: Vec<Entid>,
}

/// Whether the transaction touched one of the watched attributes.
pub open spec fn touches(tx: CommittedTx, watched: Seq<Entid>) -> bool {
    exists|k: int| 0 <= k < tx.attributes@.len() && watched.contains(#[trigger] tx.attributes@[k])
}

/// The transactions of the batch that touch a watched attribute, in batch
/// order.
pub open spec fn applicable(batch: Seq<CommittedTx>, watched: Seq<Entid>) -> Seq<CommittedTx>
    decreases batch.len(),
{
    if batch.len() == 0 {
        Seq::empty()
    } else if touches(batch.last(), watched) {
        applicable(batch.drop_last(), watched).push(batch.last())
    } else {
        applicable(batch.drop_last(), watched)
    }
}

/// The applicable transactions as pairs of transaction id and changed
/// entities: the shape a change list must carry.
pub open spec fn applicable_view(batch: Seq<CommittedTx>, watched: Seq<Entid>) -> Seq<
    (Entid, Seq<Entid>),
> {
    applicable(batch, watched).map_values(|tx: CommittedTx| (tx.txid, tx.changes@))
}

/// The observers a batch notifies, in registration order: each one's key
/// and watched set, kept only where some transaction touches the set.
pub open spec fn notified(os: Seq<(Seq<char>, Seq<Entid>)>, batch: Seq<CommittedTx>) -> Seq<
    (Seq<char>, Seq<Entid>),
>
    decreases os.len(),
{
    if os.len() == 0 {
        Seq::empty()
    } else if applicable(batch, os.last().1).len() > 0 {
        notified(os.drop_last(), batch).push(os.last())
    } else {
        notified(os.drop_last(), batch)
    }
}

/// The keyed observer table of one store: each subscription key maps to
/// the attribute set it watches.
#[derive(Debug)]
pub struct ObserverRegistry {
    entries: Vec<(String, Vec<Entid>)>,
}

impl ObserverRegistry {
    /// Each key is registered at most once.
    pub closed spec fn wf(self) -> bool {
        distinct_keys(self.entries@)
    }

    /// The subscriptions as a map from key to watched attribute set.
    pub closed spec fn observer_map(self) -> Map<Seq<char>, Seq<Entid>> {
        keyed_view(self.entries@)
    }

    /// The subscriptions in registration order.
    pub closed spec fn observers_seq(self) -> Seq<(Seq<char>, Seq<Entid>)> {
        self.entries@.map_values(|p: (String, Vec<Entid>)| (p.0@, p.1@))
    }

    /// An empty table.
    pub fn new() -> (r: ObserverRegistry)
        ensures
            r.wf(),
            r.observer_map() == Map::<Seq<char>, Seq<Entid>>::empty(),
            r.observers_seq() == Seq::<(Seq<char>, Seq<Entid>)>::empty(),
    {
        let r = ObserverRegistry { entries: Vec::new() };
        proof {
            assert(r.observers_seq() =~= Seq::<(Seq<char>, Seq<Entid>)>::empty());
        }
        r
    }
}

/// Registers an observer under a key; a prior subscription of the same
/// key is replaced in place, and a new key is appended in registration
/// order.
pub fn store_register_observer(obs: &mut ObserverRegistry, key: &str, attributes: Vec<Entid>)
    requires
        old(obs).wf(),
    ensures
        final(obs).wf(),
        final(obs).observer_map() == old(obs).observer_map().insert(key@, attributes@),
        old(obs).observer_map().contains_key(key@) ==> {
            &&& final(obs).observers_seq().len() == old(obs).observers_seq().len()
            &&& forall|j: int|
                0 <= j < old(obs).observers_seq().len()
                    ==> #[trigger] final(obs).observers_seq()[j] == (if old(
                    obs,
                ).observers_seq()[j].0 == key@ {
                    (key@, attributes@)
                } else {
                    old(obs).observers_seq()[j]
                })
        },
        !old(obs).observer_map().contains_key(key@) ==> final(obs).observers_seq() == old(
            obs,
        ).observers_seq().push((key@, attributes@)),
{
    let ghost os0 = obs.observers_seq();
    let ghost av = attributes@;
    match keyed_find(&obs.entries, key) {
        Some(i) => {
            let ghost s = obs.entries@;
            let owned = key.to_owned();
            proof {
                lemma_keyed_view_update_unique(s, i as int, (owned, attributes));
                crate::keyed::lemma_keyed_view_contains(s, i as int);
            }
            obs.entries.set(i, (owned, attributes));
            proof {
                assert forall|a: int, b: int|
                    0 <= a < b < obs.entries@.len() implies obs.entries@[a].0@
                    != obs.entries@[b].0@ by {
                    assert(obs.entries@[a].0@ == s[a].0@ && obs.entries@[b].0@ == s[b].0@);
                    assert(s[a].0@ != s[b].0@);
                }
                assert forall|j: int| 0 <= j < os0.len() implies #[trigger] obs.observers_seq()[j]
                    == (if os0[j].0 == key@ {
                    (key@, av)
                } else {
                    os0[j]
                }) by {
                    assert(os0[j] == (s[j].0@, s[j].1@));
                    if j == i as int {
                        assert(obs.entries@[j] == (obs.entries@[j].0, obs.entries@[j].1));
                        assert(obs.entries@[j].0@ == key@ && obs.entries@[j].1@ == av);
                    } else {
                        assert(obs.entries@[j] == s[j]);
                        assert(s[j].0@ != s[i as int].0@);
                    }
                }
            }
        },
        None => {
            let ghost s = obs.entries@;
            obs.entries.push((key.to_owned(), attributes));
            proof {
                assert(obs.entries@.drop_last() =~= s);
                assert forall|a: int, b: int|
                    0 <= a < b < obs.entries@.len() implies obs.entries@[a].0@
                    != obs.entries@[b].0@ by {
                    if b < obs.entries@.len() - 1 {
                        assert(s[a].0@ != s[b].0@);
                    } else {
                        assert(!keyed_view(s).contains_key(key@));
                        if s[a].0@ == key@ {
                            crate::keyed::lemma_keyed_view_contains(s, a);
                        }
                    }
                }
                assert forall|j: int| 0 <= j < os0.len() implies #[trigger] obs.observers_seq()[j]
                    == os0[j] by {
                    assert(obs.entries@[j] == s[j]);
                }
                assert(obs.observers_seq()[os0.len() as int] == (key@, av));
                assert(obs.observers_seq() =~= os0.push((key@, av)));
            }
        },
    }
}

/// Removes the observer registered under a key, keeping the others in
/// registration order; an unknown key is a silent no-op.
pub fn store_unregister_observer(obs: &mut ObserverRegistry, key: &str)
    requires
        old(obs).wf(),
    ensures
        final(obs).wf(),
        final(obs).observer_map() == old(obs).observer_map().remove(key@),
        !old(obs).observer_map().contains_key(key@) ==> final(obs).observers_seq() == old(
            obs,
        ).observers_seq(),
        old(obs).observer_map().contains_key(key@) ==> exists|i: int|
            0 <= i < old(obs).observers_seq().len() && (#[trigger] old(
                obs,
            ).observers_seq()[i]).0 == key@ && final(obs).observers_seq() == old(
                obs,
            ).observers_seq().remove(i),
{
    let ghost os0 = obs.observers_seq();
    match keyed_find(&obs.entries, key) {
        Some(i) => {
            let ghost s = obs.entries@;
            proof {
                lemma_keyed_view_remove_unique(s, i as int);
                crate::keyed::lemma_distinct_keys_remove(s, i as int);
                crate::keyed::lemma_keyed_view_contains(s, i as int);
            }
            let _ = obs.entries.remove(i);
            proof {
                assert(os0[i as int].0 == key@);
                assert forall|j: int| 0 <= j < obs.entries@.len() implies #[trigger] obs.observers_seq()[j]
                    == os0.remove(i as int)[j] by {
                    if j < i as int {
                        assert(obs.entries@[j] == s[j]);
                        assert(os0.remove(i as int)[j] == os0[j]);
                    } else {
                        assert(obs.entries@[j] == s[j + 1]);
                        assert(os0.remove(i as int)[j] == os0[j + 1]);
                    }
                }
                assert(obs.observers_seq() =~= os0.remove(i as int));
            }
        },
        None => {
            proof {
                assert(final(obs).observer_map() =~= old(obs).observer_map().remove(key@));
            }
        },
    }
}

/// Whether an entity id occurs in a vector.
fn contains_entid(v: &Vec<Entid>, x: Entid) -> (r: bool)
    ensures
        r == v@.contains(x),
{
    let mut i: usize = 0;
    while i < v.len()
        invariant
            i <= v@.len(),
            forall|j: int| 0 <= j < i ==> v@[j] != x,
        decreases v@.len() - i,
    {
        if v[i] == x {
            return true;
        }
        i = i + 1;
    }
    false
}

/// Whether the transaction touched one of the watched attributes.
fn tx_touches(tx: &CommittedTx, watched: &Vec<Entid>) -> (r: bool)
    ensures
        r == touches(*tx, watched@),
{
    let mut i: usize = 0;
    while i < tx.attributes.len()
        invariant
            i <= tx.attributes@.len(),
            forall|j: int| 0 <= j < i ==> !watched@.contains(#[trigger] tx.attributes@[j]),
        decreases tx.attributes@.len() - i,
    {
        if contains_entid(watched, tx.attributes[i]) {
            return true;
        }
        i = i + 1;
    }
    false
}

/// An element-wise copy of an entity-id vector.
fn clone_entids(v: &Vec<Entid>) -> (r: Vec<Entid>)
    ensures
        r@ == v@,
{
    let mut r: Vec<Entid> = Vec::new();
    let mut i: usize = 0;
    while i < v.len()
        invariant
            i <= v@.len(),
            r@.len() == i,
            forall|j: int| 0 <= j < i ==> r@[j] == v@[j],
        decreases v@.len() - i,
    {
        r.push(v[i]);
        i = i + 1;
    }
    proof {
        assert(r@ =~= v@);
    }
    r
}

/// Re-shapes a committed batch into the flat change list one observer
/// receives: exactly its applicable transactions, in batch order.
pub fn applicable_changes(watched: &Vec<Entid>, batch: &Vec<CommittedTx>) -> (r: TxChangeList)
    ensures
        r.changes_view() == applicable_view(batch@, watched@),
        r.reports@.len() == applicable(batch@, watched@).len(),
{
    let mut reports: Vec<TransactionChange> = Vec::new();
    let mut i: usize = 0;
    while i < batch.len()
        invariant
            i <= batch@.len(),
            reports_view(reports@) =~= applicable_view(batch@.subrange(0, i as int), watched@),
            reports@.len() == applicable(batch@.subrange(0, i as int), watched@).len(),
        decreases batch@.len() - i,
    {
        let ghost prefix = batch@.subrange(0, i as int);
        proof {
            assert(batch@.subrange(0, i as int + 1).drop_last() =~= prefix);
            assert(batch@.subrange(0, i as int + 1).last() == batch@[i as int]);
        }
        if tx_touches(&batch[i], watched) {
            let tc = TransactionChange { txid: batch[i].txid, changes: clone_entids(
                &batch[i].changes,
            ) };
            let ghost old_reports = reports@;
            let ghost tcg = tc;
            reports.push(tc);
            proof {
                let ghost next = batch@.subrange(0, i as int + 1);
                assert(applicable(next, watched@) == applicable(prefix, watched@).push(
                    batch@[i as int],
                ));
                let ghost rv = reports_view(reports@);
                let ghost av = applicable_view(next, watched@);
                assert(rv.len() == av.len());
                assert forall|j: int| 0 <= j < rv.len() implies rv[j] == av[j] by {
                    if j < old_reports.len() {
                        assert(reports@[j] == old_reports[j]);
                        assert(reports_view(old_reports)[j] == applicable_view(
                            prefix,
                            watched@,
                        )[j]);
                        assert(av[j] == applicable_view(prefix, watched@)[j]);
                    } else {
                        assert(reports@[j] == tcg);
                        assert(applicable(next, watched@)[j] == batch@[i as int]);
                    }
                }
                assert(rv =~= av);
            }
        } else {
            proof {
                assert(reports_view(reports@) =~= applicable_view(
                    batch@.subrange(0, i as int + 1),
                    watched@,
                ));
            }
        }
        i = i + 1;
    }
    proof {
        assert(batch@.subrange(0, batch@.len() as int) =~= batch@);
    }
    TxChangeList { reports }
}

/// Plans the deliveries for a committed batch: one entry per observer
/// whose watched set some transaction touched, in registration order,
/// each carrying that observer's flat change list.
pub fn dispatch(obs: &ObserverRegistry, batch: &Vec<CommittedTx>) -> (r: Vec<
    (String, TxChangeList),
>)
    ensures
        r@.len() == notified(obs.observers_seq(), batch@).len(),
        forall|j: int|
            0 <= j < r@.len() ==> (#[trigger] r@[j].0)@ == notified(
                obs.observers_seq(),
                batch@,
            )[j].0,
        forall|j: int|
            0 <= j < r@.len() ==> (#[trigger] r@[j].1).changes_view() == applicable_view(
                batch@,
                notified(obs.observers_seq(), batch@)[j].1,
            ),
{
    let ghost os = obs.observers_seq();
    let mut out: Vec<(String, TxChangeList)> = Vec::new();
    let mut i: usize = 0;
    while i < obs.entries.len()
        invariant
            i <= obs.entries@.len(),
            os == obs.observers_seq(),
            os.len() == obs.entries@.len(),
            forall|j: int| 0 <= j < os.len() ==> #[trigger] os[j] == (obs.entries@[j].0@,
                obs.entries@[j].1@),
            out@.len() == notified(os.subrange(0, i as int), batch@).len(),
            forall|j: int|
                0 <= j < out@.len() ==> (#[trigger] out@[j].0)@ == notified(
                    os.subrange(0, i as int),
                    batch@,
                )[j].0,
            forall|j: int|
                0 <= j < out@.len() ==> (#[trigger] out@[j].1).changes_view() == applicable_view(
                    batch@,
                    notified(os.subrange(0, i as int), batch@)[j].1,
                ),
        decreases obs.entries@.len() - i,
    {
        let ghost prefix = os.subrange(0, i as int);
        proof {
            assert(os.subrange(0, i as int + 1).drop_last() =~= prefix);
            assert(os.subrange(0, i as int + 1).last() == os[i as int]);
        }
        let cl = applicable_changes(&obs.entries[i].1, batch);
        if cl.reports.len() > 0 {
            let key = obs.entries[i].0.clone();
            out.push((key, cl));
        }
        i = i + 1;
    }
    proof {
        assert(os.subrange(0, os.len() as int) =~= os);
    }
    out
}

/// Reads one entry of a change list; an index out of range is reported.
pub fn tx_change_list_entry_at<'a>(list: &'a TxChangeList, index: usize) -> (r: Option<
    &'a TransactionChange,
>)
    ensures
        index < list.reports@.len() ==> (r matches Some(c) && *c == list.reports@[index as int]),
        index >= list.reports@.len() ==> r is None,
{
    if index < list.reports.len() {
        Some(&list.reports[index])
    } else {
        None
    }
}

/// Reads one changed entity id of a transaction change; an index out of
/// range is reported.
pub fn changelist_entry_at(change: &TransactionChange, index: usize) -> (r: Option<Entid>)
    ensures
        index < change.changes@.len() ==> r == Some(change.changes@[index as int]),
        index >= change.changes@.len() ==> r is None,
{
    if index < change.changes.len() {
        Some(change.changes[index])
    } else {
        None
    }
}

/// LAW: a batch none of whose transactions touches the watched set yields
/// no applicable transaction: such an observer is not invoked.
pub proof fn lemma_applicable_empty(batch: Seq<CommittedTx>, watched: Seq<Entid>)
    requires
        forall|t: int| 0 <= t < batch.len() ==> !touches(#[trigger] batch[t], watched),
    ensures
        applicable(batch, watched).len() == 0,
    decreases batch.len(),
{
    if batch.len() > 0 {
        lemma_applicable_empty(batch.drop_last(), watched);
    }
}

/// LAW: a transaction that touches the watched set appears in that
/// observer's change list.
pub proof fn lemma_applicable_contains(batch: Seq<CommittedTx>, watched: Seq<Entid>, t: int)
    requires
        0 <= t < batch.len(),
        touches(batch[t], watched),
    ensures
        applicable(batch, watched).contains(batch[t]),
    decreases batch.len(),
{
    if t == batch.len() - 1 {
        let a = applicable(batch.drop_last(), watched);
        assert(applicable(batch, watched)[a.len() as int] == batch[t]);
    } else {
        lemma_applicable_contains(batch.drop_last(), watched, t);
        let a = applicable(batch.drop_last(), watched);
        let k = choose|k: int| 0 <= k < a.len() && a[k] == batch[t];
        assert(applicable(batch, watched)[k] == batch[t]);
    }
}

/// How often a key occurs among the notified observers.
pub open spec fn occurrences(ns: Seq<(Seq<char>, Seq<Entid>)>, key: Seq<char>) -> nat
    decreases ns.len(),
{
    if ns.len() == 0 {
        0
    } else if ns.last().0 == key {
        occurrences(ns.drop_last(), key) + 1
    } else {
        occurrences(ns.drop_last(), key)
    }
}

proof fn lemma_notified_absent(os: Seq<(Seq<char>, Seq<Entid>)>, batch: Seq<CommittedTx>, key: Seq<
    char,
>)
    requires
        forall|a: int| 0 <= a < os.len() ==> (#[trigger] os[a]).0 != key,
    ensures
        occurrences(notified(os, batch), key) == 0,
        forall|j: int|
            0 <= j < notified(os, batch).len() ==> (#[trigger] notified(os, batch)[j]).0 != key,
    decreases os.len(),
{
    if os.len() > 0 {
        let dl = os.drop_last();
        assert forall|a: int| 0 <= a < dl.len() implies (#[trigger] dl[a]).0 != key by {
            assert(dl[a] == os[a]);
        }
        lemma_notified_absent(dl, batch, key);
        assert(os.last() == os[os.len() - 1]);
        if applicable(batch, os.last().1).len() > 0 {
            let ns = notified(dl, batch);
            assert(notified(os, batch) == ns.push(os.last()));
            assert(ns.push(os.last()).drop_last() =~= ns);
        }
    }
}

/// LAW: each observer is notified exactly once when some transaction of
/// the batch touches its watched set, and not at all otherwise; whenever
/// its key occurs among the notified observers it carries its own watched
/// set.
pub proof fn lemma_notified_exactly_once(
    os: Seq<(Seq<char>, Seq<Entid>)>,
    batch: Seq<CommittedTx>,
    i: int,
)
    requires
        0 <= i < os.len(),
        forall|a: int| 0 <= a < os.len() && a != i ==> (#[trigger] os[a]).0 != os[i].0,
    ensures
        occurrences(notified(os, batch), os[i].0) == if applicable(batch, os[i].1).len() > 0 {
            1nat
        } else {
            0nat
        },
        forall|j: int|
            0 <= j < notified(os, batch).len() && (#[trigger] notified(os, batch)[j]).0 == os[i].0
                ==> notified(os, batch)[j].1 == os[i].1,
    decreases os.len(),
{
    let dl = os.drop_last();
    let key = os[i].0;
    assert(os.last() == os[os.len() - 1]);
    if i == os.len() - 1 {
        assert forall|a: int| 0 <= a < dl.len() implies (#[trigger] dl[a]).0 != key by {
            assert(dl[a] == os[a]);
        }
        lemma_notified_absent(dl, batch, key);
        if applicable(batch, os[i].1).len() > 0 {
            let ns = notified(dl, batch);
            assert(notified(os, batch) == ns.push(os.last()));
            assert(ns.push(os.last()).drop_last() =~= ns);
            assert(occurrences(notified(os, batch), key) == occurrences(ns, key) + 1);
        }
    } else {
        assert forall|a: int| 0 <= a < dl.len() && a != i implies (#[trigger] dl[a]).0 != dl[i].0 by {
            assert(dl[a] == os[a]);
            assert(dl[i] == os[i]);
        }
        lemma_notified_exactly_once(dl, batch, i);
        assert(dl[i] == os[i]);
        assert(os.last().0 != key);
        if applicable(batch, os.last().1).len() > 0 {
            let ns = notified(dl, batch);
            assert(notified(os, batch) == ns.push(os.last()));
            assert(ns.push(os.last()).drop_last() =~= ns);
            assert(occurrences(notified(os, batch), key) == occurrences(ns, key));
            assert forall|j: int|
                0 <= j < notified(os, batch).len() && (#[trigger] notified(os, batch)[j]).0
                    == os[i].0 implies notified(os, batch)[j].1 == os[i].1 by {
                if j < ns.len() {
                    assert(notified(os, batch)[j] == ns[j]);
                }
            }
        }
    }
}

/// LAW: with a single registered observer — the table a fresh
/// registration yields — a batch none of whose transactions touches the
/// watched set notifies nobody, and a batch with a touching transaction
/// notifies exactly that observer, whose change list then carries its
/// applicable transactions.
pub proof fn lemma_single_observer_notified(
    key: Seq<char>,
    watched: Seq<Entid>,
    batch: Seq<CommittedTx>,
)
    ensures
        (forall|t: int| 0 <= t < batch.len() ==> !touches(#[trigger] batch[t], watched))
            ==> notified(seq![(key, watched)], batch) == Seq::<(Seq<char>, Seq<Entid>)>::empty(),
        (exists|t: int| 0 <= t < batch.len() && touches(batch[t], watched)) ==> notified(
            seq![(key, watched)],
            batch,
        ) == seq![(key, watched)],
{
    let os = seq![(key, watched)];
    let empty_os = Seq::<(Seq<char>, Seq<Entid>)>::empty();
    assert(os.drop_last() =~= empty_os);
    assert(notified(empty_os, batch) == empty_os);
    assert(os.last() == (key, watched));
    if forall|t: int| 0 <= t < batch.len() ==> !touches(#[trigger] batch[t], watched) {
        lemma_applicable_empty(batch, watched);
        assert(notified(os, batch) == notified(os.drop_last(), batch));
        assert(notified(os.drop_last(), batch) == notified(empty_os, batch));
    }
    if exists|t: int| 0 <= t < batch.len() && touches(batch[t], watched) {
        let t = choose|t: int| 0 <= t < batch.len() && touches(batch[t], watched);
        lemma_applicable_contains(batch, watched, t);
        assert(applicable(batch, watched).len() > 0);
        assert(notified(os, batch) == notified(os.drop_last(), batch).push(os.last()));
        assert(notified(os.drop_last(), batch) == notified(empty_os, batch));
        assert(empty_os.push((key, watched)) =~= seq![(key, watched)]);
    }
}

/// Every notified observer is one of the registered observers.
proof fn lemma_notified_elements(os: Seq<(Seq<char>, Seq<Entid>)>, batch: Seq<CommittedTx>)
    ensures
        forall|j: int|
            0 <= j < notified(os, batch).len() ==> exists|a: int|
                0 <= a < os.len() && os[a] == #[trigger] notified(os, batch)[j],
    decreases os.len(),
{
    if os.len() > 0 {
        lemma_notified_elements(os.drop_last(), batch);
        assert forall|j: int| 0 <= j < notified(os, batch).len() implies exists|a: int|
            0 <= a < os.len() && os[a] == #[trigger] notified(os, batch)[j] by {
            let ns = notified(os.drop_last(), batch);
            if j < ns.len() {
                let a = choose|a: int|
                    0 <= a < os.drop_last().len() && os.drop_last()[a] == ns[j];
                assert(os[a] == notified(os, batch)[j]);
            } else {
                assert(os[os.len() - 1] == notified(os, batch)[j]);
            }
        }
    }
}

/// A well-formed observer table has distinct keys in registration order,
/// as the exactly-once law asks.
pub proof fn lemma_wf_observers_distinct(obs: ObserverRegistry)
    requires
        obs.wf(),
    ensures
        forall|a: int, b: int|
            0 <= a < b < obs.observers_seq().len() ==> (#[trigger] obs.observers_seq()[a]).0 != (
            #[trigger] obs.observers_seq()[b]).0,
{
    let os = obs.observers_seq();
    assert forall|a: int, b: int| 0 <= a < b < os.len() implies (#[trigger] os[a]).0 != (
    #[trigger] os[b]).0 by {
        assert(os[a] == (obs.entries@[a].0@, obs.entries@[a].1@));
        assert(os[b] == (obs.entries@[b].0@, obs.entries@[b].1@));
    }
}

/// LAW: unregistering a key that is not registered is silent, and
/// unregistering any key leaves every other subscription as it was.
pub proof fn lemma_unregister_silent(m: Map<Seq<char>, Seq<Entid>>, key: Seq<char>)
    ensures
        !m.contains_key(key) ==> m.remove(key) == m,
        forall|k2: Seq<char>|
            k2 != key && m.contains_key(k2) ==> m.remove(key).contains_key(k2) && m.remove(key)[k2]
                == m[k2],
{
    if !m.contains_key(key) {
        assert(m.remove(key) =~= m);
    }
}

} // verus!
