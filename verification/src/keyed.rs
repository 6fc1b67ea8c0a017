//! String-keyed association lists with a mathematical `Map` view.
//!
//! Several boundary structures are keyed collections: the query builder's
//! variable bindings, a transaction report's temporary-id map, the schema's
//! attribute registry and the observer table.  They are held as vectors of
//! `(String, value)` pairs; [`keyed_view`] reads such a vector as a map from
//! character sequences to value views, with a later pair shadowing an
//! earlier one of the same key.

use vstd::prelude::*;

verus! {

/// Relies on `str`'s `PartialEq`: two string slices compare equal exactly
/// when their character sequences are equal.
#[verifier::external_body]
pub fn str_eq(a: &str, b: &str) -> (r: bool)
    ensures
        r == (a@ == b@),
{
    a == b
}

/// The map that an association list denotes: a later pair shadows an
/// earlier one of the same key.
pub open spec fn keyed_view<V: View>(s: Seq<(String, V)>) -> Map<Seq<char>, V::V>
    decreases s.len(),
{
    if s.len() == 0 {
        Map::empty()
    } else {
        keyed_view(s.drop_last()).insert(s.last().0@, s.last().1@)
    }
}

/// No pair carries the key, so the map has no entry for it.
pub proof fn lemma_keyed_view_absent<V: View>(s: Seq<(String, V)>, k: Seq<char>)
    requires
        forall|j: int| 0 <= j < s.len() ==> s[j].0@ != k,
    ensures
        !keyed_view(s).contains_key(k),
    decreases s.len(),
{
    if s.len() > 0 {
        lemma_keyed_view_absent(s.drop_last(), k);
    }
}

/// The last pair carrying the key decides the map's entry for it.
pub proof fn lemma_keyed_view_last_match<V: View>(s: Seq<(String, V)>, k: Seq<char>, i: int)
    requires
        0 <= i < s.len(),
        s[i].0@ == k,
        forall|j: int| i < j < s.len() ==> s[j].0@ != k,
    ensures
        keyed_view(s).contains_key(k),
        keyed_view(s)[k] == s[i].1@,
    decreases s.len(),
{
    if i < s.len() - 1 {
        lemma_keyed_view_last_match(s.drop_last(), k, i);
    }
}

/// Appending a pair inserts its entry into the map.
pub proof fn lemma_keyed_view_push<V: View>(s: Seq<(String, V)>, p: (String, V))
    ensures
        keyed_view(s.push(p)) == keyed_view(s).insert(p.0@, p.1@),
{
    assert(s.push(p).drop_last() =~= s);
    assert(s.push(p).last() == p);
}

/// All keys in the list are distinct.
pub open spec fn distinct_keys<V: View>(s: Seq<(String, V)>) -> bool {
    forall|i: int, j: int| 0 <= i < j < s.len() ==> s[i].0@ != s[j].0@
}

/// Overwriting the unique pair of a key in place inserts the new value.
pub proof fn lemma_keyed_view_update_unique<V: View>(s: Seq<(String, V)>, i: int, p: (String, V))
    requires
        distinct_keys(s),
        0 <= i < s.len(),
        s[i].0@ == p.0@,
    ensures
        keyed_view(s.update(i, p)) == keyed_view(s).insert(p.0@, p.1@),
    decreases s.len(),
{
    let n = s.len() - 1;
    if i == n {
        assert(s.update(i, p).drop_last() =~= s.drop_last());
        assert(keyed_view(s.drop_last()).insert(s[n].0@, s[n].1@).insert(p.0@, p.1@)
            =~= keyed_view(s.drop_last()).insert(p.0@, p.1@));
    } else {
        assert(s.update(i, p).drop_last() =~= s.drop_last().update(i, p));
        lemma_keyed_view_update_unique(s.drop_last(), i, p);
        assert(s[n].0@ != p.0@);
        assert(keyed_view(s.drop_last()).insert(p.0@, p.1@).insert(s[n].0@, s[n].1@)
            =~= keyed_view(s.drop_last()).insert(s[n].0@, s[n].1@).insert(p.0@, p.1@));
    }
}

/// Removing the unique pair of a key removes its entry from the map.
pub proof fn lemma_keyed_view_remove_unique<V: View>(s: Seq<(String, V)>, i: int)
    requires
        distinct_keys(s),
        0 <= i < s.len(),
    ensures
        keyed_view(s.remove(i)) == keyed_view(s).remove(s[i].0@),
    decreases s.len(),
{
    let n = s.len() - 1;
    if i == n {
        assert(s.remove(i) =~= s.drop_last());
        lemma_keyed_view_absent(s.drop_last(), s[i].0@);
        assert(keyed_view(s.drop_last())
            =~= keyed_view(s.drop_last()).insert(s[n].0@, s[n].1@).remove(s[n].0@));
    } else {
        assert(s.remove(i).drop_last() =~= s.drop_last().remove(i));
        assert(s.remove(i).last() == s.last());
        lemma_keyed_view_remove_unique(s.drop_last(), i);
        assert(s[n].0@ != s[i].0@);
        assert(keyed_view(s.drop_last()).remove(s[i].0@).insert(s[n].0@, s[n].1@)
            =~= keyed_view(s.drop_last()).insert(s[n].0@, s[n].1@).remove(s[i].0@));
    }
}

/// Any pair carrying the key puts an entry for it into the map.
pub proof fn lemma_keyed_view_contains<V: View>(s: Seq<(String, V)>, i: int)
    requires
        0 <= i < s.len(),
    ensures
        keyed_view(s).contains_key(s[i].0@),
    decreases s.len(),
{
    if i < s.len() - 1 {
        lemma_keyed_view_contains(s.drop_last(), i);
    }
}

/// Removing a pair keeps the remaining keys distinct.
pub proof fn lemma_distinct_keys_remove<V: View>(s: Seq<(String, V)>, i: int)
    requires
        distinct_keys(s),
        0 <= i < s.len(),
    ensures
        distinct_keys(s.remove(i)),
{
    assert forall|a: int, b: int| 0 <= a < b < s.remove(i).len() implies s.remove(i)[a].0@
        != s.remove(i)[b].0@ by {
        let a0: int = if a < i {
            a
        } else {
            a + 1
        };
        let b0: int = if b < i {
            b
        } else {
            b + 1
        };
        assert(s.remove(i)[a] == s[a0]);
        assert(s.remove(i)[b] == s[b0]);
        assert(s[a0].0@ != s[b0].0@);
    }
}

/// The map has an entry for a key exactly when some pair carries it: every
/// key the pairs reference resolves, and no others.
pub proof fn lemma_keyed_view_domain<V: View>(s: Seq<(String, V)>, k: Seq<char>)
    ensures
        keyed_view(s).contains_key(k) <==> exists|i: int|
            0 <= i < s.len() && (#[trigger] s[i]).0@ == k,
    decreases s.len(),
{
    if s.len() > 0 {
        lemma_keyed_view_domain(s.drop_last(), k);
        if keyed_view(s).contains_key(k) {
            if s.last().0@ == k {
                assert(s[s.len() - 1].0@ == k);
            } else {
                let i = choose|i: int|
                    0 <= i < s.drop_last().len() && (#[trigger] s.drop_last()[i]).0@ == k;
                assert(s[i].0@ == k);
            }
        }
        if exists|i: int| 0 <= i < s.len() && (#[trigger] s[i]).0@ == k {
            let i = choose|i: int| 0 <= i < s.len() && (#[trigger] s[i]).0@ == k;
            if i < s.len() - 1 {
                assert(s.drop_last()[i].0@ == k);
            }
        }
    }
}

/// Looks a key up, returning the value of the last pair that carries it.
pub fn keyed_get<'a, V: View>(entries: &'a Vec<(String, V)>, key: &str) -> (r: Option<&'a V>)
    ensures
        match r {
            Some(v) => keyed_view(entries@).contains_key(key@)
                && v@ == keyed_view(entries@)[key@],
            None => !keyed_view(entries@).contains_key(key@),
        },
{
    let mut i: usize = entries.len();
    while i > 0
        invariant
            i <= entries@.len(),
            forall|j: int| i <= j < entries@.len() ==> entries@[j].0@ != key@,
        decreases i,
    {
        i = i - 1;
        if str_eq(entries[i].0.as_str(), key) {
            proof {
                lemma_keyed_view_last_match(entries@, key@, i as int);
            }
            return Some(&entries[i].1);
        }
    }
    proof {
        lemma_keyed_view_absent(entries@, key@);
    }
    None
}

/// The index of the last pair that carries the key, if any.
pub fn keyed_find<V: View>(entries: &Vec<(String, V)>, key: &str) -> (r: Option<usize>)
    ensures
        match r {
            Some(i) => i < entries@.len() && entries@[i as int].0@ == key@
                && (forall|j: int| i < j < entries@.len() ==> entries@[j].0@ != key@),
            None => !keyed_view(entries@).contains_key(key@),
        },
{
    let mut i: usize = entries.len();
    while i > 0
        invariant
            i <= entries@.len(),
            forall|j: int| i <= j < entries@.len() ==> entries@[j].0@ != key@,
        decreases i,
    {
        i = i - 1;
        if str_eq(entries[i].0.as_str(), key) {
            return Some(i);
        }
    }
    proof {
        lemma_keyed_view_absent(entries@, key@);
    }
    None
}

/// Appends a pair; in the map the new entry shadows any earlier one.
pub fn keyed_put<V: View>(entries: &mut Vec<(String, V)>, key: String, value: V)
    ensures
        final(entries)@ == old(entries)@.push((key, value)),
        keyed_view(final(entries)@) == keyed_view(old(entries)@).insert(key@, value@),
{
    let ghost s = entries@;
    let ghost p = (key, value);
    entries.push((key, value));
    proof {
        lemma_keyed_view_push(s, p);
    }
}

} // verus!
