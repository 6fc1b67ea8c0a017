//! The text form of a namespaced keyword.
//!
//! Keywords cross the boundary as text of the shape `:namespace/name`.
//! [`kw_from_string`] reads that form back, taking the first `/` after the
//! leading `:` as the separator, and reports malformed text instead of
//! guessing; [`keyword_to_text`] writes it.

use vstd::prelude::*;
use vstd::string::StringExecFns;
use vstd::string::StrSliceExecFns;
use crate::value::NamespacedKeyword;

verus! {

/// The canonical text of a keyword: `:namespace/name`.
pub open spec fn keyword_text(ns: Seq<char>, name: Seq<char>) -> Seq<char> {
    seq![':'] + ns + seq!['/'] + name
}

/// The position of the first `/` at or after `i`, or `-1` if there is none.
pub open spec fn find_slash(s: Seq<char>, i: int) -> int
    decreases s.len() - i,
{
    if i < 0 || i >= s.len() {
        -1
    } else if s[i] == '/' {
        i
    } else {
        find_slash(s, i + 1)
    }
}

/// Whether the text is a well-formed keyword: a leading `:`, a nonempty
/// namespace free of `/`, a separating `/`, and a nonempty name.
pub open spec fn is_keyword_text(s: Seq<char>) -> bool {
    &&& s.len() >= 1
    &&& s[0] == ':'
    &&& 1 < find_slash(s, 1) < s.len() - 1
}

/// The namespace part of a well-formed keyword text.
pub open spec fn kw_ns(s: Seq<char>) -> Seq<char> {
    s.subrange(1, find_slash(s, 1))
}

/// The name part of a well-formed keyword text.
pub open spec fn kw_name(s: Seq<char>) -> Seq<char> {
    s.subrange(find_slash(s, 1) + 1, s.len() as int)
}

/// A slash at `j` preceded by none in `[i, j)` is the first one from `i`.
proof fn lemma_find_slash_at(s: Seq<char>, i: int, j: int)
    requires
        0 <= i <= j < s.len(),
        s[j] == '/',
        forall|k: int| i <= k < j ==> s[k] != '/',
    ensures
        find_slash(s, i) == j,
    decreases j - i,
{
    if i < j {
        lemma_find_slash_at(s, i + 1, j);
    }
}

/// Without any slash from `i` on, the search reports none.
proof fn lemma_find_slash_none(s: Seq<char>, i: int)
    requires
        0 <= i,
        forall|k: int| i <= k < s.len() ==> s[k] != '/',
    ensures
        find_slash(s, i) == -1,
    decreases s.len() - i,
{
    if i < s.len() {
        lemma_find_slash_none(s, i + 1);
    }
}

/// A found slash is a slash, lies in range, and is the first from `i`.
proof fn lemma_find_slash_found(s: Seq<char>, i: int)
    requires
        0 <= i,
        find_slash(s, i) >= 0,
    ensures
        i <= find_slash(s, i) < s.len(),
        s[find_slash(s, i)] == '/',
        forall|k: int| i <= k < find_slash(s, i) ==> s[k] != '/',
    decreases s.len() - i,
{
    if i < s.len() && s[i] != '/' {
        lemma_find_slash_found(s, i + 1);
    }
}

/// Reassembling the parts of a well-formed keyword text restores it.
pub proof fn lemma_keyword_text_identity(s: Seq<char>)
    requires
        is_keyword_text(s),
    ensures
        keyword_text(kw_ns(s), kw_name(s)) == s,
{
    lemma_find_slash_found(s, 1);
    assert(keyword_text(kw_ns(s), kw_name(s)) =~= s);
}

/// Writes the canonical `:namespace/name` text of a keyword.
pub fn keyword_to_text(kw: &NamespacedKeyword) -> (r: String)
    ensures
        r@ == keyword_text(kw.namespace@, kw.name@),
{
    let mut s = String::new();
    s.append(":");
    s.append(kw.namespace.as_str());
    s.append("/");
    s.append(kw.name.as_str());
    proof {
        reveal_strlit(":");
        reveal_strlit("/");
        assert(s@ =~= keyword_text(kw.namespace@, kw.name@));
    }
    s
}

/// Reads a keyword from its `:namespace/name` text; reports malformed text.
pub fn kw_from_string(s: &str) -> (r: Option<NamespacedKeyword>)
    ensures
        match r {
            Some(kw) => is_keyword_text(s@) && kw.namespace@ == kw_ns(s@) && kw.name@ == kw_name(
                s@,
            ),
            None => !is_keyword_text(s@),
        },
{
    let len = s.unicode_len();
    if len < 4 {
        proof {
            if is_keyword_text(s@) {
                assert(find_slash(s@, 1) < s@.len() - 1);
            }
        }
        return None;
    }
    if s.get_char(0) != ':' {
        return None;
    }
    let mut i: usize = 1;
    while i < len
        invariant
            1 <= i <= len,
            len == s@.len(),
            4 <= len,
            s@[0] == ':',
            forall|k: int| 1 <= k < i ==> s@[k] != '/',
        decreases len - i,
    {
        if s.get_char(i) == '/' {
            proof {
                lemma_find_slash_at(s@, 1, i as int);
            }
            if i <= 1 || i >= len - 1 {
                return None;
            }
            let ns = s.substring_char(1, i);
            let name = s.substring_char(i + 1, len);
            return Some(NamespacedKeyword { namespace: ns.to_owned(), name: name.to_owned() });
        }
        i = i + 1;
    }
    proof {
        lemma_find_slash_none(s@, 1);
    }
    None
}

/// LAW: writing a keyword and reading the text back restores its parts,
/// for every keyword whose namespace is nonempty and free of `/` and whose
/// name is nonempty.
pub proof fn lemma_keyword_text_round_trip(ns: Seq<char>, name: Seq<char>)
    requires
        ns.len() > 0,
        !ns.contains('/'),
        name.len() > 0,
    ensures
        is_keyword_text(keyword_text(ns, name)),
        kw_ns(keyword_text(ns, name)) == ns,
        kw_name(keyword_text(ns, name)) == name,
{
    let t = keyword_text(ns, name);
    assert forall|k: int| 1 <= k < 1 + ns.len() implies t[k] != '/' by {
        assert(t[k] == ns[k - 1]);
        if t[k] == '/' {
            assert(ns[k - 1] == '/');
            assert(ns.contains('/'));
        }
    }
    lemma_find_slash_at(t, 1, 1 + ns.len() as int);
    assert(kw_ns(t) =~= ns);
    assert(kw_name(t) =~= name);
}

} // verus!
