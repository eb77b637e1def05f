//! The lexicographic order of names, and listings of distinct names in that order.

use itertools::Itertools;
use vstd::prelude::*;

verus! {

broadcast use vstd::seq_lib::group_to_multiset_ensures;

/// Whether `a` comes strictly before `b` in lexicographic order of code points, the order
/// of Rust's `String`.
pub open spec fn lex_lt(a: Seq<char>, b: Seq<char>) -> bool
    decreases a.len(),
{
    if a.len() == 0 {
        b.len() > 0
    } else if b.len() == 0 {
        false
    } else if a[0] != b[0] {
        a[0] < b[0]
    } else {
        lex_lt(a.drop_first(), b.drop_first())
    }
}

/// The text of each string of `v`.
pub open spec fn texts(v: Seq<String>) -> Seq<Seq<char>> {
    v.map_values(|s: String| s@)
}

/// Whether `s` is in ascending order, ties allowed.
pub open spec fn ascending(s: Seq<Seq<char>>) -> bool {
    forall|i: int, j: int| 0 <= i < j < s.len() ==> !lex_lt(#[trigger] s[j], #[trigger] s[i])
}

/// Whether `s` is in strictly ascending order, so without repeats.
pub open spec fn strictly_ascending(s: Seq<Seq<char>>) -> bool {
    forall|i: int, j: int| 0 <= i < j < s.len() ==> lex_lt(#[trigger] s[i], #[trigger] s[j])
}

/// Of two different texts, one comes before the other.
pub proof fn lemma_lex_total(a: Seq<char>, b: Seq<char>)
    requires
        a != b,
    ensures
        lex_lt(a, b) || lex_lt(b, a),
    decreases a.len(),
{
    if a.len() > 0 && b.len() > 0 && a[0] == b[0] {
        if a.drop_first() == b.drop_first() {
            assert(a =~= seq![a[0]] + a.drop_first());
            assert(b =~= seq![b[0]] + b.drop_first());
        }
        lemma_lex_total(a.drop_first(), b.drop_first());
    } else if a.len() == 0 && b.len() == 0 {
        assert(a =~= b);
    }
}

/// Relies on `itertools::Itertools::unique`: keeps the first of the strings equal to one
/// another, dropping the later ones.
#[verifier::external_body]
fn unique_strings(v: Vec<String>) -> (r: Vec<String>)
    ensures
        texts(r@).no_duplicates(),
        forall|t: Seq<char>| texts(r@).contains(t) <==> texts(v@).contains(t),
{
    v.into_iter().unique().collect()
}

/// Relies on `itertools::Itertools::sorted`: the same strings, in ascending order.
#[verifier::external_body]
pub(crate) fn sorted_strings(v: Vec<String>) -> (r: Vec<String>)
    ensures
        texts(r@).to_multiset() == texts(v@).to_multiset(),
        ascending(texts(r@)),
{
    v.into_iter().sorted().collect()
}

/// The distinct strings of `names`, in strictly ascending order.
pub fn distinct_sorted(names: Vec<String>) -> (r: Vec<String>)
    ensures
        strictly_ascending(texts(r@)),
        forall|t: Seq<char>| texts(r@).contains(t) <==> texts(names@).contains(t),
{
    let distinct = unique_strings(names);
    let r = sorted_strings(distinct);
    proof {
        let d = texts(distinct@);
        let s = texts(r@);
        d.lemma_multiset_has_no_duplicates();
        s.lemma_multiset_has_no_duplicates_conv();
        assert forall|t: Seq<char>| s.contains(t) <==> d.contains(t) by {
            assert(s.contains(t) <==> s.to_multiset().count(t) > 0);
            assert(d.contains(t) <==> d.to_multiset().count(t) > 0);
        }
        assert forall|i: int, j: int| 0 <= i < j < s.len() implies lex_lt(
            #[trigger] s[i],
            #[trigger] s[j],
        ) by {
            assert(s[i] != s[j]);
            lemma_lex_total(s[i], s[j]);
        }
    }
    r
}

} // verus!
