//! Most-recently-used lists: the list of recent commands and the JQL query history.
use vstd::prelude::*;

use crate::text::str_eq;
use std::collections::VecDeque;

verus! {

/// The test that keeps every entry other than `x`.
pub open spec fn other_than(x: Seq<char>) -> spec_fn(Seq<char>) -> bool {
    |y: Seq<char>| y != x
}

/// The list `s` after `x` was used: `x` moves to (or is added at) the front, the
/// other entries keep their order, and the list is cut to its first `max` entries.
pub open spec fn remember(s: Seq<Seq<char>>, x: Seq<char>, max: nat) -> Seq<Seq<char>> {
    let t = seq![x] + s.filter(other_than(x));
    if t.len() > max {
        t.take(max as int)
    } else {
        t
    }
}

/// The characters of each string of a sequence.
pub open spec fn string_views(s: Seq<String>) -> Seq<Seq<char>> {
    s.map_values(|x: String| x@)
}

/// Pushing a string adds its characters to the views.
pub proof fn lemma_string_views_push(v: Seq<String>, s: String)
    ensures
        string_views(v.push(s)) == string_views(v).push(s@),
{
    assert(string_views(v.push(s)) =~= string_views(v).push(s@));
}

/// The list `list` after `x` was used, cut to `max` entries.
pub fn remember_in(list: &Vec<String>, x: &str, max: usize) -> (r: Vec<String>)
    ensures
        string_views(r@) == remember(string_views(list@), x@, max as nat),
{
    let ghost s = string_views(list@);
    let ghost pred = other_than(x@);
    let mut kept: Vec<String> = Vec::new();
    kept.push(String::from_str(x));
    let mut i: usize = 0;
    while i < list.len()
        invariant
            i <= list@.len(),
            s == string_views(list@),
            pred == other_than(x@),
            string_views(kept@) == seq![x@] + s.take(i as int).filter(pred),
        decreases list.len() - i,
    {
        proof {
            reveal_with_fuel(Seq::<_>::filter, 1);
            assert(s.take(i + 1).drop_last() =~= s.take(i as int));
            assert(s[i as int] == list@[i as int]@);
        }
        let ghost prev = string_views(kept@);
        if !str_eq(list[i].as_str(), x) {
            kept.push(list[i].clone());
            assert(string_views(kept@) =~= prev.push(list@[i as int]@));
            assert((seq![x@] + s.take(i + 1).filter(pred)) =~= prev.push(list@[i as int]@));
        } else {
            assert(seq![x@] + s.take(i + 1).filter(pred) =~= prev);
        }
        i += 1;
    }
    assert(s.take(list@.len() as int) =~= s);
    let ghost t = string_views(kept@);
    if kept.len() > max {
        kept.truncate(max);
        assert(string_views(kept@) =~= t.take(max as int));
    }
    kept
}

/// Every entry of a filtered sequence is an entry of the sequence.
pub proof fn lemma_filter_within<A>(s: Seq<A>, p: spec_fn(A) -> bool)
    ensures
        forall|k: int| 0 <= k < s.filter(p).len() ==> s.contains(#[trigger] s.filter(p)[k]),
    decreases s.len(),
{
    reveal_with_fuel(Seq::<_>::filter, 1);
    if s.len() > 0 {
        lemma_filter_within(s.drop_last(), p);
        let f = s.drop_last().filter(p);
        assert forall|k: int| 0 <= k < s.filter(p).len() implies s.contains(
            #[trigger] s.filter(p)[k],
        ) by {
            if k < f.len() {
                assert(s.filter(p)[k] == f[k]);
                assert(s.drop_last().contains(f[k]));
                let j = choose|j: int| 0 <= j < s.drop_last().len() && s.drop_last()[j] == f[k];
                assert(s[j] == f[k]);
            } else {
                assert(s.filter(p)[k] == s[s.len() - 1]);
            }
        }
    }
}

/// Filtering a sequence without duplicates gives a sequence without duplicates.
pub proof fn lemma_filter_keeps_distinct<A>(s: Seq<A>, p: spec_fn(A) -> bool)
    requires
        s.no_duplicates(),
    ensures
        s.filter(p).no_duplicates(),
    decreases s.len(),
{
    reveal_with_fuel(Seq::<_>::filter, 1);
    if s.len() > 0 {
        let d = s.drop_last();
        assert(d.no_duplicates());
        lemma_filter_keeps_distinct(d, p);
        lemma_filter_within(d, p);
        let f = d.filter(p);
        if p(s.last()) {
            assert forall|k: int| 0 <= k < f.len() implies f[k] != s.last() by {
                assert(d.contains(f[k]));
                let j = choose|j: int| 0 <= j < d.len() && d[j] == f[k];
                assert(s[j] == d[j]);
            }
            let g = f.push(s.last());
            assert forall|i: int, j: int| 0 <= i < g.len() && 0 <= j < g.len() && i != j implies g[i]
                != g[j] by {
                if i < f.len() && j < f.len() {
                    assert(g[i] == f[i] && g[j] == f[j]);
                }
            }
        }
    }
}

/// After `x` is used, it heads the list, the list holds at most `max` entries, and a
/// list without duplicates stays without duplicates.
pub proof fn law_remember(s: Seq<Seq<char>>, x: Seq<char>, max: nat)
    requires
        max > 0,
    ensures
        remember(s, x, max).len() <= max,
        remember(s, x, max).len() > 0,
        remember(s, x, max)[0] == x,
        s.no_duplicates() ==> remember(s, x, max).no_duplicates(),
        forall|i: int| 1 <= i < remember(s, x, max).len() ==> remember(s, x, max)[i] != x,
{
    let f = s.filter(other_than(x));
    s.lemma_filter_len(other_than(x));
    let t = seq![x] + f;
    let r = remember(s, x, max);
    assert forall|i: int| 0 <= i < f.len() implies f[i] != x by {
        s.filter_lemma(other_than(x));
        assert(other_than(x)(f[i]));
    }
    assert forall|i: int| 1 <= i < r.len() implies r[i] != x by {
        assert(r[i] == t[i]);
        assert(t[i] == f[i - 1]);
    }
    if s.no_duplicates() {
        lemma_filter_keeps_distinct(s, other_than(x));
        assert forall|i: int, j: int| 0 <= i < r.len() && 0 <= j < r.len() && i != j implies r[i]
            != r[j] by {
            if i > 0 && j > 0 {
                assert(r[i] == f[i - 1]);
                assert(r[j] == f[j - 1]);
            }
        }
    }
}

/// The queue `list` after `x` was used, cut to `max` entries (see `remember`).
pub fn remember_in_queue(list: &VecDeque<String>, x: &str, max: usize) -> (r: VecDeque<String>)
    ensures
        string_views(r@) == remember(string_views(list@), x@, max as nat),
{
    broadcast use vstd::std_specs::vecdeque::group_vec_dequeue_axioms;
    let ghost s = string_views(list@);
    let ghost pred = other_than(x@);
    let mut kept: VecDeque<String> = VecDeque::new();
    kept.push_back(String::from_str(x));
    proof {
        assert(string_views(kept@) =~= seq![x@] + s.take(0).filter(pred)) by {
            reveal_with_fuel(Seq::<_>::filter, 1);
        }
    }
    let mut i: usize = 0;
    while i < list.len()
        invariant
            i <= list@.len(),
            s == string_views(list@),
            pred == other_than(x@),
            string_views(kept@) == seq![x@] + s.take(i as int).filter(pred),
        decreases list@.len() - i,
    {
        proof {
            reveal_with_fuel(Seq::<_>::filter, 1);
            assert(s.take(i + 1).drop_last() =~= s.take(i as int));
            assert(s[i as int] == list@[i as int]@);
        }
        let ghost prev = string_views(kept@);
        if !str_eq(list[i].as_str(), x) {
            kept.push_back(list[i].clone());
            assert(string_views(kept@) =~= prev.push(list@[i as int]@));
            assert((seq![x@] + s.take(i + 1).filter(pred)) =~= prev.push(list@[i as int]@));
        } else {
            assert(seq![x@] + s.take(i + 1).filter(pred) =~= prev);
        }
        i += 1;
    }
    assert(s.take(list@.len() as int) =~= s);
    let ghost t = string_views(kept@);
    if kept.len() > max {
        kept.truncate(max);
        assert(string_views(kept@) =~= t.take(max as int));
    }
    kept
}

} // verus!
