use vstd::prelude::*;
use crate::text::{lemma_occurs_in_transitive, lowercase, matches_query, occurs_in, text_matches};

verus! {

/// One remembered clipboard text: its database id and the text.
pub type Entry = (i32, String);

/// The entries of `history` whose text matches `query`, in their order.
pub open spec fn search_results(history: Seq<Entry>, query: Seq<char>) -> Seq<Entry> {
    history.filter(|e: Entry| matches_query(e.1@, query))
}

/// Keeps the entries whose text contains the search query, ignoring case,
/// in the order of `history`.
pub fn filter_history(history: &Vec<Entry>, query: &str) -> (res: Vec<Entry>)
    ensures
        res@ == search_results(history@, query@),
{
    let mut res: Vec<Entry> = Vec::new();
    let mut i: usize = 0;
    while i < history.len()
        invariant
            i <= history.len(),
            res@ == search_results(history@.take(i as int), query@),
        decreases history.len() - i,
    {
        let entry = &history[i];
        let keep = text_matches(entry.1.as_str(), query);
        if keep {
            res.push((entry.0, entry.1.clone()));
        }
        proof {
            assert(history@.take(i + 1).drop_last() =~= history@.take(i as int));
            reveal_with_fuel(Seq::filter, 1);
        }
        i += 1;
    }
    assert(history@.take(history.len() as int) =~= history@);
    res
}

/// Searching the results of a search again with the same query changes
/// nothing.
pub proof fn lemma_search_idempotent(history: Seq<Entry>, query: Seq<char>)
    ensures
        search_results(search_results(history, query), query) == search_results(history, query),
    decreases history.len(),
{
    reveal_with_fuel(Seq::filter, 1);
    if history.len() > 0 {
        lemma_search_idempotent(history.drop_last(), query);
        let pred = |e: Entry| matches_query(e.1@, query);
        let sub = history.drop_last().filter(pred);
        if pred(history.last()) {
            assert(sub.push(history.last()).drop_last() =~= sub);
        }
    }
}

/// Every shown entry is an entry of the history whose text matches the
/// query, and every entry of the history whose text matches is shown.
pub proof fn lemma_search_sound_and_complete(history: Seq<Entry>, query: Seq<char>)
    ensures
        forall|e: Entry| #[trigger]
            search_results(history, query).contains(e) ==> history.contains(e) && matches_query(
                e.1@,
                query,
            ),
        forall|i: int|
            0 <= i < history.len() && matches_query(history[i].1@, query) ==> #[trigger] search_results(
                history,
                query,
            ).contains(history[i]),
        search_results(history, query).len() <= history.len(),
{
    broadcast use vstd::seq_lib::group_filter_ensures;

    let pred = |e: Entry| matches_query(e.1@, query);
    let res = history.filter(pred);
    assert forall|e: Entry| #[trigger] res.contains(e) implies history.contains(e) && matches_query(
        e.1@,
        query,
    ) by {
        history.lemma_filter_contains_rev(pred, e);
        let j = choose|j: int| 0 <= j < res.len() && res[j] == e;
        assert(pred(res[j]));
    }
    assert forall|i: int| 0 <= i < history.len() && matches_query(history[i].1@, query) implies #[trigger] res.contains(
        history[i],
    ) by {
        assert(pred(history[i]));
    }
}

/// `idx` places each item of `a` at an item of `b` equal to it, at
/// increasing positions.
pub open spec fn embeds<A>(a: Seq<A>, b: Seq<A>, idx: Seq<int>) -> bool {
    &&& idx.len() == a.len()
    &&& forall|i: int| 0 <= i < a.len() ==> 0 <= #[trigger] idx[i] < b.len() && a[i] == b[idx[i]]
    &&& forall|i: int, j: int| 0 <= i < j < a.len() ==> idx[i] < idx[j]
}

/// `a` is `b` with some items left out, the others kept in their order.
pub open spec fn is_subsequence<A>(a: Seq<A>, b: Seq<A>) -> bool {
    exists|idx: Seq<int>| embeds(a, b, idx)
}

/// Keeping the items that meet a stronger test keeps a subsequence of the
/// items that meet a weaker one.
pub proof fn lemma_filter_stronger<A>(s: Seq<A>, strong: spec_fn(A) -> bool, weak: spec_fn(A) -> bool)
    requires
        forall|x: A| #[trigger] strong(x) ==> weak(x),
    ensures
        is_subsequence(s.filter(strong), s.filter(weak)),
    decreases s.len(),
{
    reveal_with_fuel(Seq::filter, 1);
    if s.len() == 0 {
        assert(embeds(s.filter(strong), s.filter(weak), Seq::<int>::empty()));
    } else {
        let t = s.drop_last();
        let x = s.last();
        lemma_filter_stronger(t, strong, weak);
        let fs = t.filter(strong);
        let fw = t.filter(weak);
        let idx = choose|idx: Seq<int>| embeds(fs, fw, idx);
        if strong(x) {
            assert(weak(x));
            let idx2 = idx.push(fw.len() as int);
            assert(embeds(fs.push(x), fw.push(x), idx2));
        } else if weak(x) {
            assert(embeds(fs, fw.push(x), idx));
        } else {
            assert(embeds(fs, fw, idx));
        }
    }
}

/// Keeping every item keeps the sequence.
proof fn lemma_filter_all<A>(s: Seq<A>)
    ensures
        s.filter(|x: A| true) == s,
    decreases s.len(),
{
    reveal_with_fuel(Seq::filter, 1);
    if s.len() > 0 {
        lemma_filter_all(s.drop_last());
        assert(s.drop_last().push(s.last()) =~= s);
    }
}

/// The shown entries are the history with some entries left out, the others
/// in their order.
pub proof fn lemma_search_is_subsequence(history: Seq<Entry>, query: Seq<char>)
    ensures
        is_subsequence(search_results(history, query), history),
{
    let keep = |e: Entry| matches_query(e.1@, query);
    let all = |e: Entry| true;
    lemma_filter_stronger(history, keep, all);
    lemma_filter_all(history);
}

/// A more specific query (whose lowercase form holds the other's) shows a
/// subsequence of what the other shows.
pub proof fn lemma_narrower_query(history: Seq<Entry>, broad: Seq<char>, narrow: Seq<char>)
    requires
        occurs_in(lowercase(broad), lowercase(narrow)),
    ensures
        is_subsequence(search_results(history, narrow), search_results(history, broad)),
{
    let strong = |e: Entry| matches_query(e.1@, narrow);
    let weak = |e: Entry| matches_query(e.1@, broad);
    assert forall|e: Entry| #[trigger] strong(e) implies weak(e) by {
        lemma_occurs_in_transitive(lowercase(broad), lowercase(narrow), lowercase(e.1@));
    }
    lemma_filter_stronger(history, strong, weak);
}

} // verus!
