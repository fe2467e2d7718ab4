use vstd::prelude::*;
use vstd::std_specs::iter::IteratorSpec;

verus! {

broadcast use vstd::string::group_string_axioms;

/// The characters of `s`, in order.
pub fn chars_of(s: &str) -> (v: Vec<char>)
    ensures
        v@ == s@,
{
    let mut it = s.chars();
    let mut v: Vec<char> = Vec::new();
    loop
        invariant
            v@ + it.remaining() == s@,
            it.decrease() is Some,
        ensures
            v@ == s@,
        decreases it.decrease()->0,
    {
        match it.next() {
            Some(c) => {
                v.push(c);
            },
            None => {
                break ;
            },
        }
    }
    v
}

/// `needle` occurs in `hay` starting at position `i`.
pub open spec fn occurs_at(needle: Seq<char>, hay: Seq<char>, i: int) -> bool {
    &&& 0 <= i
    &&& i + needle.len() <= hay.len()
    &&& hay.subrange(i, i + needle.len()) == needle
}

/// `needle` is a contiguous part of `hay` (the empty text is part of every text).
pub open spec fn occurs_in(needle: Seq<char>, hay: Seq<char>) -> bool {
    exists|i: int| occurs_at(needle, hay, i)
}

fn occurs_at_exec(needle: &Vec<char>, hay: &Vec<char>, i: usize) -> (b: bool)
    requires
        i + needle.len() <= hay.len(),
    ensures
        b == occurs_at(needle@, hay@, i as int),
{
    let n = needle.len();
    let mut j: usize = 0;
    while j < n
        invariant
            j <= n,
            n == needle.len(),
            i + n <= hay.len(),
            forall|k: int| 0 <= k < j ==> hay@[i + k] == needle@[k],
        decreases n - j,
    {
        if hay[i + j] != needle[j] {
            assert(hay@.subrange(i as int, i + n)[j as int] != needle@[j as int]);
            return false;
        }
        j += 1;
    }
    assert(hay@.subrange(i as int, i + n) =~= needle@);
    true
}

/// Whether `needle` occurs as a contiguous run of characters in `hay`.
pub fn occurs_in_exec(needle: &Vec<char>, hay: &Vec<char>) -> (b: bool)
    ensures
        b == occurs_in(needle@, hay@),
{
    let n = needle.len();
    let h = hay.len();
    if n > h {
        return false;
    }
    let mut i: usize = 0;
    while i <= h - n
        invariant
            n == needle.len(),
            h == hay.len(),
            n <= h,
            forall|k: int| 0 <= k < i ==> !occurs_at(needle@, hay@, k),
        decreases h - n + 1 - i,
    {
        if occurs_at_exec(needle, hay, i) {
            return true;
        }
        if i == h - n {
            return false;
        }
        i += 1;
    }
    false
}

/// Whether the text `needle` occurs in the text `hay`.
pub fn str_contains(hay: &str, needle: &str) -> (b: bool)
    ensures
        b == occurs_in(needle@, hay@),
{
    let h = chars_of(hay);
    let n = chars_of(needle);
    occurs_in_exec(&n, &h)
}

/// What `str::to_lowercase` gives for a text: each character mapped to its
/// lowercase form by the Unicode tables of the standard library.
pub uninterp spec fn lowercase(s: Seq<char>) -> Seq<char>;

/// Calls `str::to_lowercase`. The contract claims only that the result is a
/// fixed function of the text, named `lowercase`; the Unicode mapping itself
/// is not written out here.
#[verifier::external_body]
pub(crate) fn to_lowercase(s: &str) -> (res: String)
    ensures
        res@ == lowercase(s@),
{
    s.to_lowercase()
}

/// The search rule: `query` matches `content` when, both taken in lowercase,
/// the query occurs in the content.
pub open spec fn matches_query(content: Seq<char>, query: Seq<char>) -> bool {
    occurs_in(lowercase(query), lowercase(content))
}

/// Case-insensitive search of `query` in `content`.
pub fn text_matches(content: &str, query: &str) -> (b: bool)
    ensures
        b == matches_query(content@, query@),
        b <==> exists|i: int, j: int|
            0 <= i && j == i + lowercase(query@).len() && j <= lowercase(content@).len()
                && #[trigger] lowercase(content@).subrange(i, j) == lowercase(query@),
{
    let c = to_lowercase(content);
    let q = to_lowercase(query);
    proof {
        lemma_match_is_lowercase_run(content@, query@);
    }
    str_contains(c.as_str(), q.as_str())
}

/// A text that occurs in a text that occurs in a third occurs in the third.
pub proof fn lemma_occurs_in_transitive(a: Seq<char>, b: Seq<char>, c: Seq<char>)
    requires
        occurs_in(a, b),
        occurs_in(b, c),
    ensures
        occurs_in(a, c),
{
    let i = choose|i: int| occurs_at(a, b, i);
    let j = choose|j: int| occurs_at(b, c, j);
    assert(c.subrange(j + i, j + i + a.len()) =~= b.subrange(i, i + a.len()));
    assert(occurs_at(a, c, j + i));
}

/// A query matches a text exactly when the query, lowercased, is a run of
/// consecutive characters of the text, lowercased: nothing else about the
/// text (its line breaks, its length, what comes before or after the run)
/// counts.
pub proof fn lemma_match_is_lowercase_run(content: Seq<char>, query: Seq<char>)
    ensures
        matches_query(content, query) <==> exists|i: int, j: int|
            0 <= i && j == i + lowercase(query).len() && j <= lowercase(content).len()
                && #[trigger] lowercase(content).subrange(i, j) == lowercase(query),
{
    let lc = lowercase(content);
    let lq = lowercase(query);
    if matches_query(content, query) {
        let i = choose|i: int| occurs_at(lq, lc, i);
        assert(lc.subrange(i, i + lq.len()) == lq);
    }
    if exists|i: int, j: int|
        0 <= i && j == i + lq.len() && j <= lc.len() && #[trigger] lc.subrange(i, j) == lq {
        let (i, j) = choose|i: int, j: int|
            0 <= i && j == i + lq.len() && j <= lc.len() && #[trigger] lc.subrange(i, j) == lq;
        assert(occurs_at(lq, lc, i));
    }
}

/// A query whose lowercase form is empty (the empty query) matches every
/// text.
pub proof fn lemma_empty_query_matches_all(content: Seq<char>, query: Seq<char>)
    requires
        lowercase(query).len() == 0,
    ensures
        matches_query(content, query),
{
    assert(lowercase(content).subrange(0, 0) =~= lowercase(query));
    lemma_match_is_lowercase_run(content, query);
}

/// A text holding the query, lowercased, at some place matches it: the
/// query is found wherever it stands, after a line break too.
pub proof fn lemma_run_anywhere_matches(content: Seq<char>, query: Seq<char>, i: int)
    requires
        0 <= i,
        i + lowercase(query).len() <= lowercase(content).len(),
        lowercase(content).subrange(i, i + lowercase(query).len()) == lowercase(query),
    ensures
        matches_query(content, query),
{
    let j = i + lowercase(query).len();
    assert(lowercase(content).subrange(i, j) == lowercase(query));
    lemma_match_is_lowercase_run(content, query);
}

} // verus!
