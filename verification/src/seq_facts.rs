//! Facts about filtered sequences.

use vstd::prelude::*;

verus! {

/// Two predicates that agree on every element of a sequence select the same
/// elements from it.
pub proof fn lemma_filter_agree<A>(s: Seq<A>, p: spec_fn(A) -> bool, q: spec_fn(A) -> bool)
    requires
        forall|i: int| 0 <= i < s.len() ==> p(#[trigger] s[i]) == q(s[i]),
    ensures
        s.filter(p) == s.filter(q),
    decreases s.len(),
{
    reveal(Seq::filter);
    if s.len() > 0 {
        assert(p(s[s.len() - 1]) == q(s[s.len() - 1]));
        lemma_filter_agree(s.drop_last(), p, q);
    }
}

/// A predicate that holds of every element selects the whole sequence.
pub proof fn lemma_filter_all<A>(s: Seq<A>, p: spec_fn(A) -> bool)
    requires
        forall|i: int| 0 <= i < s.len() ==> p(#[trigger] s[i]),
    ensures
        s.filter(p) == s,
    decreases s.len(),
{
    reveal(Seq::filter);
    if s.len() > 0 {
        assert(p(s[s.len() - 1]));
        lemma_filter_all(s.drop_last(), p);
        assert(s.drop_last().push(s.last()) =~= s);
    }
}

/// A predicate that holds of no element selects nothing.
pub proof fn lemma_filter_none<A>(s: Seq<A>, p: spec_fn(A) -> bool)
    requires
        forall|i: int| 0 <= i < s.len() ==> !p(#[trigger] s[i]),
    ensures
        s.filter(p) == Seq::<A>::empty(),
    decreases s.len(),
{
    reveal(Seq::filter);
    if s.len() > 0 {
        assert(!p(s[s.len() - 1]));
        lemma_filter_none(s.drop_last(), p);
    }
}

/// Appending an element appends it to what is selected, if it is selected.
pub proof fn lemma_filter_push<A>(s: Seq<A>, a: A, p: spec_fn(A) -> bool)
    ensures
        s.push(a).filter(p) == if p(a) { s.filter(p).push(a) } else { s.filter(p) },
{
    reveal(Seq::filter);
    assert(s.push(a).drop_last() =~= s);
}

/// What a filter selects was there before, holds the predicate, and is
/// everything that does.
pub proof fn lemma_filter_members<A>(s: Seq<A>, p: spec_fn(A) -> bool)
    ensures
        forall|a: A| #[trigger] s.filter(p).contains(a) <==> s.contains(a) && p(a),
    decreases s.len(),
{
    reveal(Seq::filter);
    if s.len() > 0 {
        let rest = s.drop_last();
        lemma_filter_members(rest, p);
        assert(rest.push(s.last()) =~= s);
        assert forall|a: A| #[trigger] s.filter(p).contains(a) <==> s.contains(a) && p(a) by {
            lemma_push_members(rest, s.last(), a);
            lemma_push_members(rest.filter(p), s.last(), a);
            assert(rest.filter(p).contains(a) <==> rest.contains(a) && p(a));
        }
    }
}

/// The members of a sequence with one more element.
pub proof fn lemma_push_members<A>(s: Seq<A>, a: A, b: A)
    ensures
        s.push(a).contains(b) <==> s.contains(b) || b == a,
{
    if s.contains(b) {
        let i = choose|i: int| 0 <= i < s.len() && s[i] == b;
        assert(s.push(a)[i] == b);
    }
    if b == a {
        assert(s.push(a)[s.len() as int] == b);
    }
    if s.push(a).contains(b) {
        let i = choose|i: int| 0 <= i < s.push(a).len() && s.push(a)[i] == b;
        if i < s.len() {
            assert(s[i] == b);
        }
    }
}

/// A filter keeps a sequence free of duplicates.
pub proof fn lemma_filter_distinct<A>(s: Seq<A>, p: spec_fn(A) -> bool)
    requires
        s.no_duplicates(),
    ensures
        s.filter(p).no_duplicates(),
    decreases s.len(),
{
    reveal(Seq::filter);
    if s.len() > 0 {
        let rest = s.drop_last();
        assert(rest.no_duplicates());
        lemma_filter_distinct(rest, p);
        lemma_filter_members(rest, p);
        assert(!rest.contains(s.last())) by {
            if rest.contains(s.last()) {
                let i = choose|i: int| 0 <= i < rest.len() && rest[i] == s.last();
                assert(s[i] == s[s.len() - 1]);
            }
        }
        assert(!rest.filter(p).contains(s.last()));
        let out = s.filter(p);
        assert forall|i: int, j: int|
            0 <= i < out.len() && 0 <= j < out.len() && i != j implies out[i] != out[j] by {
            if p(s.last()) {
                if i == out.len() - 1 {
                    assert(rest.filter(p)[j] == out[j]);
                } else if j == out.len() - 1 {
                    assert(rest.filter(p)[i] == out[i]);
                } else {
                    assert(rest.filter(p)[i] == out[i]);
                    assert(rest.filter(p)[j] == out[j]);
                }
            }
        }
    }
}

/// Without duplicates, filtering out the element at `k` removes exactly that
/// position.
pub proof fn lemma_filter_out_one<A>(s: Seq<A>, k: int)
    requires
        s.no_duplicates(),
        0 <= k < s.len(),
    ensures
        s.filter(|a: A| a != s[k]) == s.remove(k),
{
    let p = |a: A| a != s[k];
    let front = s.take(k);
    let back = s.skip(k + 1);
    assert(s =~= front + (seq![s[k]] + back));
    Seq::filter_distributes_over_add(front, seq![s[k]] + back, p);
    Seq::filter_distributes_over_add(seq![s[k]], back, p);
    assert forall|i: int| 0 <= i < front.len() implies p(#[trigger] front[i]) by {
        assert(front[i] == s[i]);
    }
    assert forall|i: int| 0 <= i < back.len() implies p(#[trigger] back[i]) by {
        assert(back[i] == s[i + k + 1]);
    }
    lemma_filter_all(front, p);
    lemma_filter_all(back, p);
    lemma_filter_none(seq![s[k]], p);
    assert(s.remove(k) =~= front + back);
    assert(Seq::<A>::empty() + back =~= back);
}

} // verus!
