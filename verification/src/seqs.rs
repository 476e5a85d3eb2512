//! Facts about filtered sequences that the other modules share.

use vstd::prelude::*;

verus! {

/// A filter that every element passes changes nothing.
pub proof fn lemma_filter_keeps_all<A>(s: Seq<A>, pred: spec_fn(A) -> bool)
    requires
        forall|i: int| 0 <= i < s.len() ==> pred(#[trigger] s[i]),
    ensures
        s.filter(pred) == s,
    decreases s.len(),
{
    reveal(Seq::filter);
    if s.len() > 0 {
        let front = s.drop_last();
        assert forall|i: int| 0 <= i < front.len() implies pred(#[trigger] front[i]) by {
            assert(front[i] == s[i]);
        }
        lemma_filter_keeps_all(front, pred);
        assert(pred(s[s.len() - 1]));
        assert(front.push(s.last()) =~= s);
    }
}

/// A filter that every element passes but the one at `at` removes that
/// element and no other.
pub proof fn lemma_filter_drops_one<A>(s: Seq<A>, pred: spec_fn(A) -> bool, at: int)
    requires
        0 <= at < s.len(),
        !pred(s[at]),
        forall|i: int| 0 <= i < s.len() && i != at ==> pred(#[trigger] s[i]),
    ensures
        s.filter(pred) == s.remove(at),
    decreases s.len(),
{
    reveal(Seq::filter);
    let front = s.drop_last();
    if at == s.len() - 1 {
        assert forall|i: int| 0 <= i < front.len() implies pred(#[trigger] front[i]) by {
            assert(front[i] == s[i]);
        }
        lemma_filter_keeps_all(front, pred);
        assert(s.remove(at) =~= front);
    } else {
        assert forall|i: int| 0 <= i < front.len() && i != at implies pred(
            #[trigger] front[i],
        ) by {
            assert(front[i] == s[i]);
        }
        assert(front[at] == s[at]);
        lemma_filter_drops_one(front, pred, at);
        assert(pred(s[s.len() - 1]));
        assert(front.remove(at).push(s.last()) =~= s.remove(at));
    }
}

/// Filtering by `inner` after filtering by `outer` is filtering by `inner`
/// alone, where everything that passes `inner` passes `outer`.
pub proof fn lemma_filter_within<A>(s: Seq<A>, outer: spec_fn(A) -> bool, inner: spec_fn(A) -> bool)
    requires
        forall|a: A| #[trigger] inner(a) ==> outer(a),
    ensures
        s.filter(outer).filter(inner) == s.filter(inner),
    decreases s.len(),
{
    reveal(Seq::filter);
    if s.len() > 0 {
        let front = s.drop_last();
        lemma_filter_within(front, outer, inner);
        if outer(s.last()) {
            let kept = front.filter(outer);
            assert(kept.push(s.last()).drop_last() =~= kept);
        } else {
            assert(!inner(s.last()));
        }
    }
}

} // verus!
