//! Facts about `Seq::filter` that the store's proofs share.

use vstd::prelude::*;

verus! {

/// One step of taking the elements that fail a test out of a sequence: the
/// filtered prefix grows by the next element exactly where it passes.
pub proof fn lemma_filter_step<A>(s: Seq<A>, pred: spec_fn(A) -> bool, k: int)
    requires
        0 <= k < s.len(),
    ensures
        s.take(k + 1).filter(pred) == if pred(s[k]) {
            s.take(k).filter(pred).push(s[k])
        } else {
            s.take(k).filter(pred)
        },
{
    reveal(Seq::filter);
    assert(s.take(k + 1).drop_last() =~= s.take(k));
}

/// Every element of a filtered sequence is an element of the sequence.
pub proof fn lemma_filter_element<A>(s: Seq<A>, pred: spec_fn(A) -> bool, i: int)
    requires
        0 <= i < s.filter(pred).len(),
    ensures
        exists|a: int| 0 <= a < s.len() && s[a] == s.filter(pred)[i] && pred(s[a]),
    decreases s.len(),
{
    reveal(Seq::filter);
    if s.len() > 0 {
        let rest = s.drop_last();
        if i < rest.filter(pred).len() {
            lemma_filter_element(rest, pred, i);
            let a = choose|a: int| 0 <= a < rest.len() && rest[a] == rest.filter(pred)[i] && pred(rest[a]);
            assert(s[a] == rest[a]);
        } else {
            assert(s[s.len() - 1] == s.filter(pred)[i]);
        }
    }
}

/// Two elements of a filtered sequence stand in the sequence in the same
/// order.
pub proof fn lemma_filter_order<A>(s: Seq<A>, pred: spec_fn(A) -> bool, i: int, j: int)
    requires
        0 <= i < j < s.filter(pred).len(),
    ensures
        exists|a: int, b: int|
            0 <= a < b < s.len() && s[a] == s.filter(pred)[i] && s[b] == s.filter(pred)[j],
    decreases s.len(),
{
    reveal(Seq::filter);
    if s.len() > 0 {
        let rest = s.drop_last();
        if j < rest.filter(pred).len() {
            lemma_filter_order(rest, pred, i, j);
            let (a, b) = choose|a: int, b: int|
                0 <= a < b < rest.len() && rest[a] == rest.filter(pred)[i] && rest[b]
                    == rest.filter(pred)[j];
            assert(s[a] == rest[a] && s[b] == rest[b]);
        } else {
            lemma_filter_element(rest, pred, i);
            let a = choose|a: int| 0 <= a < rest.len() && rest[a] == rest.filter(pred)[i] && pred(rest[a]);
            let b = s.len() - 1;
            assert(s[a] == rest[a]);
            assert(s[b] == s.filter(pred)[j]);
        }
    }
}

/// Every element of the sequence that passes the test is in the filtered
/// sequence.
pub proof fn lemma_filter_keeps<A>(s: Seq<A>, pred: spec_fn(A) -> bool, a: int)
    requires
        0 <= a < s.len(),
        pred(s[a]),
    ensures
        exists|i: int| 0 <= i < s.filter(pred).len() && s.filter(pred)[i] == s[a],
    decreases s.len(),
{
    reveal(Seq::filter);
    let rest = s.drop_last();
    if a < s.len() - 1 {
        lemma_filter_keeps(rest, pred, a);
        let i = choose|i: int| 0 <= i < rest.filter(pred).len() && rest.filter(pred)[i] == rest[a];
        assert(s.filter(pred)[i] == s[a]);
    } else {
        let i = rest.filter(pred).len() as int;
        assert(s.filter(pred)[i] == s[a]);
    }
}

/// A sequence whose elements all pass the test is its own filtered sequence.
pub proof fn lemma_filter_all<A>(s: Seq<A>, pred: spec_fn(A) -> bool)
    requires
        forall|i: int| 0 <= i < s.len() ==> pred(#[trigger] s[i]),
    ensures
        s.filter(pred) == s,
    decreases s.len(),
{
    reveal(Seq::filter);
    if s.len() > 0 {
        let rest = s.drop_last();
        assert forall|i: int| 0 <= i < rest.len() implies pred(#[trigger] rest[i]) by {
            assert(rest[i] == s[i]);
        }
        lemma_filter_all(rest, pred);
        assert(rest.push(s.last()) =~= s);
    }
}

/// Two tests that agree on every element of a sequence filter it alike.
pub proof fn lemma_filter_agree<A>(s: Seq<A>, p: spec_fn(A) -> bool, q: spec_fn(A) -> bool)
    requires
        forall|i: int| 0 <= i < s.len() ==> p(#[trigger] s[i]) == q(s[i]),
    ensures
        s.filter(p) == s.filter(q),
    decreases s.len(),
{
    reveal(Seq::filter);
    if s.len() > 0 {
        let rest = s.drop_last();
        assert forall|i: int| 0 <= i < rest.len() implies p(#[trigger] rest[i]) == q(rest[i]) by {
            assert(rest[i] == s[i]);
        }
        lemma_filter_agree(rest, p, q);
        assert(s.last() == s[s.len() - 1]);
    }
}

} // verus!
