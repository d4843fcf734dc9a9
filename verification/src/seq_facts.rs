use vstd::prelude::*;

verus! {

use vstd::seq_lib::group_to_multiset_ensures;

/// Filtering a one-element sequence keeps or drops that element.
pub proof fn lemma_filter_singleton<A>(x: A, pred: spec_fn(A) -> bool)
    ensures
        pred(x) ==> seq![x].filter(pred) == seq![x],
        !pred(x) ==> seq![x].filter(pred) == Seq::<A>::empty(),
{
    reveal(Seq::filter);
    let s = seq![x];
    assert(s.drop_last() =~= Seq::<A>::empty());
    assert(Seq::<A>::empty().filter(pred) =~= Seq::<A>::empty());
    assert(s.last() == x);
}

/// Two filters by complementary predicates split a sequence's length.
pub proof fn lemma_filter_complement_len<A>(s: Seq<A>, p: spec_fn(A) -> bool, q: spec_fn(
    A,
) -> bool)
    requires
        forall|a: A| #[trigger] p(a) <==> !q(a),
    ensures
        s.filter(p).len() + s.filter(q).len() == s.len(),
    decreases s.len(),
{
    reveal(Seq::filter);
    if s.len() != 0 {
        lemma_filter_complement_len(s.drop_last(), p, q);
    }
}

/// How a point update moves the count of elements a filter keeps.
pub proof fn lemma_filter_update_len<A>(s: Seq<A>, i: int, x: A, pred: spec_fn(A) -> bool)
    requires
        0 <= i < s.len(),
    ensures
        s.update(i, x).filter(pred).len() as int == s.filter(pred).len() as int + (if pred(x) {
            1int
        } else {
            0int
        }) - (if pred(s[i]) {
            1int
        } else {
            0int
        }),
    decreases s.len(),
{
    reveal(Seq::filter);
    let t = s.update(i, x);
    assert(t.len() == s.len());
    if i == s.len() - 1 {
        assert(t.drop_last() =~= s.drop_last());
        assert(t.last() == x);
    } else {
        assert(t.drop_last() =~= s.drop_last().update(i, x));
        assert(t.last() == s.last());
        lemma_filter_update_len(s.drop_last(), i, x, pred);
    }
}

/// How removing one element moves the count of elements a filter keeps.
pub proof fn lemma_filter_remove_len<A>(s: Seq<A>, i: int, pred: spec_fn(A) -> bool)
    requires
        0 <= i < s.len(),
    ensures
        s.remove(i).filter(pred).len() as int == s.filter(pred).len() as int - (if pred(s[i]) {
            1int
        } else {
            0int
        }),
    decreases s.len(),
{
    reveal(Seq::filter);
    let t = s.remove(i);
    assert(t.len() == s.len() - 1);
    if i == s.len() - 1 {
        assert(t =~= s.drop_last());
    } else {
        assert(t.drop_last() =~= s.drop_last().remove(i));
        assert(t.last() == s.last());
        lemma_filter_remove_len(s.drop_last(), i, pred);
    }
}

/// A filter whose predicate holds everywhere returns the sequence unchanged.
pub proof fn lemma_filter_all<A>(s: Seq<A>, pred: spec_fn(A) -> bool)
    requires
        forall|j: int| 0 <= j < s.len() ==> pred(#[trigger] s[j]),
    ensures
        s.filter(pred) == s,
    decreases s.len(),
{
    reveal(Seq::filter);
    if s.len() != 0 {
        lemma_filter_all(s.drop_last(), pred);
        assert(s =~= s.drop_last().push(s.last()));
    }
}

/// A filter whose predicate holds nowhere returns the empty sequence.
pub proof fn lemma_filter_none<A>(s: Seq<A>, pred: spec_fn(A) -> bool)
    requires
        forall|j: int| 0 <= j < s.len() ==> !pred(#[trigger] s[j]),
    ensures
        s.filter(pred) == Seq::<A>::empty(),
    decreases s.len(),
{
    reveal(Seq::filter);
    if s.len() != 0 {
        lemma_filter_none(s.drop_last(), pred);
    }
}

/// Filters by complementary predicates carve a sequence into two parts that
/// together hold exactly its elements, multiplicity included.
pub proof fn lemma_filter_complement_multiset<A>(s: Seq<A>, p: spec_fn(A) -> bool, q: spec_fn(
    A,
) -> bool)
    requires
        forall|a: A| #[trigger] p(a) <==> !q(a),
    ensures
        s.filter(p).to_multiset().add(s.filter(q).to_multiset()) == s.to_multiset(),
    decreases s.len(),
{
    broadcast use group_to_multiset_ensures;

    reveal(Seq::filter);
    if s.len() == 0 {
        assert(s.filter(p).to_multiset().add(s.filter(q).to_multiset()) =~= s.to_multiset());
    } else {
        let d = s.drop_last();
        let x = s.last();
        lemma_filter_complement_multiset(d, p, q);
        assert(s =~= d.push(x));
        assert(s.to_multiset() == d.push(x).to_multiset());
        if p(x) {
            assert(s.filter(p) == d.filter(p).push(x));
            assert(s.filter(q) == d.filter(q));
            assert(d.filter(p).push(x).to_multiset() =~= d.filter(p).to_multiset().insert(x));
            assert(s.filter(p).to_multiset().add(s.filter(q).to_multiset()) =~= d.filter(
                p,
            ).to_multiset().add(d.filter(q).to_multiset()).insert(x));
        } else {
            assert(s.filter(q) == d.filter(q).push(x));
            assert(s.filter(p) == d.filter(p));
            assert(d.filter(q).push(x).to_multiset() =~= d.filter(q).to_multiset().insert(x));
            assert(s.filter(p).to_multiset().add(s.filter(q).to_multiset()) =~= d.filter(
                p,
            ).to_multiset().add(d.filter(q).to_multiset()).insert(x));
        }
    }
}

} // verus!
