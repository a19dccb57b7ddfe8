//! Facts about sequences that the proofs of this library share.

use vstd::prelude::*;

verus! {

/// Keeping the mapped elements of two sequences joined is joining what is kept
/// of each.
pub proof fn lemma_filter_map_add<A, B>(a: Seq<A>, b: Seq<A>, f: spec_fn(A) -> Option<B>)
    ensures
        (a + b).filter_map(f) == a.filter_map(f) + b.filter_map(f),
    decreases b.len(),
{
    if b.len() > 0 {
        lemma_filter_map_add(a, b.drop_last(), f);
        assert((a + b).drop_last() =~= a + b.drop_last());
    }
}

/// Among the mapped elements that are kept, as many pass a test as there are
/// elements whose mapped value passes it.
pub proof fn lemma_filter_map_filter<A, B>(
    xs: Seq<A>,
    f: spec_fn(A) -> Option<B>,
    kept: spec_fn(B) -> bool,
    hits: spec_fn(A) -> bool,
)
    requires
        forall|x: A| #[trigger] hits(x) == (f(x) matches Some(y) && kept(y)),
    ensures
        xs.filter_map(f).filter(kept).len() == xs.filter(hits).len(),
    decreases xs.len(),
{
    if xs.len() == 0 {
        xs.filter_map(f).lemma_filter_len(kept);
        xs.lemma_filter_len(hits);
    } else {
        let rest = xs.drop_last();
        lemma_filter_map_filter(rest, f, kept, hits);
        assert(rest.push(xs.last()) =~= xs);
        rest.lemma_filter_push(xs.last(), hits);
        match f(xs.last()) {
            Some(y) => {
                assert(rest.filter_map(f) + seq![y] =~= rest.filter_map(f).push(y));
                rest.filter_map(f).lemma_filter_push(y, kept);
            },
            None => {},
        }
    }
}

} // verus!
