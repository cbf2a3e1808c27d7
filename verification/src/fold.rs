//! Folding a step that may fail over a sequence, stopping at the first error.
use vstd::prelude::*;

verus! {

/// `s0` after `f` has been applied to each element of `xs` in order, or the
/// first error `f` returned.
pub open spec fn fold_res<S, T, E>(s0: S, xs: Seq<T>, f: spec_fn(S, T) -> Result<S, E>) -> Result<S, E>
    decreases xs.len(),
{
    if xs.len() == 0 {
        Ok(s0)
    } else {
        match fold_res(s0, xs.drop_last(), f) {
            Ok(s) => f(s, xs.last()),
            Err(e) => Err(e),
        }
    }
}

/// One more element of a prefix is one more step.
pub proof fn lemma_fold_take<S, T, E>(s0: S, xs: Seq<T>, k: int, f: spec_fn(S, T) -> Result<S, E>)
    requires
        0 <= k < xs.len(),
    ensures
        fold_res(s0, xs.take(k + 1), f) == (match fold_res(s0, xs.take(k), f) {
            Ok(s) => f(s, xs[k]),
            Err(e) => Err(e),
        }),
{
    assert(xs.take(k + 1).drop_last() =~= xs.take(k));
}

/// An error on a prefix is the error of the whole sequence.
pub proof fn lemma_fold_err<S, T, E>(s0: S, xs: Seq<T>, k: int, f: spec_fn(S, T) -> Result<S, E>)
    requires
        0 <= k <= xs.len(),
        fold_res(s0, xs.take(k), f) is Err,
    ensures
        fold_res(s0, xs, f) == fold_res(s0, xs.take(k), f),
    decreases xs.len() - k,
{
    if k < xs.len() {
        lemma_fold_take(s0, xs, k, f);
        lemma_fold_err(s0, xs, k + 1, f);
    } else {
        assert(xs.take(k) =~= xs);
    }
}

/// The whole sequence is its longest prefix.
pub proof fn lemma_fold_all<S, T, E>(s0: S, xs: Seq<T>, f: spec_fn(S, T) -> Result<S, E>)
    ensures
        fold_res(s0, xs.take(xs.len() as int), f) == fold_res(s0, xs, f),
{
    assert(xs.take(xs.len() as int) =~= xs);
}

} // verus!
