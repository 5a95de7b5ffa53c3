use vstd::prelude::*;

use crate::error::SchemaError;

verus! {

/// Resolves a list node by node, in order: the list of results, or the error
/// of the first node that fails.
pub open spec fn resolve_each<T, K>(ts: Seq<T>, f: spec_fn(T) -> Result<K, SchemaError>) -> Result<
    Seq<K>,
    SchemaError,
>
    decreases ts.len(),
{
    if ts.len() == 0 {
        Ok(Seq::empty())
    } else {
        match resolve_each(ts.drop_last(), f) {
            Err(e) => Err(e),
            Ok(prefix) => match f(ts.last()) {
                Err(e) => Err(e),
                Ok(t) => Ok(prefix.push(t)),
            },
        }
    }
}

/// Once a prefix of the list fails, the whole list fails with the same error.
pub proof fn lemma_resolve_each_prefix_err<T, K>(
    ts: Seq<T>,
    f: spec_fn(T) -> Result<K, SchemaError>,
    k: int,
)
    requires
        0 <= k <= ts.len(),
        resolve_each(ts.subrange(0, k), f) is Err,
    ensures
        resolve_each(ts, f) == resolve_each(ts.subrange(0, k), f),
    decreases ts.len(),
{
    if k == ts.len() {
        assert(ts.subrange(0, k) =~= ts);
    } else {
        assert(ts.drop_last().subrange(0, k) =~= ts.subrange(0, k));
        lemma_resolve_each_prefix_err(ts.drop_last(), f, k);
    }
}

/// Resolving one more node extends the resolved prefix.
pub proof fn lemma_resolve_each_step<T, K>(
    ts: Seq<T>,
    f: spec_fn(T) -> Result<K, SchemaError>,
    i: int,
)
    requires
        0 <= i < ts.len(),
    ensures
        resolve_each(ts.subrange(0, i + 1), f) == match resolve_each(ts.subrange(0, i), f) {
            Err(e) => Err(e),
            Ok(prefix) => match f(ts[i]) {
                Err(e) => Err(e),
                Ok(t) => Ok(prefix.push(t)),
            },
        },
{
    assert(ts.subrange(0, i + 1).drop_last() =~= ts.subrange(0, i));
}

} // verus!
