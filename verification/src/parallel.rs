//! The one place where work is handed to rayon's thread pool.
use rayon::iter::{IntoParallelIterator, ParallelIterator};
use vstd::prelude::*;

verus! {

/// Calls rayon's `into_par_iter` on the range `0..n`, `map` with `f` and
/// `collect` into a `Vec`. The contract claims of them that `f` is called on
/// each index of the range and on nothing else, and that the results come
/// back in the order of the indices, whichever thread computed which.
#[verifier::external_body]
pub(crate) fn par_tabulate<U: Send, F: Fn(usize) -> U + Sync + Send>(n: usize, f: F) -> (r: Vec<U>)
    requires
        forall|i: usize| i < n ==> call_requires(f, (i,)),
    ensures
        r@.len() == n,
        forall|i: int| 0 <= i < n ==> call_ensures(f, (i as usize,), #[trigger] r@[i]),
{
    (0..n).into_par_iter().map(f).collect()
}

} // verus!
