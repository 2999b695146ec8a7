//! Random selection of a training target.

use vstd::prelude::*;
use crate::db::Stratagem;

verus! {

/// Relies on rand::random_range: a uniform draw from `0..n` lies below `n`;
/// it panics only on an empty range, which the precondition rules out.
#[verifier::external_body]
fn random_index(n: usize) -> (r: usize)
    requires
        1 <= n,
    ensures
        r < n,
{
    rand::random_range(0..n)
}

/// Draws one stratagem from a non-empty set of candidates.
pub fn random_from(candidates: &Vec<Stratagem>) -> (r: Stratagem)
    requires
        candidates@.len() >= 1,
    ensures
        exists|j: int| 0 <= j < candidates@.len() && r == candidates@[j],
{
    let i = random_index(candidates.len());
    candidates[i]
}

/// Draws one stratagem from the full catalog.
pub fn random_stratagem() -> (r: Stratagem)
    ensures
        exists|j: int| 0 <= j < Stratagem::all_spec().len() && r == Stratagem::all_spec()[j],
{
    let all = Stratagem::all();
    random_from(&all)
}

} // verus!
