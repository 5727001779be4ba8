//! The random choice of the variational search: which grid point to perturb.

use vstd::prelude::*;

verus! {

/// Relies on rand 0.7's `Rng::gen_range` on the thread-local generator: for
/// `low < high` it returns a value in `[low, high)` (it panics otherwise).
#[verifier::external_body]
fn random_below(high: usize) -> (r: usize)
    requires
        0 < high,
    ensures
        r < high,
{
    rand::Rng::gen_range(&mut rand::thread_rng(), 0, high)
}

/// Picks, uniformly at random, the grid point that the next step of the
/// variational search perturbs.
pub fn pick_grid_index(steps: usize) -> (r: usize)
    requires
        0 < steps,
    ensures
        r < steps,
{
    random_below(steps)
}

} // verus!
