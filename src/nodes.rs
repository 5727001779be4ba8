//! Counting the nodes of a sampled wavefunction.

use vstd::prelude::*;

verus! {

/// Number of adjacent pairs of `negative` that differ: the sign changes of a
/// series whose samples have a negative sign exactly where the flag is set.
pub open spec fn sign_changes(negative: Seq<bool>) -> nat
    decreases negative.len(),
{
    if negative.len() < 2 {
        0
    } else {
        let n = negative.len() as int;
        sign_changes(negative.take(n - 1)) + if negative[n - 2] != negative[n - 1] {
            1nat
        } else {
            0nat
        }
    }
}

/// Counts the nodes of a series given the sign of each sample (`true` where it
/// is negative): the places where adjacent samples change sign.
pub fn count_nodes(negative: &[bool]) -> (r: usize)
    ensures
        r == sign_changes(negative@),
{
    let n = negative.len();
    if n < 2 {
        return 0;
    }
    let mut count: usize = 0;
    let mut i: usize = 1;
    while i < n
        invariant
            n == negative@.len(),
            1 <= i <= n,
            count == sign_changes(negative@.take(i as int)),
            count < i,
        decreases n - i,
    {
        assert(negative@.take(i as int + 1).take(i as int) == negative@.take(i as int));
        if negative[i - 1] != negative[i] {
            count = count + 1;
        }
        i = i + 1;
    }
    assert(negative@.take(n as int) == negative@);
    count
}

} // verus!
