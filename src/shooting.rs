//! Parity bookkeeping of the shooting method: the wavefunction is integrated
//! on the half-domain `x ≥ 0` from the symmetry point, and the full-domain
//! series is its mirror image joined to it.

use vstd::prelude::*;

verus! {

/// The parity of the solutions a shooting solve looks for.
#[derive(Clone, Copy, Debug, PartialEq, Eq, Structural)]
pub enum Parity {
    /// `ψ(−x) = ψ(x)`.
    Even,
    /// `ψ(−x) = −ψ(x)`.
    Odd,
}

/// One point of the full-domain series: the grid offset from the symmetry
/// point (the position is `offset · h`), the half-domain sample it takes its
/// value from, and whether that value is negated.
#[derive(Clone, Copy, Debug, PartialEq, Eq)]
pub struct MirrorPoint<T> {
    pub offset: i64,
    pub value: T,
    pub negated: bool,
}

/// The full-domain series built from the half-domain samples `half`, where
/// `half[j]` is the sample at offset `j`: offsets run from `-(n-1)` to
/// `n-1`; the point at offset `o` takes `half[|o|]`, negated for negative
/// offsets of odd parity.
pub open spec fn mirrored<T>(half: Seq<T>, parity: Parity) -> Seq<MirrorPoint<T>> {
    let n = half.len() as int;
    Seq::new(
        (2 * n - 1) as nat,
        |k: int|
            MirrorPoint {
                offset: (k - (n - 1)) as i64,
                value: if k < n - 1 {
                    half[(n - 1) - k]
                } else {
                    half[k - (n - 1)]
                },
                negated: k < n - 1 && parity == Parity::Odd,
            },
    )
}

/// Builds the full-domain series, in increasing position, from the samples
/// of the half-domain `x ≥ 0`.
pub fn mirror_points<T: Copy>(half: &[T], parity: Parity) -> (r: Vec<MirrorPoint<T>>)
    requires
        1 <= half@.len() <= i64::MAX,
    ensures
        r@ == mirrored(half@, parity),
{
    let n = half.len();
    let mut r: Vec<MirrorPoint<T>> = Vec::new();
    let mut k: usize = n - 1;
    while k > 0
        invariant
            n == half@.len(),
            1 <= n <= i64::MAX,
            k < n,
            r@.len() == n - 1 - k,
            forall|i: int| 0 <= i < r@.len() ==> r@[i] == mirrored(half@, parity)[i],
        decreases k,
    {
        r.push(MirrorPoint { offset: -(k as i64), value: half[k], negated: parity == Parity::Odd });
        k = k - 1;
    }
    let mut j: usize = 0;
    while j < n
        invariant
            n == half@.len(),
            1 <= n <= i64::MAX,
            j <= n,
            r@.len() == n - 1 + j,
            forall|i: int| 0 <= i < r@.len() ==> r@[i] == mirrored(half@, parity)[i],
        decreases n - j,
    {
        r.push(MirrorPoint { offset: j as i64, value: half[j], negated: false });
        j = j + 1;
    }
    assert(r@ =~= mirrored(half@, parity));
    r
}

/// Parity law of the mirrored series: the points at offsets `j` and `−j` carry
/// the same half-domain sample; the one at `−j` is negated exactly for odd
/// parity and the one at `j` never is. So an even solution satisfies
/// `ψ(−x) = ψ(x)` and an odd one `ψ(−x) = −ψ(x)` at every mirrored pair with
/// `x ≠ 0`. At `j = 0` both are the single point at `x = 0`, which is never
/// negated; for odd parity the relation holds there when the half-domain
/// sample at the symmetry point is zero, as the odd seed makes it.
pub proof fn lemma_mirror_parity<T>(half: Seq<T>, parity: Parity, j: int)
    requires
        1 <= half.len() <= i64::MAX,
        0 <= j < half.len(),
    ensures
        ({
            let s = mirrored(half, parity);
            let c = half.len() - 1;
            &&& s[c - j].offset == -j
            &&& s[c + j].offset == j
            &&& s[c - j].value == s[c + j].value
            &&& s[c + j].value == half[j]
            &&& !s[c + j].negated
            &&& s[c - j].negated == (j > 0 && parity == Parity::Odd)
        }),
{
}

} // verus!
