//! Choice of the three-point stencil for a second derivative on a grid.

use vstd::prelude::*;

verus! {

/// Which three-point stencil approximates the second derivative at a point.
#[derive(Clone, Copy, Debug, PartialEq, Eq, Structural)]
pub enum SecondDerivateMethod {
    /// Uses the point and the two after it.
    ForwardDifference,
    /// Uses the point and its two neighbours.
    CentralDifference,
    /// Uses the point and the two before it.
    BackwardDifference,
}

/// The stencil used at grid position `i` of a grid with `steps` points:
/// forward at the first point, backward at the last one, central elsewhere.
pub open spec fn method_for(i: nat, steps: nat) -> SecondDerivateMethod {
    if i == 0 {
        SecondDerivateMethod::ForwardDifference
    } else if i + 1 == steps {
        SecondDerivateMethod::BackwardDifference
    } else {
        SecondDerivateMethod::CentralDifference
    }
}

/// The three sample indices `(a, b, c)` of a stencil centred on `i`, such that
/// the second derivative is `(f[a] - 2 f[b] + f[c]) / h²`.
pub open spec fn stencil_of(method: SecondDerivateMethod, i: int) -> (int, int, int) {
    match method {
        SecondDerivateMethod::ForwardDifference => (i, i + 1, i + 2),
        SecondDerivateMethod::CentralDifference => (i - 1, i, i + 1),
        SecondDerivateMethod::BackwardDifference => (i - 2, i - 1, i),
    }
}

/// Whether the stencil of `method` at `i` stays inside a sequence of `len` samples.
pub open spec fn stencil_fits(method: SecondDerivateMethod, i: int, len: int) -> bool {
    let (a, b, c) = stencil_of(method, i);
    0 <= a && c < len
}

/// Picks the stencil for grid position `i` of a grid with `steps` points.
pub fn method_at(i: usize, steps: usize) -> (r: SecondDerivateMethod)
    requires
        i < steps,
    ensures
        r == method_for(i as nat, steps as nat),
{
    if i == 0 {
        SecondDerivateMethod::ForwardDifference
    } else if i == steps - 1 {
        SecondDerivateMethod::BackwardDifference
    } else {
        SecondDerivateMethod::CentralDifference
    }
}

/// The sample indices of the stencil of `method` at `i`, for `len` samples.
pub fn stencil(method: SecondDerivateMethod, i: usize, len: usize) -> (r: (usize, usize, usize))
    requires
        stencil_fits(method, i as int, len as int),
    ensures
        (r.0 as int, r.1 as int, r.2 as int) == stencil_of(method, i as int),
        r.2 < len,
{
    match method {
        SecondDerivateMethod::ForwardDifference => (i, i + 1, i + 2),
        SecondDerivateMethod::CentralDifference => (i - 1, i, i + 1),
        SecondDerivateMethod::BackwardDifference => (i - 2, i - 1, i),
    }
}

/// The stencil indices used at each grid position of a grid with `steps`
/// points: forward at the first point, backward at the last, central elsewhere.
pub fn stencil_at(i: usize, steps: usize) -> (r: (usize, usize, usize))
    requires
        3 <= steps,
        i < steps,
    ensures
        (r.0 as int, r.1 as int, r.2 as int) == stencil_of(method_for(i as nat, steps as nat), i as int),
        r.2 < steps,
{
    let method = method_at(i, steps);
    stencil(method, i, steps)
}

} // verus!
