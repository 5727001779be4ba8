//! Grid bookkeeping of the matching method: the domain's grid points are
//! split at an interior match index; one segment is integrated from the left
//! edge up to it and one from the right edge down to it, and both are later
//! joined into a single series in increasing position.

use vstd::prelude::*;

verus! {

/// Fewest grid points a solver works on.
pub const MIN_STEPS: usize = 4;

/// A grid that cannot carry a matching solve.
#[derive(Clone, Copy, Debug, PartialEq, Eq, Structural)]
pub enum GridError {
    /// Fewer than `MIN_STEPS` grid points.
    TooFewSteps,
    /// The match index leaves fewer than three samples on one side.
    MatchOutOfRange,
}

/// Which edge a segment is integrated from.
#[derive(Clone, Copy, Debug, PartialEq, Eq, Structural)]
pub enum Side {
    Left,
    Right,
}

/// The grid of a matching solve: `steps` points, split at `match_idx`.
#[derive(Clone, Copy, Debug, PartialEq, Eq, Structural)]
pub struct MatchGrid {
    pub steps: usize,
    pub match_idx: usize,
}

/// Whether `match_idx` leaves at least three samples to each segment, as the
/// slope estimates at the match point need.
pub open spec fn match_fits(steps: int, match_idx: int) -> bool {
    2 <= match_idx && match_idx + 3 <= steps
}

/// The grid index of sample `i` of the segment grown from `side`.
pub open spec fn grid_index_of(steps: int, side: Side, i: int) -> int {
    match side {
        Side::Left => i,
        Side::Right => steps - 1 - i,
    }
}

/// The joined series: the left segment in increasing position, then the right
/// segment reversed, without its sample at the match point (the left segment
/// already ends there).
pub open spec fn joined<T>(left: Seq<T>, right: Seq<T>) -> Seq<T> {
    left + right.take(right.len() - 1).reverse()
}

impl MatchGrid {
    pub open spec fn wf(self) -> bool {
        &&& MIN_STEPS <= self.steps
        &&& match_fits(self.steps as int, self.match_idx as int)
    }

    /// Samples in the left segment: grid points `0..=match_idx`.
    pub open spec fn left_len_spec(self) -> int {
        self.match_idx + 1
    }

    /// Samples in the right segment: grid points `match_idx..steps`.
    pub open spec fn right_len_spec(self) -> int {
        self.steps - self.match_idx
    }

    /// Checks a grid of `steps` points split at `match_idx`.
    pub fn new(steps: usize, match_idx: usize) -> (r: Result<MatchGrid, GridError>)
        ensures
            steps < MIN_STEPS ==> r == Err::<MatchGrid, GridError>(GridError::TooFewSteps),
            MIN_STEPS <= steps && !match_fits(steps as int, match_idx as int) ==> r == Err::<
                MatchGrid,
                GridError,
            >(GridError::MatchOutOfRange),
            MIN_STEPS <= steps && match_fits(steps as int, match_idx as int) ==> r == Ok::<
                MatchGrid,
                GridError,
            >(MatchGrid { steps, match_idx }),
            r matches Ok(g) ==> g.wf(),
    {
        if steps < MIN_STEPS {
            Err(GridError::TooFewSteps)
        } else if match_idx < 2 || match_idx > steps - 3 {
            Err(GridError::MatchOutOfRange)
        } else {
            Ok(MatchGrid { steps, match_idx })
        }
    }

    /// Samples in the left segment once it reaches the match point.
    pub fn left_len(&self) -> (r: usize)
        requires
            self.wf(),
        ensures
            r == self.left_len_spec(),
    {
        self.match_idx + 1
    }

    /// Samples in the right segment once it reaches the match point.
    pub fn right_len(&self) -> (r: usize)
        requires
            self.wf(),
        ensures
            r == self.right_len_spec(),
    {
        self.steps - self.match_idx
    }

    /// Steps taken from `side` after its two seed samples to reach the match point.
    pub fn steps_from(&self, side: Side) -> (r: usize)
        requires
            self.wf(),
        ensures
            side == Side::Left ==> r + 2 == self.left_len_spec(),
            side == Side::Right ==> r + 2 == self.right_len_spec(),
    {
        match side {
            Side::Left => self.match_idx - 1,
            Side::Right => self.steps - self.match_idx - 2,
        }
    }

    /// The grid index of sample `i` of the segment grown from `side`; the
    /// position is `x_min + index · h` on the grid.
    pub fn grid_index(&self, side: Side, i: usize) -> (r: usize)
        requires
            i < self.steps,
        ensures
            r == grid_index_of(self.steps as int, side, i as int),
    {
        match side {
            Side::Left => i,
            Side::Right => self.steps - 1 - i,
        }
    }

    /// Joins the two segments into one series over the whole grid, in
    /// increasing position: sample `k` of the result is the sample at grid
    /// index `k`.
    pub fn join_segments<T: Copy>(&self, left: &[T], right: &[T]) -> (r: Vec<T>)
        requires
            self.wf(),
            left@.len() == self.left_len_spec(),
            right@.len() == self.right_len_spec(),
        ensures
            r@ == joined(left@, right@),
            r@.len() == self.steps,
            forall|k: int| 0 <= k <= self.match_idx ==> r@[k] == left@[k],
            forall|k: int|
                #![trigger r@[k]]
                self.match_idx < k < self.steps ==> r@[k] == right@[grid_index_of(
                    self.steps as int,
                    Side::Right,
                    k,
                )],
    {
        let mut r: Vec<T> = Vec::new();
        let mut i: usize = 0;
        while i < left.len()
            invariant
                i <= left@.len(),
                r@ == left@.take(i as int),
            decreases left@.len() - i,
        {
            r.push(left[i]);
            i = i + 1;
            assert(r@ == left@.take(i as int));
        }
        assert(left@.take(left@.len() as int) == left@);
        let n = right.len() - 1;
        let ghost tail = right@.take(n as int).reverse();
        let mut j: usize = 0;
        while j < n
            invariant
                n + 1 == right@.len(),
                j <= n,
                tail == right@.take(n as int).reverse(),
                r@ == left@ + tail.take(j as int),
            decreases n - j,
        {
            r.push(right[n - 1 - j]);
            j = j + 1;
            assert(r@ == left@ + tail.take(j as int));
        }
        assert(tail.take(n as int) == tail);
        r
    }
}

/// Continuity at the match point: the joined series holds one sample at the
/// match index, the left segment's last one, and the right segment's own sample
/// there (the one that rescaling sets equal to it) is not repeated; every other
/// right sample keeps its grid position.
pub proof fn lemma_join_at_match<T>(g: MatchGrid, left: Seq<T>, right: Seq<T>)
    requires
        g.wf(),
        left.len() == g.left_len_spec(),
        right.len() == g.right_len_spec(),
    ensures
        joined(left, right).len() == g.steps,
        joined(left, right)[g.match_idx as int] == left.last(),
        grid_index_of(g.steps as int, Side::Right, right.len() - 1) == g.match_idx,
        forall|k: int|
            #![trigger joined(left, right)[k]]
            g.match_idx < k < g.steps ==> joined(left, right)[k] == right[grid_index_of(
                g.steps as int,
                Side::Right,
                k,
            )],
{
}

} // verus!
