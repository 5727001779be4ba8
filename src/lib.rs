//! Integer and structural core of a one-dimensional Schrödinger eigenvalue
//! solver: grid bookkeeping, the sign-change bisection controller shared by
//! the shooting and matching methods, parity mirroring, segment joining,
//! finite-difference stencil selection and node counting.

pub mod bisection;
pub mod finite_difference;
pub mod matching;
pub mod nodes;
pub mod shooting;
pub mod variational;

pub use bisection::{Bisection, Move, Outcome, Sign};
pub use finite_difference::{method_at, stencil, stencil_at, SecondDerivateMethod};
pub use matching::{GridError, MatchGrid, Side, MIN_STEPS};
pub use nodes::count_nodes;
pub use shooting::{mirror_points, MirrorPoint, Parity};
pub use variational::pick_grid_index;
