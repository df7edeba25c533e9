//! A numerical-optimization engine: given a scalar objective function over
//! a parameter vector, it searches for a minimizing point, optionally under
//! per-parameter box constraints, and reports convergence diagnostics.
//!
//! The engine's arithmetic is signed 64-bit fixed-point with 32 fractional
//! bits (see [`fixed`]), so every numeric step of the search is ordinary
//! integer arithmetic with saturation. Callers that work in another numeric
//! format convert at the boundary.

pub mod bound;
pub mod fixed;
pub mod gradient;
pub mod minimizer;
pub mod nelder_mead;
pub mod point;
pub mod solver;
pub mod summary;
pub mod traits;
pub mod vecs;

pub use crate::bound::{Bound, Bounds};
pub use crate::minimizer::Minimizer;
pub use crate::nelder_mead::NelderMead;
pub use crate::point::Point;
pub use crate::summary::Summary;
pub use crate::traits::{
    AbortSignal, CostFunction, FlagAbortSignal, GradientFunction, MinimizeError,
    NopAbortSignal, NopHook, StepHook,
};
