//! The two failure kinds of an overlap computation.
//!
//! Shape failures are found eagerly, while the raw input is adapted, before
//! any numeric work. Distribution failures are found lazily, at the first
//! density evaluation that needs a covariance matrix no Gaussian can have;
//! the caller performs that evaluation and reports the pair it was working
//! on. Either kind aborts the whole computation: no failing pair is given a
//! made-up score.

use vstd::prelude::*;

verus! {

/// Malformed input shape, found before any numeric work. `expected` is
/// always the mixture's dimensionality, the length of the first mean row.
#[derive(Clone, Copy, Debug, PartialEq, Eq, Structural)]
pub enum ShapeError {
    /// The mean list and the weight list disagree on the component count.
    MeanCount { weights: usize, means: usize },
    /// The covariance list and the weight list disagree on the count.
    CovCount { weights: usize, covs: usize },
    /// Mean row `row` has length `got` instead of `expected`.
    MeanRow { row: usize, expected: usize, got: usize },
    /// Covariance slice `index` has `got` rows instead of `expected`.
    CovSlice { index: usize, expected: usize, got: usize },
    /// Row `row` of covariance slice `index` has length `got`.
    CovRow { index: usize, row: usize, expected: usize, got: usize },
}

/// A covariance matrix of the pair `(i, j)` admits no Gaussian density:
/// it is not symmetric positive-definite, or is numerically singular.
#[derive(Clone, Copy, Debug, PartialEq, Eq, Structural)]
pub struct DistributionError {
    pub i: usize,
    pub j: usize,
}

/// Either failure kind, as one overlap computation surfaces it.
#[derive(Clone, Copy, Debug, PartialEq, Eq, Structural)]
pub enum OlrError {
    Shape(ShapeError),
    Distribution(DistributionError),
}

} // verus!
