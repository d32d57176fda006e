//! Adaptation of raw nested input into a validated mixture.
//!
//! A mixture is handed in as a weight list, a list of mean rows, and a list
//! of covariance matrices, each matrix a list of rows; every number is an
//! IEEE-754 double bit pattern. The adapter checks nothing numeric: it
//! checks that the three lists describe the same N components of one shared
//! dimensionality D, the length of the first mean row. The first shape
//! violation, in checking order, is the one reported.

use vstd::prelude::*;
use crate::error::ShapeError;

verus! {

/// The shared dimensionality of a mean list: the length of its first row,
/// or zero when there is no row.
pub open spec fn dim_of(means: Seq<Vec<u64>>) -> nat {
    if means.len() > 0 {
        means[0]@.len()
    } else {
        0
    }
}

/// The three lists describe N components of one dimensionality D: equal
/// counts, every mean row of length D, every covariance slice D rows of
/// length D each.
pub open spec fn shape_ok(
    weights: Seq<u64>,
    means: Seq<Vec<u64>>,
    covs: Seq<Vec<Vec<u64>>>,
) -> bool {
    let d = dim_of(means);
    &&& means.len() == weights.len()
    &&& covs.len() == weights.len()
    &&& forall|i: int| 0 <= i < means.len() ==> (#[trigger] means[i])@.len() == d
    &&& forall|i: int| 0 <= i < covs.len() ==> (#[trigger] covs[i])@.len() == d
    &&& forall|i: int, r: int|
        0 <= i < covs.len() && 0 <= r < covs[i]@.len() ==> (#[trigger] covs[i]@[r])@.len() == d
}

/// A shape-validated mixture: N components of dimensionality D, every
/// number an IEEE-754 double bit pattern.
#[derive(Debug)]
pub struct Mixture {
    pub weights: Vec<u64>,
    pub means: Vec<Vec<u64>>,
    pub covs: Vec<Vec<Vec<u64>>>,
}

impl Mixture {
    /// The shape invariant every constructed mixture carries.
    pub open spec fn wf(self) -> bool {
        shape_ok(self.weights@, self.means@, self.covs@)
    }

    /// The component count N.
    pub open spec fn n(self) -> nat {
        self.weights@.len()
    }

    /// The dimensionality D.
    pub open spec fn dim(self) -> nat {
        dim_of(self.means@)
    }

    /// Validates the shape of raw nested input and takes it over unchanged.
    /// The result is `Ok` exactly when the three lists agree as `shape_ok`
    /// asks, and the error names the first violation in checking order:
    /// counts first, then mean rows in order, then each covariance slice in
    /// order, its row count before its row lengths.
    pub fn new(weights: Vec<u64>, means: Vec<Vec<u64>>, covs: Vec<Vec<Vec<u64>>>) -> (r: Result<
        Mixture,
        ShapeError,
    >)
        ensures
            r is Ok <==> shape_ok(weights@, means@, covs@),
            r matches Ok(m) ==> m == (Mixture { weights, means, covs }),
            r matches Err(e) ==> shape_error_exact(weights@, means@, covs@, e),
    {
        let d = dim_of_rows(&means);
        if means.len() != weights.len() {
            return Err(ShapeError::MeanCount { weights: weights.len(), means: means.len() });
        }
        if covs.len() != weights.len() {
            return Err(ShapeError::CovCount { weights: weights.len(), covs: covs.len() });
        }
        let mut i: usize = 0;
        while i < means.len()
            invariant
                i <= means@.len(),
                d == dim_of(means@),
                means@.len() == weights@.len(),
                covs@.len() == weights@.len(),
                forall|r: int| 0 <= r < i ==> (#[trigger] means@[r])@.len() == d,
            decreases means@.len() - i,
        {
            if means[i].len() != d {
                return Err(ShapeError::MeanRow { row: i, expected: d, got: means[i].len() });
            }
            i = i + 1;
        }
        let mut i: usize = 0;
        while i < covs.len()
            invariant
                i <= covs@.len(),
                d == dim_of(means@),
                means@.len() == weights@.len(),
                covs@.len() == weights@.len(),
                forall|r: int| 0 <= r < means@.len() ==> (#[trigger] means@[r])@.len() == d,
                forall|k: int| 0 <= k < i ==> (#[trigger] covs@[k])@.len() == dim_of(means@),
                forall|k: int, r: int|
                    0 <= k < i && 0 <= r < covs@[k]@.len() ==> (#[trigger] covs@[k]@[r])@.len()
                        == dim_of(means@),
            decreases covs@.len() - i,
        {
            if covs[i].len() != d {
                return Err(ShapeError::CovSlice { index: i, expected: d, got: covs[i].len() });
            }
            let mut r: usize = 0;
            while r < covs[i].len()
                invariant
                    i < covs@.len(),
                    r <= covs@[i as int]@.len(),
                    d == dim_of(means@),
                    means@.len() == weights@.len(),
                    covs@.len() == weights@.len(),
                    forall|r2: int| 0 <= r2 < means@.len() ==> (#[trigger] means@[r2])@.len() == d,
                    covs@[i as int]@.len() == d,
                    forall|k: int| 0 <= k < i ==> (#[trigger] covs@[k])@.len() == dim_of(means@),
                    forall|k: int, r2: int|
                        0 <= k < i && 0 <= r2 < covs@[k]@.len() ==> (
                        #[trigger] covs@[k]@[r2])@.len() == dim_of(means@),
                    forall|r2: int|
                        0 <= r2 < r ==> (#[trigger] covs@[i as int]@[r2])@.len() == d,
                decreases covs@[i as int]@.len() - r,
            {
                if covs[i][r].len() != d {
                    return Err(
                        ShapeError::CovRow {
                            index: i,
                            row: r,
                            expected: d,
                            got: covs[i][r].len(),
                        },
                    );
                }
                r = r + 1;
            }
            i = i + 1;
        }
        Ok(Mixture { weights, means, covs })
    }

    /// The component count N.
    pub fn n_components(&self) -> (n: usize)
        ensures
            n == self.n(),
    {
        self.weights.len()
    }

    /// The dimensionality D.
    pub fn dimension(&self) -> (d: usize)
        ensures
            d == self.dim(),
    {
        if self.means.len() > 0 {
            self.means[0].len()
        } else {
            0
        }
    }
}

/// The reported error names the first shape violation in checking order.
pub open spec fn shape_error_exact(
    weights: Seq<u64>,
    means: Seq<Vec<u64>>,
    covs: Seq<Vec<Vec<u64>>>,
    e: ShapeError,
) -> bool {
    let d = dim_of(means);
    match e {
        ShapeError::MeanCount { weights: wl, means: ml } => {
            &&& wl == weights.len()
            &&& ml == means.len()
            &&& ml != wl
        },
        ShapeError::CovCount { weights: wl, covs: cl } => {
            &&& means.len() == weights.len()
            &&& wl == weights.len()
            &&& cl == covs.len()
            &&& cl != wl
        },
        ShapeError::MeanRow { row, expected, got } => {
            &&& means.len() == weights.len() && covs.len() == weights.len()
            &&& expected == d
            &&& 0 <= row < means.len()
            &&& got == means[row as int]@.len()
            &&& got != expected
            &&& forall|r: int| 0 <= r < row ==> (#[trigger] means[r])@.len() == d
        },
        ShapeError::CovSlice { index, expected, got } => {
            &&& means.len() == weights.len() && covs.len() == weights.len()
            &&& forall|i: int| 0 <= i < means.len() ==> (#[trigger] means[i])@.len() == d
            &&& expected == d
            &&& 0 <= index < covs.len()
            &&& got == covs[index as int]@.len()
            &&& got != expected
            &&& forall|k: int| 0 <= k < index ==> (#[trigger] covs[k])@.len() == d
            &&& forall|k: int, r: int|
                0 <= k < index && 0 <= r < covs[k]@.len() ==> (#[trigger] covs[k]@[r])@.len() == d
        },
        ShapeError::CovRow { index, row, expected, got } => {
            &&& means.len() == weights.len() && covs.len() == weights.len()
            &&& forall|i: int| 0 <= i < means.len() ==> (#[trigger] means[i])@.len() == d
            &&& expected == d
            &&& 0 <= index < covs.len()
            &&& covs[index as int]@.len() == d
            &&& 0 <= row < covs[index as int]@.len()
            &&& got == covs[index as int]@[row as int]@.len()
            &&& got != expected
            &&& forall|k: int| 0 <= k < index ==> (#[trigger] covs[k])@.len() == d
            &&& forall|k: int, r2: int|
                0 <= k < index && 0 <= r2 < covs[k]@.len() ==> (#[trigger] covs[k]@[r2])@.len()
                    == d
            &&& forall|r2: int|
                0 <= r2 < row ==> (#[trigger] covs[index as int]@[r2])@.len() == d
        },
    }
}

/// The dimensionality of a raw mean list: the length of its first row.
fn dim_of_rows(means: &Vec<Vec<u64>>) -> (d: usize)
    ensures
        d == dim_of(means@),
{
    if means.len() > 0 {
        means[0].len()
    } else {
        0
    }
}

} // verus!
