//! Extrema scanning over a sampled density sequence.
//!
//! The caller samples the two-component mixture density at a fixed sequence
//! of points along the line between the two means and hands the values in as
//! IEEE-754 double bit patterns. Each interior index is classified by strict
//! comparison with its two neighbours: strictly above both is a peak,
//! strictly below both is a saddle, and a tie with either neighbour is
//! neither. The two boundary indices have only one neighbour each and are
//! never classified.

use vstd::prelude::*;

verus! {

/// Interior index `k` of `d` is a strict local maximum.
pub open spec fn is_peak(d: Seq<u64>, k: int) -> bool {
    d[k] > d[k - 1] && d[k] > d[k + 1]
}

/// Interior index `k` of `d` is a strict local minimum.
pub open spec fn is_saddle(d: Seq<u64>, k: int) -> bool {
    d[k] < d[k - 1] && d[k] < d[k + 1]
}

/// The peak values found at interior indices `1 .. k`, in scan order.
pub open spec fn peaks_upto(d: Seq<u64>, k: int) -> Seq<u64>
    decreases k,
{
    if k <= 1 {
        Seq::empty()
    } else if is_peak(d, k - 1) {
        peaks_upto(d, k - 1).push(d[k - 1])
    } else {
        peaks_upto(d, k - 1)
    }
}

/// The saddle values found at interior indices `1 .. k`, in scan order.
pub open spec fn saddles_upto(d: Seq<u64>, k: int) -> Seq<u64>
    decreases k,
{
    if k <= 1 {
        Seq::empty()
    } else if is_saddle(d, k - 1) {
        saddles_upto(d, k - 1).push(d[k - 1])
    } else {
        saddles_upto(d, k - 1)
    }
}

/// All peak values of `d`, in scan order.
pub open spec fn peaks_of(d: Seq<u64>) -> Seq<u64> {
    peaks_upto(d, d.len() - 1)
}

/// All saddle values of `d`, in scan order.
pub open spec fn saddles_of(d: Seq<u64>) -> Seq<u64> {
    saddles_upto(d, d.len() - 1)
}

/// The peak and saddle values collected by one scan, in scan order.
pub struct Extrema {
    pub peaks: Vec<u64>,
    pub saddles: Vec<u64>,
}

/// Walks the interior indices of `d` once and collects every strict local
/// maximum value into `peaks` and every strict local minimum value into
/// `saddles`, in scan order.
pub fn scan_extrema(d: &Vec<u64>) -> (r: Extrema)
    ensures
        r.peaks@ == peaks_of(d@),
        r.saddles@ == saddles_of(d@),
{
    let mut peaks: Vec<u64> = Vec::new();
    let mut saddles: Vec<u64> = Vec::new();
    if d.len() < 3 {
        return Extrema { peaks, saddles };
    }
    let mut k: usize = 1;
    while k < d.len() - 1
        invariant
            1 <= k <= d@.len() - 1,
            d@.len() >= 3,
            peaks@ == peaks_upto(d@, k as int),
            saddles@ == saddles_upto(d@, k as int),
        decreases d@.len() - 1 - k,
    {
        let dk = d[k];
        let prev = d[k - 1];
        let next = d[k + 1];
        if dk > prev && dk > next {
            peaks.push(dk);
        }
        if dk < prev && dk < next {
            saddles.push(dk);
        }
        k = k + 1;
    }
    Extrema { peaks, saddles }
}

/// A sequence whose values are all equal has no strict extremum, so a scan
/// of it finds no peak and no saddle. This is the shape a pair of components
/// with identical means produces: every sample point is the same point, so
/// every sampled density is the same value.
pub proof fn lemma_constant_scan(d: Seq<u64>)
    requires
        forall|i: int| 0 <= i < d.len() ==> #[trigger] d[i] == d[0],
    ensures
        peaks_of(d).len() == 0,
        saddles_of(d).len() == 0,
{
    lemma_constant_scan_upto(d, d.len() - 1);
}

proof fn lemma_constant_scan_upto(d: Seq<u64>, k: int)
    requires
        forall|i: int| 0 <= i < d.len() ==> #[trigger] d[i] == d[0],
        k <= d.len() - 1,
    ensures
        peaks_upto(d, k).len() == 0,
        saddles_upto(d, k).len() == 0,
    decreases k,
{
    if k > 1 {
        assert(d[k - 2] == d[0]);
        assert(d[k - 1] == d[0]);
        assert(d[k] == d[0]);
        lemma_constant_scan_upto(d, k - 1);
    }
}

} // verus!
