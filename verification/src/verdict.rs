//! The overlap verdict derived from one pair's scan.
//!
//! A scan that found exactly one peak describes a unimodal sub-mixture, and
//! so does one that found no saddle at all: both mean full overlap, an
//! overlap rate of one. Otherwise the rate is the density at the first
//! saddle found divided by the smallest peak density. The division itself is
//! floating-point work and stays with the caller: the verdict carries the
//! two bit patterns that make up the quotient.

use vstd::prelude::*;
use crate::scan::Extrema;
use crate::scan::peaks_of;
use crate::scan::saddles_of;
use crate::scan::scan_extrema;

verus! {

/// What one pair's scan decides: full overlap, or the quotient
/// `saddle / min_peak` of the two carried density bit patterns.
#[derive(Clone, Copy, Debug, PartialEq, Eq, Structural)]
pub enum Verdict {
    Full,
    Ratio { saddle: u64, min_peak: u64 },
}

/// The least value among the first `k` elements of `s`.
pub open spec fn min_upto(s: Seq<u64>, k: int) -> u64
    decreases k,
{
    if k <= 1 {
        s[0]
    } else if s[k - 1] < min_upto(s, k - 1) {
        s[k - 1]
    } else {
        min_upto(s, k - 1)
    }
}

/// The least value of a nonempty sequence.
pub open spec fn seq_min(s: Seq<u64>) -> u64
    recommends
        s.len() > 0,
{
    min_upto(s, s.len() as int)
}

/// The least value of a nonempty sequence is one of its elements and is no
/// greater than any of them.
pub proof fn lemma_seq_min_is_least(s: Seq<u64>)
    requires
        s.len() > 0,
    ensures
        s.contains(seq_min(s)),
        forall|i: int| 0 <= i < s.len() ==> seq_min(s) <= #[trigger] s[i],
{
    lemma_min_upto_is_least(s, s.len() as int);
}

proof fn lemma_min_upto_is_least(s: Seq<u64>, k: int)
    requires
        0 < k <= s.len(),
    ensures
        s.contains(min_upto(s, k)),
        forall|i: int| 0 <= i < k ==> min_upto(s, k) <= #[trigger] s[i],
    decreases k,
{
    if k == 1 {
        assert(min_upto(s, 1) == s[0]);
    } else {
        lemma_min_upto_is_least(s, k - 1);
    }
}

/// The verdict the peak and saddle sequences of one scan give rise to.
pub open spec fn verdict_of(peaks: Seq<u64>, saddles: Seq<u64>) -> Verdict
    recommends
        peaks.len() > 0 || saddles.len() == 0,
{
    if peaks.len() == 1 {
        Verdict::Full
    } else if saddles.len() == 0 {
        Verdict::Full
    } else {
        Verdict::Ratio { saddle: saddles[0], min_peak: seq_min(peaks) }
    }
}

/// The least value of a nonempty vector.
fn min_value(v: &Vec<u64>) -> (m: u64)
    requires
        v@.len() > 0,
    ensures
        m == seq_min(v@),
{
    let mut m: u64 = v[0];
    let mut k: usize = 1;
    while k < v.len()
        invariant
            1 <= k <= v@.len(),
            m == min_upto(v@, k as int),
        decreases v@.len() - k,
    {
        if v[k] < m {
            m = v[k];
        }
        k = k + 1;
    }
    m
}

/// Derives the verdict from one scan's extrema. A scan that found saddles
/// but no peak at all has no smallest peak to divide by and admits no
/// verdict; such a scan is left out here and refused in `pair_verdict`.
pub fn classify(ex: &Extrema) -> (v: Verdict)
    requires
        ex.peaks@.len() > 0 || ex.saddles@.len() == 0,
    ensures
        v == verdict_of(ex.peaks@, ex.saddles@),
{
    if ex.peaks.len() == 1 {
        Verdict::Full
    } else if ex.saddles.len() == 0 {
        Verdict::Full
    } else {
        Verdict::Ratio { saddle: ex.saddles[0], min_peak: min_value(&ex.peaks) }
    }
}

/// Scans one pair's sampled density sequence and derives its verdict.
/// `None` comes exactly when the scan found saddles but no peak, the one
/// degenerate shape that leaves the overlap rate undefined.
pub fn pair_verdict(d: &Vec<u64>) -> (r: Option<Verdict>)
    ensures
        peaks_of(d@).len() == 0 && saddles_of(d@).len() > 0 ==> r is None,
        peaks_of(d@).len() > 0 || saddles_of(d@).len() == 0 ==> r == Some(
            verdict_of(peaks_of(d@), saddles_of(d@)),
        ),
{
    let ex = scan_extrema(d);
    if ex.peaks.len() == 0 && ex.saddles.len() > 0 {
        None
    } else {
        Some(classify(&ex))
    }
}

/// Constant density values admit no strict extremum, so a scan of them
/// collects no peak and no saddle, and the verdict is full overlap.
pub proof fn lemma_constant_scan_full_overlap(d: Seq<u64>)
    requires
        forall|i: int| 0 <= i < d.len() ==> #[trigger] d[i] == d[0],
    ensures
        verdict_of(peaks_of(d), saddles_of(d)) == Verdict::Full,
{
    crate::scan::lemma_constant_scan(d);
}

} // verus!
