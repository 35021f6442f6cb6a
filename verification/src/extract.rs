//! Band peak extraction: for each band, the bin with the greatest magnitude
//! score in one window's spectrum.

use vstd::prelude::*;
use crate::band::{FrequencyBand, bands_within};

verus! {

/// The index in `[lo, hi)` holding the greatest score, ties resolved to the
/// lowest index. Meaningful only for a non-empty range inside the sequence.
pub open spec fn peak_index(scores: Seq<i64>, lo: int, hi: int) -> int
    recommends
        0 <= lo < hi <= scores.len(),
    decreases hi - lo,
{
    if lo + 1 >= hi {
        lo
    } else {
        let rest = peak_index(scores, lo + 1, hi);
        if scores[lo] >= scores[rest] {
            lo
        } else {
            rest
        }
    }
}

/// The band's peak over one window's scores: the lowest bin of greatest score
/// within the band's range, or `None` for a band whose range is empty.
pub open spec fn band_peak(scores: Seq<i64>, b: FrequencyBand) -> Option<usize>
    recommends
        b.lower_bound + b.length <= scores.len(),
{
    if b.length == 0 {
        None
    } else {
        Some(peak_index(scores, b.lower_bound as int, b.lower_bound + b.length) as usize)
    }
}

/// `peak_index` lands in its range, attains the maximum score, and no earlier
/// index in the range reaches that score.
pub proof fn lemma_peak_index_props(scores: Seq<i64>, lo: int, hi: int)
    requires
        0 <= lo < hi <= scores.len(),
    ensures
        lo <= peak_index(scores, lo, hi) < hi,
        forall|k: int| lo <= k < hi ==> #[trigger] scores[k] <= scores[peak_index(scores, lo, hi)],
        forall|k: int|
            lo <= k < peak_index(scores, lo, hi)
                ==> #[trigger] scores[k] < scores[peak_index(scores, lo, hi)],
    decreases hi - lo,
{
    if lo + 1 < hi {
        lemma_peak_index_props(scores, lo + 1, hi);
    }
}

/// Appending one more bin on the right moves the peak there exactly when its
/// score is strictly greater than the current peak's.
pub proof fn lemma_peak_index_extend(scores: Seq<i64>, lo: int, hi: int)
    requires
        0 <= lo < hi < scores.len(),
    ensures
        peak_index(scores, lo, hi + 1) == if scores[hi] > scores[peak_index(scores, lo, hi)] {
            hi
        } else {
            peak_index(scores, lo, hi)
        },
    decreases hi - lo,
{
    if lo + 1 >= hi {
        assert(peak_index(scores, lo + 1, hi + 1) == lo + 1);
    } else {
        lemma_peak_index_extend(scores, lo + 1, hi);
        assert(peak_index(scores, lo, hi) == if scores[lo] >= scores[peak_index(
            scores,
            lo + 1,
            hi,
        )] {
            lo
        } else {
            peak_index(scores, lo + 1, hi)
        });
    }
}

/// The peak of a range depends only on the scores inside that range.
pub proof fn lemma_peak_index_local(s1: Seq<i64>, s2: Seq<i64>, lo: int, hi: int)
    requires
        0 <= lo < hi <= s1.len(),
        hi <= s2.len(),
        forall|k: int| lo <= k < hi ==> s1[k] == #[trigger] s2[k],
    ensures
        peak_index(s1, lo, hi) == peak_index(s2, lo, hi),
    decreases hi - lo,
{
    if lo + 1 < hi {
        lemma_peak_index_local(s1, s2, lo + 1, hi);
        lemma_peak_index_props(s1, lo + 1, hi);
        let rest = peak_index(s1, lo + 1, hi);
        assert(s1[rest] == s2[rest]);
        assert(s1[lo] == s2[lo]);
    }
}

/// A band's peak is untouched by changes to scores outside the band's range:
/// a tone confined to one band cannot alter any other band's peak.
pub proof fn lemma_band_peak_local(s1: Seq<i64>, s2: Seq<i64>, b: FrequencyBand)
    requires
        b.lower_bound + b.length <= s1.len(),
        b.lower_bound + b.length <= s2.len(),
        forall|k: int| crate::band::band_contains(b, k) ==> s1[k] == #[trigger] s2[k],
    ensures
        band_peak(s1, b) == band_peak(s2, b),
{
    if b.length > 0 {
        lemma_peak_index_local(s1, s2, b.lower_bound as int, b.lower_bound + b.length);
    }
}

/// A non-empty band always has a peak, and it is one of the band's own bins;
/// an empty band never has one.
pub proof fn lemma_band_peak_in_range(scores: Seq<i64>, b: FrequencyBand)
    requires
        b.lower_bound + b.length <= scores.len(),
        b.lower_bound + b.length <= usize::MAX,
    ensures
        band_peak(scores, b) is Some <==> b.length > 0,
        band_peak(scores, b) matches Some(p) ==> crate::band::band_contains(b, p as int),
{
    if b.length > 0 {
        lemma_peak_index_props(scores, b.lower_bound as int, b.lower_bound + b.length);
        let p = peak_index(scores, b.lower_bound as int, b.lower_bound + b.length);
        assert((p as usize) as int == p);
    }
}

/// The band's peak attains the greatest score in the band's range, and every
/// earlier bin of the range scores strictly below it: the peak is the first
/// bin of greatest score.
pub proof fn lemma_band_peak_is_max(scores: Seq<i64>, b: FrequencyBand)
    requires
        b.lower_bound + b.length <= scores.len(),
        b.lower_bound + b.length <= usize::MAX,
        b.length > 0,
    ensures
        band_peak(scores, b) is Some,
        forall|k: int|
            crate::band::band_contains(b, k) ==> #[trigger] scores[k] <= scores[
                band_peak(scores, b)->0 as int
            ],
        forall|k: int|
            b.lower_bound <= k < band_peak(scores, b)->0 ==> #[trigger] scores[k] < scores[
                band_peak(scores, b)->0 as int
            ],
{
    lemma_peak_index_props(scores, b.lower_bound as int, b.lower_bound + b.length);
    let p = peak_index(scores, b.lower_bound as int, b.lower_bound + b.length);
    assert((p as usize) as int == p);
}

/// A single dominant bin wins: when one bin of the band scores strictly above
/// every other bin in the band's range, that bin is the band's peak.
pub proof fn lemma_single_peak(scores: Seq<i64>, b: FrequencyBand, t: int)
    requires
        b.lower_bound + b.length <= scores.len(),
        crate::band::band_contains(b, t),
        forall|k: int|
            crate::band::band_contains(b, k) && k != t ==> #[trigger] scores[k] < scores[t],
    ensures
        band_peak(scores, b) == Some(t as usize),
{
    let lo = b.lower_bound as int;
    let hi = b.lower_bound + b.length;
    lemma_peak_index_props(scores, lo, hi);
    let p = peak_index(scores, lo, hi);
    assert(scores[p] >= scores[t]);
}

/// Tie-break determinism: when two bins of the band share the greatest score,
/// the band's peak is at or before the lower of the two, never the higher.
pub proof fn lemma_tie_break(scores: Seq<i64>, b: FrequencyBand, i: int, j: int)
    requires
        b.lower_bound + b.length <= scores.len(),
        crate::band::band_contains(b, i),
        crate::band::band_contains(b, j),
        i < j,
        scores[i] == scores[j],
        forall|k: int| crate::band::band_contains(b, k) ==> #[trigger] scores[k] <= scores[i],
    ensures
        band_peak(scores, b) matches Some(p) && p <= i && p != j,
{
    let lo = b.lower_bound as int;
    let hi = b.lower_bound + b.length;
    lemma_peak_index_props(scores, lo, hi);
    let p = peak_index(scores, lo, hi);
    assert(scores[p] >= scores[i]);
    if p > i {
        assert(scores[i] < scores[p]);
    }
}

/// One output band of a scan: the range is the input band's, the peak fields
/// hold that range's peak over `scores`.
pub open spec fn scanned(scores: Seq<i64>, b: FrequencyBand, r: FrequencyBand) -> bool {
    &&& r.lower_bound == b.lower_bound
    &&& r.length == b.length
    &&& r.peak_at == band_peak(scores, b)
    &&& (match band_peak(scores, b) {
        Some(p) => r.peak_magnitude == scores[p as int],
        None => r.peak_magnitude == 0,
    })
}

/// Scan one band over one window's scores: a single pass over the band's bins,
/// keeping the first bin whose score all later bins fail to strictly exceed.
pub fn scan_band(scores: &Vec<i64>, band: &FrequencyBand) -> (r: FrequencyBand)
    requires
        band.lower_bound + band.length <= scores.len(),
    ensures
        scanned(scores@, *band, r),
{
    let lo = band.lower_bound;
    if band.length == 0 {
        return FrequencyBand { lower_bound: lo, length: 0, peak_at: None, peak_magnitude: 0 };
    }
    let hi = lo + band.length;
    let mut best: usize = lo;
    let mut best_score: i64 = scores[lo];
    let mut k: usize = lo + 1;
    while k < hi
        invariant
            lo < hi <= scores.len(),
            lo < k <= hi,
            lo <= best < k,
            best == peak_index(scores@, lo as int, k as int),
            best_score == scores@[best as int],
        decreases hi - k,
    {
        proof {
            lemma_peak_index_extend(scores@, lo as int, k as int);
        }
        if scores[k] > best_score {
            best = k;
            best_score = scores[k];
        }
        k = k + 1;
    }
    FrequencyBand {
        lower_bound: lo,
        length: band.length,
        peak_at: Some(best),
        peak_magnitude: best_score,
    }
}

/// Scan every band over one window's scores. Bands are independent: each
/// output band's peak is determined by the scores in its own range alone.
pub fn extract_peaks(scores: &Vec<i64>, bands: &Vec<FrequencyBand>) -> (r: Vec<FrequencyBand>)
    requires
        bands_within(bands@, scores@.len() as int),
    ensures
        r@.len() == bands@.len(),
        forall|i: int| 0 <= i < bands@.len() ==> scanned(scores@, bands@[i], #[trigger] r@[i]),
{
    let mut r: Vec<FrequencyBand> = Vec::new();
    let mut i: usize = 0;
    while i < bands.len()
        invariant
            i <= bands@.len(),
            r@.len() == i,
            bands_within(bands@, scores@.len() as int),
            forall|t: int| 0 <= t < i ==> scanned(scores@, bands@[t], #[trigger] r@[t]),
        decreases bands@.len() - i,
    {
        assert(bands@[i as int].lower_bound + bands@[i as int].length <= scores@.len());
        let scanned_band = scan_band(scores, &bands[i]);
        r.push(scanned_band);
        i = i + 1;
    }
    r
}

} // verus!
