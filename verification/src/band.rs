//! Frequency bands and their per-window peak state.

use vstd::prelude::*;

verus! {

/// A half-open range of frequency bins, `[lower_bound, lower_bound + length)`,
/// together with the peak found in the window currently under analysis:
/// `peak_at` is the bin with the greatest magnitude score in the range (`None`
/// until a window has been scanned, or when the range is empty), and
/// `peak_magnitude` is that bin's score (`0` while no peak is recorded).
#[derive(Clone, Copy, Debug)]
pub struct FrequencyBand {
    pub lower_bound: usize,
    pub length: usize,
    pub peak_at: Option<usize>,
    pub peak_magnitude: i64,
}

/// Bin `frequency` lies inside the band's range.
pub open spec fn band_contains(b: FrequencyBand, frequency: int) -> bool {
    b.lower_bound <= frequency < b.lower_bound + b.length
}

/// Every band's range fits inside the bin range `[0, n)`.
pub open spec fn bands_within(bands: Seq<FrequencyBand>, n: int) -> bool {
    forall|i: int|
        0 <= i < bands.len() ==> (#[trigger] bands[i]).lower_bound + bands[i].length <= n
}

impl FrequencyBand {
    /// A band covering `[lower_bound, lower_bound + length)` with no peak
    /// recorded yet.
    pub fn new(lower_bound: usize, length: usize) -> (r: FrequencyBand)
        requires
            lower_bound + length <= usize::MAX,
        ensures
            r.lower_bound == lower_bound,
            r.length == length,
            r.peak_at is None,
            r.peak_magnitude == 0,
    {
        FrequencyBand { lower_bound, length, peak_at: None, peak_magnitude: 0 }
    }

    /// Whether bin `frequency` lies inside this band's range.
    pub fn frequency_within(&self, frequency: usize) -> (r: bool)
        ensures
            r == band_contains(*self, frequency as int),
    {
        frequency >= self.lower_bound && frequency - self.lower_bound < self.length
    }
}

/// The default band layout: five disjoint low-to-mid ranges in bin-index
/// space, `[40, 80)`, `[80, 120)`, `[120, 180)`, `[180, 260)` and
/// `[260, 400)`, each with no peak recorded. Bin indices are sample-rate
/// dependent; this layout fits any window of at least 400 bins.
pub fn standard_bands() -> (r: Vec<FrequencyBand>)
    ensures
        r@.len() == 5,
        r@[0].lower_bound == 40 && r@[0].length == 40,
        r@[1].lower_bound == 80 && r@[1].length == 40,
        r@[2].lower_bound == 120 && r@[2].length == 60,
        r@[3].lower_bound == 180 && r@[3].length == 80,
        r@[4].lower_bound == 260 && r@[4].length == 140,
        forall|i: int| 0 <= i < 5 ==> (#[trigger] r@[i]).peak_at is None,
        forall|i: int| 0 <= i < 5 ==> (#[trigger] r@[i]).peak_magnitude == 0,
        bands_within(r@, 400),
{
    let mut r: Vec<FrequencyBand> = Vec::new();
    r.push(FrequencyBand::new(40, 40));
    r.push(FrequencyBand::new(80, 40));
    r.push(FrequencyBand::new(120, 60));
    r.push(FrequencyBand::new(180, 80));
    r.push(FrequencyBand::new(260, 140));
    r
}

impl Default for FrequencyBand {
    /// The empty band: zero range, no peak.
    fn default() -> (r: Self)
        ensures
            r.lower_bound == 0,
            r.length == 0,
            r.peak_at is None,
            r.peak_magnitude == 0,
    {
        FrequencyBand { lower_bound: 0, length: 0, peak_at: None, peak_magnitude: 0 }
    }
}

} // verus!
