//! Fingerprint assembly: one timestamped frame of band peaks per window, in
//! stream order.

use vstd::prelude::*;
use crate::band::{FrequencyBand, bands_within};
use crate::extract::{band_peak, extract_peaks};
use crate::chunk::num_windows;

verus! {

/// The per-window summary: each band's peak bin, in the bands' defined order,
/// and the window's start position in the stream, counted in samples. The
/// start time in seconds is `start_sample / sample_rate`; keeping the count in
/// samples makes the timestamp sequence exact.
pub struct FingerprintFrame {
    pub peaks: Vec<Option<usize>>,
    pub start_sample: u64,
}

/// The full ordered fingerprint of one stream: one frame per window, in
/// temporal order, with the window size and sample rate the frames were made
/// under.
pub struct SongFingerprint {
    pub frames: Vec<FingerprintFrame>,
    pub window_size: usize,
    pub sample_rate: u32,
}

/// The ordered peak list one window's scores yield: each band's peak bin, in
/// band order.
pub open spec fn frame_peaks(scores: Seq<i64>, bands: Seq<FrequencyBand>) -> Seq<Option<usize>> {
    Seq::new(bands.len(), |i: int| band_peak(scores, bands[i]))
}

/// Frame `i` starts at sample `i * window_size`: the timestamps advance by
/// exactly one window per frame.
pub open spec fn timestamps_regular(s: SongFingerprint) -> bool {
    forall|i: int|
        0 <= i < s.frames@.len() ==> (#[trigger] s.frames@[i]).start_sample == i * s.window_size
}

/// The views of a sequence of score vectors.
pub open spec fn window_views(ws: Seq<Vec<i64>>) -> Seq<Seq<i64>> {
    ws.map_values(|w: Vec<i64>| w@)
}

/// `r` is the fingerprint of the given per-window scores: one frame per
/// window, in order, each holding that window's band peaks and start sample.
/// This pins every field of the result, so any two fingerprints of the same
/// input are equal.
pub open spec fn fingerprint_matches(
    r: SongFingerprint,
    windows: Seq<Seq<i64>>,
    bands: Seq<FrequencyBand>,
    window_size: int,
    sample_rate: int,
) -> bool {
    &&& r.window_size == window_size
    &&& r.sample_rate == sample_rate
    &&& r.frames@.len() == windows.len()
    &&& forall|i: int|
        0 <= i < windows.len() ==> (#[trigger] r.frames@[i]).peaks@ == frame_peaks(
            windows[i],
            bands,
        )
    &&& forall|i: int|
        0 <= i < windows.len() ==> (#[trigger] r.frames@[i]).start_sample == i * window_size
}

/// Each band's peak over one window's scores, in band order.
pub fn peaks_of(scores: &Vec<i64>, bands: &Vec<FrequencyBand>) -> (r: Vec<Option<usize>>)
    requires
        bands_within(bands@, scores@.len() as int),
    ensures
        r@ == frame_peaks(scores@, bands@),
{
    let scanned_bands = extract_peaks(scores, bands);
    let mut r: Vec<Option<usize>> = Vec::new();
    let mut i: usize = 0;
    while i < scanned_bands.len()
        invariant
            scanned_bands@.len() == bands@.len(),
            forall|t: int|
                0 <= t < bands@.len() ==> crate::extract::scanned(
                    scores@,
                    bands@[t],
                    #[trigger] scanned_bands@[t],
                ),
            i <= bands@.len(),
            r@.len() == i,
            forall|t: int| 0 <= t < i ==> #[trigger] r@[t] == band_peak(scores@, bands@[t]),
        decreases scanned_bands@.len() - i,
    {
        r.push(scanned_bands[i].peak_at);
        i = i + 1;
    }
    proof {
        assert(r@ =~= frame_peaks(scores@, bands@));
    }
    r
}

/// Builds a fingerprint one window at a time: bands and sizes are fixed at
/// construction, and each pushed window appends one frame whose start sample
/// advances by exactly one window size.
pub struct FingerprintAssembler {
    pub window_size: usize,
    pub sample_rate: u32,
    pub bands: Vec<FrequencyBand>,
    pub frames: Vec<FingerprintFrame>,
}

impl FingerprintAssembler {
    /// The assembler's invariant: a positive window size and sample rate,
    /// bands inside the window's bin range, and the frames collected so far
    /// regularly timestamped with one peak entry per band.
    pub open spec fn wf(self) -> bool {
        &&& self.window_size >= 1
        &&& self.sample_rate >= 1
        &&& bands_within(self.bands@, self.window_size as int)
        &&& forall|i: int|
            0 <= i < self.frames@.len() ==> (#[trigger] self.frames@[i]).start_sample == i
                * self.window_size
        &&& forall|i: int|
            0 <= i < self.frames@.len() ==> (#[trigger] self.frames@[i]).peaks@.len()
                == self.bands@.len()
    }

    /// An assembler with no frames yet.
    pub fn new(window_size: usize, sample_rate: u32, bands: Vec<FrequencyBand>) -> (r: Self)
        requires
            window_size >= 1,
            sample_rate >= 1,
            bands_within(bands@, window_size as int),
        ensures
            r.wf(),
            r.window_size == window_size,
            r.sample_rate == sample_rate,
            r.bands == bands,
            r.frames@.len() == 0,
    {
        FingerprintAssembler { window_size, sample_rate, bands, frames: Vec::new() }
    }

    /// Append the frame for the next window: the band peaks of `scores`, at
    /// the start sample following the frames already collected. Earlier
    /// frames are untouched.
    pub fn push_window(&mut self, scores: &Vec<i64>)
        requires
            old(self).wf(),
            scores@.len() == old(self).window_size,
            (old(self).frames@.len() + 1) * old(self).window_size <= u64::MAX,
        ensures
            final(self).wf(),
            final(self).window_size == old(self).window_size,
            final(self).sample_rate == old(self).sample_rate,
            final(self).bands == old(self).bands,
            final(self).frames@.len() == old(self).frames@.len() + 1,
            forall|i: int|
                0 <= i < old(self).frames@.len() ==> final(self).frames@[i] == old(
                    self,
                ).frames@[i],
            final(self).frames@[old(self).frames@.len() as int].peaks@ == frame_peaks(
                scores@,
                old(self).bands@,
            ),
            final(self).frames@[old(self).frames@.len() as int].start_sample == old(
                self,
            ).frames@.len() * old(self).window_size,
    {
        proof {
            assert(self.frames@.len() * self.window_size <= (self.frames@.len() + 1)
                * self.window_size) by (nonlinear_arith)
                requires
                    self.window_size >= 0,
            ;
        }
        let peaks = peaks_of(scores, &self.bands);
        let start: u64 = (self.frames.len() as u64) * (self.window_size as u64);
        let frame = FingerprintFrame { peaks, start_sample: start };
        self.frames.push(frame);
    }

    /// Hand the collected frames off as the finished fingerprint.
    pub fn finish(self) -> (r: SongFingerprint)
        requires
            self.wf(),
        ensures
            r.frames == self.frames,
            r.window_size == self.window_size,
            r.sample_rate == self.sample_rate,
            timestamps_regular(r),
    {
        SongFingerprint {
            frames: self.frames,
            window_size: self.window_size,
            sample_rate: self.sample_rate,
        }
    }
}

/// Whether a configuration may drive the pipeline: a positive window size and
/// sample rate, and every band's bin range inside `[0, window_size)`. Checked
/// before processing begins; an invalid configuration is rejected up front.
pub fn config_is_valid(window_size: usize, sample_rate: u32, bands: &Vec<FrequencyBand>) -> (r:
    bool)
    ensures
        r == (window_size >= 1 && sample_rate >= 1 && bands_within(
            bands@,
            window_size as int,
        )),
{
    if window_size < 1 || sample_rate < 1 {
        return false;
    }
    let mut i: usize = 0;
    while i < bands.len()
        invariant
            i <= bands@.len(),
            forall|t: int|
                0 <= t < i ==> (#[trigger] bands@[t]).lower_bound + bands@[t].length
                    <= window_size,
        decreases bands@.len() - i,
    {
        let b = &bands[i];
        if b.lower_bound > window_size || b.length > window_size - b.lower_bound {
            return false;
        }
        i = i + 1;
    }
    true
}

/// The fingerprint of a whole stream's windows, given each window's magnitude
/// scores in stream order: one frame per window, assembled in order.
pub fn fingerprint_from_scores(
    windows: &Vec<Vec<i64>>,
    bands: &Vec<FrequencyBand>,
    window_size: usize,
    sample_rate: u32,
) -> (r: SongFingerprint)
    requires
        window_size >= 1,
        sample_rate >= 1,
        bands_within(bands@, window_size as int),
        forall|i: int| 0 <= i < windows@.len() ==> (#[trigger] windows@[i])@.len() == window_size,
        windows@.len() * window_size <= u64::MAX,
    ensures
        fingerprint_matches(
            r,
            window_views(windows@),
            bands@,
            window_size as int,
            sample_rate as int,
        ),
        timestamps_regular(r),
{
    let mut assembler = FingerprintAssembler::new(window_size, sample_rate, bands.clone());
    let mut i: usize = 0;
    while i < windows.len()
        invariant
            assembler.wf(),
            assembler.window_size == window_size,
            assembler.sample_rate == sample_rate,
            assembler.bands@ == bands@,
            i <= windows@.len(),
            assembler.frames@.len() == i,
            window_size >= 1,
            forall|t: int|
                0 <= t < windows@.len() ==> (#[trigger] windows@[t])@.len() == window_size,
            windows@.len() * window_size <= u64::MAX,
            forall|t: int|
                0 <= t < i ==> (#[trigger] assembler.frames@[t]).peaks@ == frame_peaks(
                    windows@[t]@,
                    bands@,
                ),
        decreases windows@.len() - i,
    {
        proof {
            assert((i + 1) * window_size <= windows@.len() * window_size) by (nonlinear_arith)
                requires
                    0 <= i + 1 <= windows@.len(),
                    window_size >= 0,
            ;
        }
        assembler.push_window(&windows[i]);
        i = i + 1;
    }
    let r = assembler.finish();
    proof {
        assert(forall|t: int|
            0 <= t < windows@.len() ==> window_views(windows@)[t] == #[trigger] windows@[t]@);
    }
    r
}

/// The contract of `fingerprint_from_scores` pins every field of its result:
/// two fingerprints of the same windows, bands and configuration agree frame
/// by frame, so running the pipeline twice on identical input yields an
/// identical fingerprint.
pub proof fn lemma_fingerprint_deterministic(
    r1: SongFingerprint,
    r2: SongFingerprint,
    windows: Seq<Seq<i64>>,
    bands: Seq<FrequencyBand>,
    window_size: int,
    sample_rate: int,
)
    requires
        fingerprint_matches(r1, windows, bands, window_size, sample_rate),
        fingerprint_matches(r2, windows, bands, window_size, sample_rate),
    ensures
        r1.window_size == r2.window_size,
        r1.sample_rate == r2.sample_rate,
        r1.frames@.len() == r2.frames@.len(),
        forall|i: int|
            0 <= i < r1.frames@.len() ==> (#[trigger] r1.frames@[i]).peaks@
                == r2.frames@[i].peaks@,
        forall|i: int|
            0 <= i < r1.frames@.len() ==> (#[trigger] r1.frames@[i]).start_sample
                == r2.frames@[i].start_sample,
{
}

/// Consecutive frames are strictly ordered in time, exactly one window size
/// apart in samples (`window_size / sample_rate` seconds).
pub proof fn lemma_timestamps_increase(s: SongFingerprint, i: int)
    requires
        timestamps_regular(s),
        s.window_size >= 1,
        0 <= i,
        i + 1 < s.frames@.len(),
    ensures
        s.frames@[i].start_sample < s.frames@[i + 1].start_sample,
        s.frames@[i + 1].start_sample - s.frames@[i].start_sample == s.window_size,
{
    assert((i + 1) * (s.window_size as int) == i * (s.window_size as int) + s.window_size)
        by (nonlinear_arith);
}

/// A stream of `m` samples cut into windows of `n` fingerprints to exactly
/// `ceil(m / n)` frames.
pub proof fn lemma_song_length(
    r: SongFingerprint,
    samples: Seq<i16>,
    windows: Seq<Seq<i64>>,
    bands: Seq<FrequencyBand>,
    n: int,
    sample_rate: int,
)
    requires
        n >= 1,
        windows.len() == num_windows(samples.len() as int, n),
        fingerprint_matches(r, windows, bands, n, sample_rate),
    ensures
        r.frames@.len() == (samples.len() + n - 1) / n,
{
    crate::chunk::lemma_num_windows_is_ceil(samples.len() as int, n);
}

} // verus!
