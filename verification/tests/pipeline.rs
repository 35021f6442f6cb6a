use rustfft::num_complex::Complex;
use rustfft::FftPlanner;
use song_fingerprint::band::{standard_bands, FrequencyBand};
use song_fingerprint::chunk::chunk_windows;
use song_fingerprint::fingerprint::{
    config_is_valid, fingerprint_from_scores, FingerprintAssembler, SongFingerprint,
};

/// The magnitude score of one spectrum bin: the logarithm of the bin's real
/// component, mapped to an `i64` order key, with non-finite values (zero or
/// negative input to the logarithm) clamped to the minimum score.
fn magnitude_score(re: f32) -> i64 {
    let m = re.ln();
    if !m.is_finite() {
        i64::MIN
    } else {
        let b = m.to_bits();
        let k = if b & 0x8000_0000 != 0 { !b } else { b | 0x8000_0000 };
        k as i64
    }
}

/// One window's spectrum scores: forward FFT over the samples, then the
/// magnitude score of each bin.
fn window_scores(window: &[i16]) -> Vec<i64> {
    let mut buf: Vec<Complex<f32>> = window
        .iter()
        .map(|s| Complex { re: *s as f32, im: 0.0 })
        .collect();
    let mut planner = FftPlanner::<f32>::new();
    let fft = planner.plan_fft_forward(buf.len());
    fft.process(&mut buf);
    buf.iter().map(|c| magnitude_score(c.re)).collect()
}

/// The whole pipeline over plain samples.
fn run_pipeline(
    samples: &Vec<i16>,
    bands: &Vec<FrequencyBand>,
    window_size: usize,
    sample_rate: u32,
) -> SongFingerprint {
    assert!(config_is_valid(window_size, sample_rate, bands));
    let windows = chunk_windows(samples, window_size);
    let scores: Vec<Vec<i64>> = windows.iter().map(|w| window_scores(w)).collect();
    fingerprint_from_scores(&scores, bands, window_size, sample_rate)
}

#[test]
fn chunking_pads_final_window() {
    let samples: Vec<i16> = vec![1, 2, 3, 4, 5, 6, 7, 8, 9];
    let windows = chunk_windows(&samples, 4);
    assert_eq!(windows.len(), 3);
    assert_eq!(windows[0], vec![1, 2, 3, 4]);
    assert_eq!(windows[1], vec![5, 6, 7, 8]);
    assert_eq!(windows[2], vec![9, 0, 0, 0]);
}

#[test]
fn chunking_exact_multiple_adds_no_window() {
    let samples: Vec<i16> = vec![1, 2, 3, 4, 5, 6, 7, 8];
    let windows = chunk_windows(&samples, 4);
    assert_eq!(windows.len(), 2);
    assert_eq!(windows[1], vec![5, 6, 7, 8]);
}

#[test]
fn chunking_empty_source_yields_no_window() {
    let samples: Vec<i16> = Vec::new();
    let windows = chunk_windows(&samples, 4);
    assert_eq!(windows.len(), 0);
}

#[test]
fn fingerprint_length_is_ceiling() {
    let bands = vec![FrequencyBand::new(0, 4)];
    for (m, expected) in [(0usize, 0usize), (7, 2), (8, 2), (9, 3), (1, 1)] {
        let samples: Vec<i16> = (0..m).map(|i| i as i16).collect();
        let song = run_pipeline(&samples, &bands, 4, 4);
        assert_eq!(song.frames.len(), expected, "for {} samples", m);
    }
}

#[test]
fn timestamps_step_by_one_window() {
    let bands = vec![FrequencyBand::new(0, 4)];
    let samples: Vec<i16> = (0..10).map(|i| (i * 3) as i16).collect();
    let song = run_pipeline(&samples, &bands, 4, 4);
    assert_eq!(song.frames.len(), 3);
    let starts: Vec<u64> = song.frames.iter().map(|f| f.start_sample).collect();
    assert_eq!(starts, vec![0, 4, 8]);
    for pair in song.frames.windows(2) {
        assert!(pair[0].start_sample < pair[1].start_sample);
        assert_eq!(pair[1].start_sample - pair[0].start_sample, 4);
    }
    // In seconds: each step is window_size / sample_rate.
    assert_eq!(song.window_size, 4);
    assert_eq!(song.sample_rate, 4);
}

#[test]
fn pipeline_is_idempotent() {
    let bands = standard_bands();
    let samples: Vec<i16> = (0..3000).map(|i| ((i * 37) % 251 - 125) as i16).collect();
    let first = run_pipeline(&samples, &bands, 512, 8000);
    let second = run_pipeline(&samples, &bands, 512, 8000);
    assert_eq!(first.frames.len(), second.frames.len());
    for (a, b) in first.frames.iter().zip(second.frames.iter()) {
        assert_eq!(a.peaks, b.peaks);
        assert_eq!(a.start_sample, b.start_sample);
    }
}

#[test]
fn example_window_peak() {
    // Window size 4, sample rate 4 Hz, one band covering bins [0, 4),
    // samples [1, 5, 2, 0]. The transform's real components are
    // [8, -1, -2, -1]; under the fixed magnitude score (logarithm of the
    // real component, non-finite clamped to the minimum) only bin 0 has a
    // finite score, so the band's peak is bin 0.
    let samples: Vec<i16> = vec![1, 5, 2, 0];
    let bands = vec![FrequencyBand::new(0, 4)];
    let song = run_pipeline(&samples, &bands, 4, 4);
    assert_eq!(song.frames.len(), 1);
    assert_eq!(song.frames[0].peaks, vec![Some(0)]);
    assert_eq!(song.frames[0].start_sample, 0);

    let scores = window_scores(&samples);
    assert!(scores[0] > i64::MIN);
    assert_eq!(scores[1], i64::MIN);
    assert_eq!(scores[2], i64::MIN);
    assert_eq!(scores[3], i64::MIN);
}

#[test]
fn assembler_appends_frames_in_order() {
    let bands = vec![FrequencyBand::new(0, 2), FrequencyBand::new(2, 2)];
    let mut assembler = FingerprintAssembler::new(4, 4, bands);
    assembler.push_window(&vec![9, 1, 5, 6]);
    assembler.push_window(&vec![0, 2, 8, 3]);
    let song = assembler.finish();
    assert_eq!(song.frames.len(), 2);
    assert_eq!(song.frames[0].peaks, vec![Some(0), Some(3)]);
    assert_eq!(song.frames[0].start_sample, 0);
    assert_eq!(song.frames[1].peaks, vec![Some(1), Some(2)]);
    assert_eq!(song.frames[1].start_sample, 4);
}

#[test]
fn invalid_configurations_are_rejected() {
    let bands = vec![FrequencyBand::new(0, 4)];
    assert!(config_is_valid(4, 4, &bands));
    assert!(!config_is_valid(0, 4, &bands));
    assert!(!config_is_valid(4, 0, &bands));
    // A band reaching past the window's bin range.
    assert!(!config_is_valid(3, 4, &bands));
    let far = vec![FrequencyBand::new(40, 40)];
    assert!(!config_is_valid(64, 4, &far));
    assert!(config_is_valid(80, 4, &far));
}
