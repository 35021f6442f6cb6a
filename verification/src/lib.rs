//! Spectral fingerprinting of a PCM sample stream.
//!
//! The library turns an ordered stream of signed integer samples into a
//! time-ordered fingerprint: the stream is cut into fixed-size analysis
//! windows (the last one zero-padded), each window's spectrum is reduced to
//! one magnitude score per frequency bin, and for every configured frequency
//! band the bin with the greatest score is recorded, together with the
//! window's start time.
//!
//! Magnitude scores are `i64` order keys. The spectral transform itself works
//! on floating-point values and is performed by the caller, who maps each
//! bin's magnitude to an `i64` in an order-preserving way (non-finite
//! magnitudes map to `i64::MIN`, the minimum score). The peak search only
//! compares scores, so every property proved here holds for any such mapping.
//!
//! Timestamps are counted in samples: the frame for window `i` starts at
//! sample `i * window_size`, and `start_sample / sample_rate` is the start
//! time in seconds. Keeping the count in samples makes the timestamp sequence
//! exact; the caller divides when rendering seconds.

pub mod band;
pub mod chunk;
pub mod extract;
pub mod fingerprint;
