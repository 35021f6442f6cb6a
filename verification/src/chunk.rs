//! Chunking: cutting the sample stream into fixed-size analysis windows,
//! zero-padding the final partial window.

use vstd::prelude::*;
use vstd::arithmetic::div_mod::{lemma_basic_div, lemma_div_plus_one};

verus! {

/// How many windows of size `n` a stream of `m` samples yields: one per `n`
/// samples begun. No window is started once the stream is exhausted.
pub open spec fn num_windows(m: int, n: int) -> int
    recommends
        n >= 1,
        m >= 0,
    decreases m when n >= 1
{
    if m <= 0 {
        0
    } else if m <= n {
        1
    } else {
        1 + num_windows(m - n, n)
    }
}

/// The sample at stream position `idx`, with positions past the end reading
/// as silence.
pub open spec fn padded_sample(samples: Seq<i16>, idx: int) -> i16 {
    if 0 <= idx < samples.len() {
        samples[idx]
    } else {
        0
    }
}

/// The window count is the ceiling of `m / n`.
pub proof fn lemma_num_windows_is_ceil(m: int, n: int)
    requires
        n >= 1,
        m >= 0,
    ensures
        num_windows(m, n) == (m + n - 1) / n,
    decreases m,
{
    if m == 0 {
        lemma_basic_div(n - 1, n);
    } else if m <= n {
        lemma_basic_div(m - 1, n);
        lemma_div_plus_one(m - 1, n);
    } else {
        lemma_num_windows_is_ceil(m - n, n);
        lemma_div_plus_one(m - 1, n);
    }
}

/// A stream of exactly `q` full windows yields `q` windows: no extra
/// zero-padded window is produced when the length is an exact multiple of `n`.
pub proof fn lemma_num_windows_exact(q: int, n: int)
    requires
        n >= 1,
        q >= 0,
    ensures
        num_windows(q * n, n) == q,
    decreases q,
{
    if q == 0 {
        assert(q * n == 0) by (nonlinear_arith)
            requires
                q == 0,
        ;
    } else if q == 1 {
        assert(q * n == n) by (nonlinear_arith)
            requires
                q == 1,
        ;
    } else {
        lemma_num_windows_exact(q - 1, n);
        assert(q * n - n == (q - 1) * n) by (nonlinear_arith);
        assert(q * n > n) by (nonlinear_arith)
            requires
                q >= 2,
                n >= 1,
        ;
    }
}

/// A stream of `q` full windows and a non-empty remainder shorter than `n`
/// yields `q + 1` windows, the last one padded.
pub proof fn lemma_num_windows_partial(q: int, n: int, rem: int)
    requires
        n >= 1,
        q >= 0,
        0 < rem < n,
    ensures
        num_windows(q * n + rem, n) == q + 1,
    decreases q,
{
    if q == 0 {
        assert(q * n + rem == rem) by (nonlinear_arith)
            requires
                q == 0,
        ;
    } else {
        lemma_num_windows_partial(q - 1, n, rem);
        assert(q * n + rem - n == (q - 1) * n + rem) by (nonlinear_arith);
        assert(q * n + rem > n) by (nonlinear_arith)
            requires
                q >= 1,
                n >= 1,
                rem > 0,
        ;
    }
}

/// The views of a sequence of sample windows.
pub open spec fn window_seqs(ws: Seq<Vec<i16>>) -> Seq<Seq<i16>> {
    ws.map_values(|w: Vec<i16>| w@)
}

/// `windows` is the chunking of `samples` into windows of `n`: one window per
/// `n` samples begun, each of length exactly `n`, window `i` reading stream
/// positions `[i * n, (i + 1) * n)` with silence past the stream's end. This
/// pins every window and every sample, so any two chunkings of the same
/// stream are equal.
pub open spec fn chunks_match(windows: Seq<Seq<i16>>, samples: Seq<i16>, n: int) -> bool {
    &&& windows.len() == num_windows(samples.len() as int, n)
    &&& forall|i: int| 0 <= i < windows.len() ==> (#[trigger] windows[i]).len() == n
    &&& forall|i: int, j: int|
        0 <= i < windows.len() && 0 <= j < n ==> (#[trigger] windows[i][j]) == padded_sample(
            samples,
            i * n + j,
        )
}

/// The chunking contract pins its result: two chunkings of the same stream
/// under the same window size agree window by window.
pub proof fn lemma_chunks_deterministic(
    w1: Seq<Seq<i16>>,
    w2: Seq<Seq<i16>>,
    samples: Seq<i16>,
    n: int,
)
    requires
        n >= 1,
        chunks_match(w1, samples, n),
        chunks_match(w2, samples, n),
    ensures
        w1 == w2,
{
    assert forall|i: int| 0 <= i < w1.len() implies w1[i] =~= w2[i] by {
        assert(forall|j: int| 0 <= j < n ==> w1[i][j] == #[trigger] w2[i][j]);
    }
    assert(w1 =~~= w2);
}

/// Cut `samples` into windows of exactly `n` samples each, in stream order,
/// reading silence past the end of the stream: window `i` holds stream
/// positions `[i * n, (i + 1) * n)`. A window is begun exactly for each `n`
/// samples the stream starts, so the final window is zero-padded when the
/// stream's length is not a multiple of `n`, and no all-padding window ever
/// appears.
pub fn chunk_windows(samples: &Vec<i16>, n: usize) -> (r: Vec<Vec<i16>>)
    requires
        n >= 1,
        samples.len() + n <= usize::MAX,
    ensures
        r@.len() == num_windows(samples@.len() as int, n as int),
        forall|i: int| 0 <= i < r@.len() ==> (#[trigger] r@[i])@.len() == n as int,
        forall|i: int, j: int|
            0 <= i < r@.len() && 0 <= j < n ==> #[trigger] r@[i]@[j] == padded_sample(
                samples@,
                i * (n as int) + j,
            ),
        chunks_match(window_seqs(r@), samples@, n as int),
{
    let m = samples.len();
    let mut r: Vec<Vec<i16>> = Vec::new();
    let mut pos: usize = 0;
    proof {
        assert(r@.len() * (n as int) == 0) by (nonlinear_arith)
            requires
                r@.len() == 0,
        ;
    }
    while pos < m
        invariant
            n >= 1,
            m == samples@.len(),
            m + n <= usize::MAX,
            pos == r@.len() * (n as int),
            pos <= m + n,
            num_windows(m as int, n as int) == r@.len() + num_windows(m - pos, n as int),
            forall|i: int| 0 <= i < r@.len() ==> (#[trigger] r@[i])@.len() == n as int,
            forall|i: int, j: int|
                0 <= i < r@.len() && 0 <= j < n ==> #[trigger] r@[i]@[j] == padded_sample(
                    samples@,
                    i * (n as int) + j,
                ),
        decreases m + n - pos,
    {
        let mut w: Vec<i16> = Vec::new();
        let mut j: usize = 0;
        while j < n
            invariant
                j <= n,
                pos < m,
                m == samples@.len(),
                m + n <= usize::MAX,
                w@.len() == j,
                forall|t: int|
                    0 <= t < j ==> #[trigger] w@[t] == padded_sample(samples@, pos + t),
            decreases n - j,
        {
            if j < m - pos {
                let s = samples[pos + j];
                w.push(s);
            } else {
                w.push(0i16);
            }
            j = j + 1;
        }
        proof {
            assert((r@.len() + 1) * (n as int) == r@.len() * (n as int) + n) by (nonlinear_arith);
        }
        r.push(w);
        pos = pos + n;
    }
    proof {
        assert(forall|i: int| 0 <= i < r@.len() ==> #[trigger] window_seqs(r@)[i] == r@[i]@);
    }
    r
}

} // verus!
