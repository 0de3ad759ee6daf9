use vstd::prelude::*;

use crate::matrix::{flat_index, lemma_flat_index_bounds, Matrix};

verus! {

/// Length of the FFT frame whose non-negative half has `freq_bins` bins.
pub open spec fn fft_size_of(freq_bins: nat) -> int {
    (freq_bins - 1) * 2
}

/// The FFT size inferred from `b >= 1` bins is `2 * (b - 1)`.
pub proof fn law_fft_size_of_bins(b: nat)
    requires
        b >= 1,
    ensures
        fft_size_of(b) == 2 * (b - 1),
{
}

/// The inverse undoes the forward bin count: a forward transform with FFT size `2 * n`
/// keeps `n + 1` bins, and `n + 1` bins give back the FFT size `2 * n`.
pub proof fn law_fft_size_inverts_bin_count(n: nat)
    ensures
        (2 * n) / 2 + 1 == n + 1,
        fft_size_of(((2 * n) / 2 + 1) as nat) == 2 * n,
{
}

/// Transforms a spectrogram back into PCM audio at `sample_rate`: inverse FFT of each
/// frame, then overlap-add with frames starting every `hop_size` samples.
pub struct SpectrogramToAudioTransformer {
    pub sample_rate: u32,
    pub hop_size: usize,
}

impl SpectrogramToAudioTransformer {
    /// A transformer producing audio at `sample_rate` Hz with the given hop.
    pub fn new(sample_rate: u32, hop_size: usize) -> (t: Self)
        ensures
            t.sample_rate == sample_rate,
            t.hop_size == hop_size,
    {
        SpectrogramToAudioTransformer { sample_rate, hop_size }
    }

    /// Audio at 44100 Hz from frames every 512 samples.
    pub fn default() -> (t: Self)
        ensures
            t.sample_rate == 44100,
            t.hop_size == 512,
    {
        SpectrogramToAudioTransformer { sample_rate: 44100, hop_size: 512 }
    }

    /// Length of the FFT frame whose non-negative half has `freq_bins` bins:
    /// `2 * (freq_bins - 1)`.
    pub fn fft_size_for(freq_bins: usize) -> (n: usize)
        requires
            freq_bins >= 1,
            fft_size_of(freq_bins as nat) <= usize::MAX,
        ensures
            n == fft_size_of(freq_bins as nat),
            n == 2 * (freq_bins - 1),
    {
        (freq_bins - 1) * 2
    }

    /// Number of output samples of the overlap-add of `time_frames` frames of `fft_size`
    /// samples: one hop per frame plus one full frame.
    pub fn output_len(&self, time_frames: usize, fft_size: usize) -> (n: usize)
        requires
            time_frames * self.hop_size + fft_size <= usize::MAX,
        ensures
            n == time_frames * self.hop_size + fft_size,
    {
        proof {
            assert(time_frames * self.hop_size <= time_frames * self.hop_size + fft_size);
        }
        time_frames * self.hop_size + fft_size
    }

    /// The full FFT frame of time frame `t`, with Hermitian symmetry: position `p` below the
    /// number of bins holds bin `p` of `spectrum`, and every position `p` above holds bin
    /// `fft_size - p` of `conjugates` (the conjugates of the bins of `spectrum`).
    pub fn hermitian_frame<T: Copy>(spectrum: &Matrix<T>, conjugates: &Matrix<T>, t: usize) -> (frame: Vec<T>)
        requires
            spectrum.num_rows() >= 2,
            fft_size_of(spectrum.num_rows()) <= usize::MAX,
            conjugates.num_rows() == spectrum.num_rows(),
            conjugates.num_cols() == spectrum.num_cols(),
            t < spectrum.num_cols(),
        ensures
            frame@.len() == fft_size_of(spectrum.num_rows()),
            frame@.len() == 2 * (spectrum.num_rows() - 1),
            forall|p: int| 0 <= p < spectrum.num_rows() ==> #[trigger] frame@[p] == spectrum.cells()[p
                * spectrum.num_cols() + t],
            forall|k: int|
                1 <= k < spectrum.num_rows() - 1 ==> #[trigger] frame@[2 * (spectrum.num_rows() - 1) - k]
                    == conjugates.cells()[k * conjugates.num_cols() + t],
            forall|p: int| 0 <= p < spectrum.num_rows() ==> #[trigger] frame@[p] == spectrum.at(p, t as int),
            forall|p: int|
                spectrum.num_rows() <= p < frame@.len() ==> #[trigger] frame@[p] == conjugates.at(
                    frame@.len() - p,
                    t as int,
                ),
            forall|k: int|
                1 <= k < spectrum.num_rows() - 1 ==> #[trigger] frame@[frame@.len() - k] == conjugates.at(
                    k,
                    t as int,
                ),
    {
        let bins = spectrum.rows();
        let cols = spectrum.cols();
        let crows = conjugates.rows();
        let fft_size = (bins - 1) * 2;
        let spectrum_cells = spectrum.data();
        let conjugate_cells = conjugates.data();
        let mut frame: Vec<T> = Vec::new();
        let mut p: usize = 0;
        while p < fft_size
            invariant
                spectrum.wf(),
                conjugates.wf(),
                spectrum_cells@ == spectrum.cells(),
                conjugate_cells@ == conjugates.cells(),
                bins == spectrum.num_rows(),
                cols == spectrum.num_cols(),
                crows == conjugates.num_rows(),
                crows == bins,
                conjugates.num_cols() == cols,
                bins >= 2,
                t < cols,
                fft_size == fft_size_of(bins as nat),
                p <= fft_size,
                frame@.len() == p,
                forall|q: int| 0 <= q < p && q < bins ==> #[trigger] frame@[q] == spectrum.at(q, t as int),
                forall|q: int| bins <= q < p ==> #[trigger] frame@[q] == conjugates.at(fft_size - q, t as int),
            decreases fft_size - p,
        {
            let v = if p < bins {
                proof {
                    lemma_flat_index_bounds(p as int, t as int, bins as int, cols as int);
                    assert(p * cols <= p * cols + t < spectrum_cells.len());
                }
                spectrum_cells[p * cols + t]
            } else {
                let k = fft_size - p;
                proof {
                    lemma_flat_index_bounds(k as int, t as int, bins as int, cols as int);
                    assert(k * cols <= k * cols + t < conjugate_cells.len());
                }
                conjugate_cells[k * cols + t]
            };
            frame.push(v);
            p = p + 1;
        }
        frame
    }
}

} // verus!
