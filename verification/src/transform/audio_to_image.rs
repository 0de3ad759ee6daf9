use vstd::prelude::*;

use crate::error::{NyxError, NyxResult};
use crate::matrix::{flat_index, lemma_flat_index_bounds, Matrix};

verus! {

/// Number of analysis frames of `num_samples` samples when a frame starts every `hop`
/// samples: one per multiple of `hop` below `num_samples`.
pub open spec fn frame_count(num_samples: nat, hop: nat) -> nat
    recommends
        hop > 0,
{
    if num_samples == 0 {
        0
    } else {
        ((num_samples - 1) as nat / hop) + 1
    }
}

/// The frame count is the least number of hops that reaches the end of the signal: no
/// frame for no sample, otherwise the last frame starts before the end and one more hop
/// passes it.
pub proof fn law_frame_count_bounds(num_samples: nat, hop: nat)
    requires
        hop > 0,
    ensures
        frame_count(num_samples, hop) == 0 <==> num_samples == 0,
        num_samples <= frame_count(num_samples, hop) * hop,
        num_samples > 0 ==> (frame_count(num_samples, hop) - 1) * hop < num_samples,
{
    if num_samples > 0 {
        let q = ((num_samples - 1) as nat / hop) as int;
        let m = (num_samples - 1) as int;
        vstd::arithmetic::div_mod::lemma_fundamental_div_mod(m, hop as int);
        vstd::arithmetic::div_mod::lemma_mod_pos_bound(m, hop as int);
        assert(q * hop <= m < (q + 1) * hop) by (nonlinear_arith)
            requires
                m == hop * q + m % (hop as int),
                0 <= m % (hop as int) < hop,
        ;
    }
}

/// The frames cover the whole signal: sample `s` lies in the frame `s / hop`, which is
/// one of the frames, starts at or before `s`, and the next frame starts after `s`.
pub proof fn law_frames_cover_samples(num_samples: nat, hop: nat, s: nat)
    requires
        hop > 0,
        s < num_samples,
    ensures
        s / hop < frame_count(num_samples, hop),
        (s / hop) * hop <= s < (s / hop) * hop + hop,
{
    vstd::arithmetic::div_mod::lemma_fundamental_div_mod(s as int, hop as int);
    vstd::arithmetic::div_mod::lemma_mod_pos_bound(s as int, hop as int);
    vstd::arithmetic::div_mod::lemma_div_is_ordered(s as int, (num_samples - 1) as int, hop as int);
    assert((s / hop) * hop == hop * (s / hop)) by (nonlinear_arith);
}

/// Message of the error returned when the audio yields no frame.
pub open spec fn no_frames_message() -> Seq<char> {
    "No frames computed from audio"@
}

/// Transforms PCM audio into a spectrogram: short-time Fourier transform with frames of
/// `fft_size` samples starting every `hop_size` samples.
pub struct AudioToSpectrogramTransformer {
    pub fft_size: usize,
    pub hop_size: usize,
}

impl AudioToSpectrogramTransformer {
    /// A transformer with the given frame length and hop.
    pub fn new(fft_size: usize, hop_size: usize) -> (t: Self)
        ensures
            t.fft_size == fft_size,
            t.hop_size == hop_size,
    {
        AudioToSpectrogramTransformer { fft_size, hop_size }
    }

    /// Frames of 1024 samples every 512 samples.
    pub fn default() -> (t: Self)
        ensures
            t.fft_size == 1024,
            t.hop_size == 512,
    {
        AudioToSpectrogramTransformer { fft_size: 1024, hop_size: 512 }
    }

    /// Number of frequency bins kept per frame: the non-negative frequencies up to Nyquist.
    pub fn num_frequency_bins(&self) -> (n: usize)
        ensures
            n == self.fft_size / 2 + 1,
    {
        self.fft_size / 2 + 1
    }

    /// First sample of each analysis frame: every `hop_size`-th sample of the audio.
    pub fn frame_starts(&self, num_samples: usize) -> (starts: Vec<usize>)
        requires
            self.hop_size > 0,
        ensures
            starts@.len() == frame_count(num_samples as nat, self.hop_size as nat),
            forall|i: int| 0 <= i < starts@.len() ==> #[trigger] starts@[i] == i * self.hop_size,
            forall|i: int| 0 <= i < starts@.len() ==> #[trigger] starts@[i] < num_samples,
            num_samples <= starts@.len() * self.hop_size,
    {
        let hop = self.hop_size;
        let mut starts: Vec<usize> = Vec::new();
        let mut start: usize = 0;
        assert(starts@.len() * hop == 0) by (nonlinear_arith)
            requires
                starts@.len() == 0,
        ;
        while start < num_samples
            invariant_except_break
                hop > 0,
                start < num_samples ==> start == starts@.len() * hop,
                start >= num_samples ==> num_samples == 0 && starts@.len() == 0,
            invariant
                hop == self.hop_size,
                forall|i: int| 0 <= i < starts@.len() ==> #[trigger] starts@[i] == i * hop,
                forall|i: int| 0 <= i < starts@.len() ==> #[trigger] starts@[i] < num_samples,
            ensures
                starts@.len() == frame_count(num_samples as nat, hop as nat),
            decreases num_samples - start,
        {
            starts.push(start);
            proof {
                assert(starts@[starts@.len() - 1] == start);
            }
            if hop >= num_samples - start {
                proof {
                    let k = (starts@.len() - 1) as int;
                    assert(start == k * hop);
                    assert((num_samples - 1) as nat / (hop as nat) == k) by (nonlinear_arith)
                        requires
                            start == k * hop,
                            start < num_samples,
                            num_samples - start <= hop,
                            hop > 0,
                            k >= 0,
                    {
                        vstd::arithmetic::div_mod::lemma_fundamental_div_mod_converse(
                            (num_samples - 1) as int,
                            hop as int,
                            k,
                            (num_samples - 1 - start) as int,
                        );
                    }
                }
                break;
            }
            proof {
                assert((starts@.len()) * hop == start + hop) by (nonlinear_arith)
                    requires
                        start == (starts@.len() - 1) * hop,
                ;
            }
            start = start + hop;
        }
        proof {
            law_frame_count_bounds(num_samples as nat, self.hop_size as nat);
        }
        starts
    }

    /// Lays the spectra of the frames out as a spectrogram: row `f`, column `t` holds bin
    /// `f` of frame `t`. Each frame holds `num_frequency_bins()` bins; fails when there is
    /// no frame.
    pub fn assemble_spectrogram<T: Copy>(&self, frames: &Vec<Vec<T>>) -> (r: NyxResult<Matrix<T>>)
        requires
            forall|t: int| 0 <= t < frames@.len() ==> #[trigger] frames@[t]@.len() == self.fft_size / 2 + 1,
            frames@.len() * (self.fft_size / 2 + 1) <= usize::MAX,
        ensures
            r is Ok <==> frames@.len() > 0,
            r matches Ok(m) ==> {
                &&& m.num_rows() == self.fft_size / 2 + 1
                &&& m.num_cols() == frames@.len()
                &&& m.wf()
                &&& forall|f: int, t: int|
                    0 <= f < m.num_rows() && 0 <= t < m.num_cols() ==> #[trigger] m.at(f, t)
                        == frames@[t]@[f]
                &&& forall|f: int, t: int|
                    0 <= f < m.num_rows() && 0 <= t < m.num_cols() ==> #[trigger] m.cells()[f
                        * frames@.len() + t] == frames@[t]@[f]
            },
            r matches Err(e) ==> e matches NyxError::TransformError(msg) && msg@ == no_frames_message(),
    {
        if frames.len() == 0 {
            proof {
                reveal_strlit("No frames computed from audio");
            }
            return Err(NyxError::TransformError("No frames computed from audio".to_owned()));
        }
        let bins = self.fft_size / 2 + 1;
        let time_frames = frames.len();
        let mut data: Vec<T> = Vec::new();
        let mut f: usize = 0;
        while f < bins
            invariant
                bins == self.fft_size / 2 + 1,
                time_frames == frames@.len(),
                time_frames * bins <= usize::MAX,
                forall|t: int| 0 <= t < frames@.len() ==> #[trigger] frames@[t]@.len() == bins,
                f <= bins,
                data@.len() == f * time_frames,
                forall|ff: int, t: int|
                    0 <= ff < f && 0 <= t < time_frames ==> data@[flat_index(ff, t, time_frames as int)]
                        == #[trigger] frames@[t]@[ff],
            decreases bins - f,
        {
            let mut t: usize = 0;
            while t < time_frames
                invariant
                    bins == self.fft_size / 2 + 1,
                    time_frames == frames@.len(),
                    time_frames * bins <= usize::MAX,
                    forall|t: int| 0 <= t < frames@.len() ==> #[trigger] frames@[t]@.len() == bins,
                    f < bins,
                    t <= time_frames,
                    data@.len() == f * time_frames + t,
                    forall|ff: int, tt: int|
                        0 <= ff < f && 0 <= tt < time_frames ==> data@[flat_index(ff, tt, time_frames as int)]
                            == #[trigger] frames@[tt]@[ff],
                    forall|tt: int|
                        0 <= tt < t ==> data@[flat_index(f as int, tt, time_frames as int)]
                            == #[trigger] frames@[tt]@[f as int],
                decreases time_frames - t,
            {
                proof {
                    assert(f * time_frames + t < time_frames * bins) by (nonlinear_arith)
                        requires
                            f < bins,
                            t < time_frames,
                    ;
                }
                let ghost before = data@;
                data.push(frames[t][f]);
                proof {
                    assert forall|ff: int, tt: int|
                        0 <= ff < f && 0 <= tt < time_frames implies data@[flat_index(ff, tt, time_frames as int)]
                            == #[trigger] frames@[tt]@[ff] by {
                        lemma_flat_index_bounds(ff, tt, f as int, time_frames as int);
                    }
                    assert forall|tt: int|
                        0 <= tt < t + 1 implies data@[flat_index(f as int, tt, time_frames as int)]
                            == #[trigger] frames@[tt]@[f as int] by {
                        if tt < t {
                            assert(flat_index(f as int, tt, time_frames as int) < before.len());
                        }
                    }
                }
                t = t + 1;
            }
            proof {
                assert((f + 1) * time_frames == f * time_frames + time_frames) by (nonlinear_arith);
            }
            f = f + 1;
        }
        proof {
            assert(time_frames * bins == bins * time_frames) by (nonlinear_arith);
        }
        Matrix::new(data, bins, time_frames)
    }
}

} // verus!
