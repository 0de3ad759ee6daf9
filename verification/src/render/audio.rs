use vstd::prelude::*;

verus! {

/// Renders PCM audio to a mono 16-bit WAV file at `sample_rate`.
pub struct AudioRenderer {
    pub sample_rate: u32,
}

impl AudioRenderer {
    /// A renderer writing at `sample_rate` Hz.
    pub fn new(sample_rate: u32) -> (r: Self)
        ensures
            r.sample_rate == sample_rate,
    {
        AudioRenderer { sample_rate }
    }

    /// A renderer writing at 44100 Hz.
    pub fn default() -> (r: Self)
        ensures
            r.sample_rate == 44100,
    {
        AudioRenderer { sample_rate: 44100 }
    }
}

} // verus!
