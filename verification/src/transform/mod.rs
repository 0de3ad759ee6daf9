//! Transformations between domains: configuration of the spectrogram transforms, the index
//! logic of the short-time Fourier transform and of its inverse, and the transformer
//! interface.
pub mod audio_to_image;
pub mod image_to_audio;

use vstd::prelude::*;

use crate::error::NyxResult;

verus! {

/// Transforms a value of the domain `I` into one of the domain `O`.
pub trait Transformer<I, O> {
    /// The transformed value, or the reason the input cannot be transformed.
    fn transform(&self, input: I) -> NyxResult<O>;
}

} // verus!
