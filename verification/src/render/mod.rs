//! Output stages: configuration of the WAV and PNG renderers and the renderer interface.
pub mod audio;
pub mod image;

use vstd::prelude::*;

use crate::error::NyxResult;

verus! {

/// Renders a value of the domain `I` to a file.
pub trait Renderer<I> {
    /// Writes `input` to the file at `output_path`.
    fn render(&self, input: I, output_path: &str) -> NyxResult<()>;
}

} // verus!
