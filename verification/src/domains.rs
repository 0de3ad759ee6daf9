//! Pixel and text domains of the transform pipeline. (The audio and frequency domains hold
//! floating-point data and live with the signal-processing code outside this crate.)
use vstd::prelude::*;

verus! {

/// Simple RGB color.
#[derive(Clone, Copy, Debug, PartialEq, Eq, Structural)]
pub struct Rgb {
    pub r: u8,
    pub g: u8,
    pub b: u8,
}

impl Rgb {
    /// The color with the given channels.
    pub fn new(r: u8, g: u8, b: u8) -> (c: Self)
        ensures
            c == (Rgb { r, g, b }),
    {
        Rgb { r, g, b }
    }

    /// Grayscale: all channels equal `value`.
    pub fn grayscale(value: u8) -> (c: Self)
        ensures
            c == (Rgb { r: value, g: value, b: value }),
    {
        Rgb { r: value, g: value, b: value }
    }
}

/// Text domain.
#[derive(Clone, Debug)]
pub enum TextDomain {
    Plain(String),
}

} // verus!
