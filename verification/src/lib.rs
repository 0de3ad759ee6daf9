//! nyx: a cross-modal transformation library (audio, images, text).
//!
//! The verified part of the library holds the data model, the matrix
//! container and the index logic of the spectrogram transforms.

pub mod error;
pub mod matrix;
pub mod intermediate;
pub mod domains;
pub mod render;
pub mod transform;
pub mod parser;
