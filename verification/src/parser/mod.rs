//! Input stages: the decisions and layouts of the WAV and image parsers. (Opening and
//! decoding the files is done outside this crate.)
pub mod audio;
pub mod image;
