//! Format-independent data that the transforms work on: text, raster images and opaque
//! binary data. (Audio signals and spectra hold floating-point samples and live with the
//! signal-processing code outside this crate.)
use vstd::prelude::*;

use crate::matrix::Matrix;

verus! {

/// Encoding of a text.
#[derive(Clone, Debug, PartialEq, Eq, Structural)]
pub enum TextEncoding {
    UTF8,
    ASCII,
    Latin1,
}

/// Symbolic data: text with its encoding.
#[derive(Clone, Debug)]
pub struct SymbolicData {
    pub content: String,
    pub encoding: TextEncoding,
}

impl SymbolicData {
    /// UTF-8 text.
    pub fn new(content: String) -> (d: Self)
        ensures
            d.content@ == content@,
            d.encoding == TextEncoding::UTF8,
    {
        SymbolicData { content, encoding: TextEncoding::UTF8 }
    }

    /// Text in the given encoding.
    pub fn with_encoding(content: String, encoding: TextEncoding) -> (d: Self)
        ensures
            d.content@ == content@,
            d.encoding == encoding,
    {
        SymbolicData { content, encoding }
    }

    /// Length of the text in bytes (of its UTF-8 encoding).
    pub fn len(&self) -> (n: usize)
        ensures
            n == vstd::utf8::encode_utf8(self.content@).len() as usize,
    {
        self.content.as_str().len()
    }

    /// Whether the text is empty.
    pub fn is_empty(&self) -> (b: bool)
        ensures
            b == (self.content@.len() == 0),
    {
        self.content.as_str().is_empty()
    }
}

/// RGB color pixel.
#[derive(Clone, Copy, Debug, PartialEq, Eq, Structural)]
pub struct Pixel {
    pub r: u8,
    pub g: u8,
    pub b: u8,
}

impl Pixel {
    /// The pixel with the given channels.
    pub fn new(r: u8, g: u8, b: u8) -> (p: Self)
        ensures
            p == (Pixel { r, g, b }),
    {
        Pixel { r, g, b }
    }

    /// A gray pixel: every channel holds `value`.
    pub fn grayscale(value: u8) -> (p: Self)
        ensures
            p == (Pixel { r: value, g: value, b: value }),
    {
        Pixel { r: value, g: value, b: value }
    }
}

/// Image in the pixel domain: `height` rows of `width` pixels.
#[derive(Clone, Debug)]
pub struct SpatialRaster {
    pub pixels: Matrix<Pixel>,
    pub width: u32,
    pub height: u32,
}

impl SpatialRaster {
    /// A raster from its pixels and dimensions, taken as given.
    pub fn new(pixels: Matrix<Pixel>, width: u32, height: u32) -> (s: Self)
        ensures
            s.pixels == pixels,
            s.width == width,
            s.height == height,
    {
        SpatialRaster { pixels, width, height }
    }

    /// A raster whose width is the number of columns of `matrix` and whose height is its
    /// number of rows (each taken modulo 2^32).
    pub fn from_matrix(matrix: Matrix<Pixel>) -> (s: Self)
        ensures
            s.pixels == matrix,
            s.width == matrix.num_cols() as u32,
            s.height == matrix.num_rows() as u32,
    {
        let (rows, cols) = matrix.dimensions();
        SpatialRaster { pixels: matrix, width: cols as u32, height: rows as u32 }
    }

    /// Number of pixels, `width * height`.
    pub fn len(&self) -> (n: usize)
        requires
            self.width * self.height <= u32::MAX,
        ensures
            n == self.width * self.height,
    {
        (self.width * self.height) as usize
    }

    /// Whether the raster holds no pixel.
    pub fn is_empty(&self) -> (b: bool)
        requires
            self.width * self.height <= u32::MAX,
        ensures
            b == (self.width * self.height == 0),
    {
        self.len() == 0
    }
}

/// Opaque binary data with a hint of its format (e.g. "MP3").
#[derive(Clone, Debug)]
pub struct BinaryBlob {
    pub data: Vec<u8>,
    pub format_hint: String,
}

impl BinaryBlob {
    /// A blob of the given bytes and format hint.
    pub fn new(data: Vec<u8>, format_hint: String) -> (b: Self)
        ensures
            b.data@ == data@,
            b.format_hint@ == format_hint@,
    {
        BinaryBlob { data, format_hint }
    }

    /// Number of bytes.
    pub fn len(&self) -> (n: usize)
        ensures
            n == self.data@.len(),
    {
        self.data.len()
    }

    /// Whether the blob holds no byte.
    pub fn is_empty(&self) -> (b: bool)
        ensures
            b == (self.data@.len() == 0),
    {
        self.data.len() == 0
    }
}

} // verus!
