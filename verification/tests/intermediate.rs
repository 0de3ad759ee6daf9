use nyx::domains::{Rgb, TextDomain};
use nyx::error::NyxError;
use nyx::intermediate::{BinaryBlob, Pixel, SpatialRaster, SymbolicData, TextEncoding};
use nyx::matrix::Matrix;

#[test]
fn test_pixel() {
    let p = Pixel::new(255, 128, 64);
    assert_eq!(p.r, 255);
    let g = Pixel::grayscale(128);
    assert_eq!(g.g, 128);
}

#[test]
fn test_symbolic_data() {
    let text = SymbolicData::new("Hello, nyx!".to_string());
    assert_eq!(text.len(), 11);
    assert!(!text.is_empty());
}

#[test]
fn symbolic_data_len_counts_bytes() {
    let text = SymbolicData::new("héllo €".to_string());
    assert_eq!(text.len(), 10);
    assert_eq!(text.encoding, TextEncoding::UTF8);
    let empty = SymbolicData::with_encoding(String::new(), TextEncoding::ASCII);
    assert!(empty.is_empty());
    assert_eq!(empty.len(), 0);
    assert_eq!(empty.encoding, TextEncoding::ASCII);
}

#[test]
fn pixel_channels() {
    assert_eq!(Pixel::new(1, 2, 3), Pixel { r: 1, g: 2, b: 3 });
    let g = Pixel::grayscale(9);
    assert_eq!((g.r, g.g, g.b), (9, 9, 9));
}

#[test]
fn rgb_channels() {
    assert_eq!(Rgb::new(4, 5, 6), Rgb { r: 4, g: 5, b: 6 });
    assert_eq!(Rgb::grayscale(200), Rgb { r: 200, g: 200, b: 200 });
}

#[test]
fn text_domain_holds_text() {
    let TextDomain::Plain(s) = TextDomain::Plain("abc".to_string());
    assert_eq!(s, "abc");
}

#[test]
fn spatial_raster_from_matrix() {
    let pixels = Matrix::filled(Pixel::grayscale(0), 2, 3);
    let raster = SpatialRaster::from_matrix(pixels);
    assert_eq!(raster.width, 3);
    assert_eq!(raster.height, 2);
    assert_eq!(raster.len(), 6);
    assert!(!raster.is_empty());
}

#[test]
fn spatial_raster_new_keeps_given_dimensions() {
    let pixels = Matrix::filled(Pixel::grayscale(0), 0, 0);
    let raster = SpatialRaster::new(pixels, 0, 4);
    assert_eq!(raster.len(), 0);
    assert!(raster.is_empty());
}

#[test]
fn binary_blob() {
    let blob = BinaryBlob::new(vec![1, 2, 3], "MP3".to_string());
    assert_eq!(blob.len(), 3);
    assert!(!blob.is_empty());
    assert_eq!(blob.format_hint, "MP3");
    assert!(BinaryBlob::new(vec![], "Custom".to_string()).is_empty());
}

#[test]
fn error_descriptions() {
    assert_eq!(NyxError::IoError("x".to_string()).to_string(), "IO Error: x");
    assert_eq!(NyxError::ParseError("y".to_string()).to_string(), "Parse Error: y");
    assert_eq!(NyxError::TransformError("z".to_string()).to_string(), "Transform Error: z");
    assert_eq!(NyxError::RenderError("w".to_string()).to_string(), "Render Error: w");
    assert_eq!(NyxError::InvalidInput("v".to_string()).to_string(), "Invalid Input: v");
}
