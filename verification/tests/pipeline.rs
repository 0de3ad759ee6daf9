use nyx::error::NyxError;
use nyx::matrix::Matrix;
use nyx::parser::audio::{sample_width, SampleWidth};
use nyx::parser::image::pixels_from_rgb8;
use nyx::domains::Rgb;
use nyx::render::audio::AudioRenderer;
use nyx::render::image::SpectrogramRenderer;
use nyx::transform::audio_to_image::AudioToSpectrogramTransformer;
use nyx::transform::image_to_audio::SpectrogramToAudioTransformer;

#[test]
fn transformer_configuration() {
    let t = AudioToSpectrogramTransformer::default();
    assert_eq!((t.fft_size, t.hop_size), (1024, 512));
    let t = AudioToSpectrogramTransformer::new(256, 64);
    assert_eq!((t.fft_size, t.hop_size), (256, 64));
    assert_eq!(t.num_frequency_bins(), 129);
    let i = SpectrogramToAudioTransformer::default();
    assert_eq!((i.sample_rate, i.hop_size), (44100, 512));
    let i = SpectrogramToAudioTransformer::new(8000, 128);
    assert_eq!((i.sample_rate, i.hop_size), (8000, 128));
}

#[test]
fn renderer_configuration() {
    assert_eq!(AudioRenderer::default().sample_rate, 44100);
    assert_eq!(AudioRenderer::new(22050).sample_rate, 22050);
    assert!(SpectrogramRenderer::default().normalize);
    assert!(!SpectrogramRenderer::new(false).normalize);
}

#[test]
fn frame_starts_every_hop() {
    let t = AudioToSpectrogramTransformer::new(1024, 512);
    assert_eq!(t.frame_starts(0), Vec::<usize>::new());
    assert_eq!(t.frame_starts(1), vec![0]);
    assert_eq!(t.frame_starts(512), vec![0]);
    assert_eq!(t.frame_starts(513), vec![0, 512]);
    assert_eq!(t.frame_starts(1500), vec![0, 512, 1024]);
    // one second at 44.1 kHz gives 87 frames
    assert_eq!(t.frame_starts(44100).len(), 87);
    // the last start lies just below the end without overflowing
    let t = AudioToSpectrogramTransformer::new(4, usize::MAX - 1);
    assert_eq!(t.frame_starts(usize::MAX), vec![0, usize::MAX - 1]);
}

#[test]
fn assemble_spectrogram_layout() {
    let t = AudioToSpectrogramTransformer::new(4, 2);
    let frames = vec![vec![1, 2, 3], vec![4, 5, 6]];
    let m = t.assemble_spectrogram(&frames).unwrap();
    assert_eq!(m.dimensions(), (3, 2));
    assert_eq!(m.data(), &[1, 4, 2, 5, 3, 6]);
    for f in 0..3 {
        for tt in 0..2 {
            assert_eq!(*m.get(f, tt).unwrap(), frames[tt][f]);
        }
    }
}

#[test]
fn assemble_spectrogram_needs_frames() {
    let t = AudioToSpectrogramTransformer::new(4, 2);
    let frames: Vec<Vec<u8>> = vec![];
    match t.assemble_spectrogram(&frames) {
        Err(NyxError::TransformError(msg)) => assert_eq!(msg, "No frames computed from audio"),
        _ => panic!("expected TransformError"),
    }
}

#[test]
fn inverse_sizes() {
    assert_eq!(SpectrogramToAudioTransformer::fft_size_for(513), 1024);
    assert_eq!(SpectrogramToAudioTransformer::fft_size_for(2), 2);
    let i = SpectrogramToAudioTransformer::new(44100, 512);
    assert_eq!(i.output_len(87, 1024), 87 * 512 + 1024);
}

#[test]
fn hermitian_frame_mirrors_bins() {
    // 4 bins x 2 frames; conjugates marked by negation
    let spectrum = Matrix::new(vec![10, 20, 11, 21, 12, 22, 13, 23], 4, 2).unwrap();
    let conj = Matrix::new(vec![-10, -20, -11, -21, -12, -22, -13, -23], 4, 2).unwrap();
    let f0 = SpectrogramToAudioTransformer::hermitian_frame(&spectrum, &conj, 0);
    assert_eq!(f0, vec![10, 11, 12, 13, -12, -11]);
    let f1 = SpectrogramToAudioTransformer::hermitian_frame(&spectrum, &conj, 1);
    assert_eq!(f1, vec![20, 21, 22, 23, -22, -21]);
    let two = Matrix::new(vec![1, 2], 2, 1).unwrap();
    let two_c = Matrix::new(vec![-1, -2], 2, 1).unwrap();
    assert_eq!(SpectrogramToAudioTransformer::hermitian_frame(&two, &two_c, 0), vec![1, 2]);
}

#[test]
fn wav_sample_widths() {
    assert_eq!(sample_width(16).unwrap(), SampleWidth::Bits16);
    assert_eq!(sample_width(32).unwrap(), SampleWidth::Bits32);
    match sample_width(24) {
        Err(NyxError::ParseError(msg)) => assert_eq!(msg, "Unsupported bits per sample: 24"),
        _ => panic!("expected ParseError"),
    }
    match sample_width(8) {
        Err(NyxError::ParseError(msg)) => assert_eq!(msg, "Unsupported bits per sample: 8"),
        _ => panic!("expected ParseError"),
    }
}

#[test]
fn rgb8_buffer_to_pixels() {
    // 3 columns x 2 rows
    let bytes: Vec<u8> = (0..18).collect();
    let m = pixels_from_rgb8(&bytes, 3, 2).unwrap();
    assert_eq!(m.dimensions(), (2, 3));
    assert_eq!(*m.get(0, 0).unwrap(), Rgb::new(0, 1, 2));
    assert_eq!(*m.get(0, 2).unwrap(), Rgb::new(6, 7, 8));
    assert_eq!(*m.get(1, 0).unwrap(), Rgb::new(9, 10, 11));
    assert_eq!(*m.get(1, 2).unwrap(), Rgb::new(15, 16, 17));
}

#[test]
fn rgb8_buffer_interleaves_channels() {
    let m = Matrix::new(vec![Rgb::new(1, 2, 3), Rgb::new(4, 5, 6), Rgb::new(7, 8, 9), Rgb::new(10, 11, 12)], 2, 2).unwrap();
    let bytes = SpectrogramRenderer::rgb8_buffer(&m);
    assert_eq!(bytes, vec![1, 2, 3, 4, 5, 6, 7, 8, 9, 10, 11, 12]);
}

#[test]
fn rgb8_buffer_reads_back() {
    let m = Matrix::new((0..6u8).map(|i| Rgb::new(i, 2 * i, 3 * i)).collect(), 2, 3).unwrap();
    let bytes = SpectrogramRenderer::rgb8_buffer(&m);
    let back = pixels_from_rgb8(&bytes, 3, 2).unwrap();
    assert_eq!(back.dimensions(), (2, 3));
    assert_eq!(back.data(), m.data());
}

#[test]
fn readme_spectrogram_size() {
    // two seconds at 44.1 kHz with 1024-point frames every 512 samples: 513 x 173
    let t = AudioToSpectrogramTransformer::new(1024, 512);
    assert_eq!(t.num_frequency_bins(), 513);
    assert_eq!(t.frame_starts(88200).len(), 173);
}
