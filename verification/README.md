# nyx

Cross-modal transformations between audio and images (spectrograms), written in Verus.

- `src/` — the verified library: errors and their messages, the generic `Matrix`
  container (row-major cells, transpose, element access), the format-independent data
  model (text, pixels, rasters, binary blobs), the frame layout of the short-time Fourier
  transform and of its inverse (frame starts, spectrogram assembly, Hermitian frames),
  the WAV sample-width decision and the RGB8 pixel-buffer layout of the image reader and
  writer.
- `app/` — the command-line program and everything that works on floating-point samples
  or files: WAV and PNG I/O (hound, image), windows and FFTs (rustfft, num-complex),
  signals, and the argument parsing (clap).
- `tests/` — tests of the library.
