use vstd::prelude::*;

use crate::domains::Rgb;
use crate::error::NyxResult;
use crate::matrix::{flat_index, lemma_flat_index_bounds, Matrix};

verus! {

/// The color of pixel `i` of a buffer of interleaved 8-bit R, G, B channels.
pub open spec fn rgb_at(bytes: Seq<u8>, i: int) -> Rgb {
    Rgb { r: bytes[3 * i], g: bytes[3 * i + 1], b: bytes[3 * i + 2] }
}

/// Pixel `i` of a buffer is read from bytes `3 * i`, `3 * i + 1` and `3 * i + 2`, as its red,
/// green and blue channels, whatever the length of the buffer.
pub proof fn law_rgb_at_reads_channels(bytes: Seq<u8>, i: int)
    ensures
        rgb_at(bytes, i).r == bytes[3 * i],
        rgb_at(bytes, i).g == bytes[3 * i + 1],
        rgb_at(bytes, i).b == bytes[3 * i + 2],
{
}

/// The pixels of a decoded `width` x `height` RGB8 image, given as its row-major buffer of
/// interleaved channels, as a `height` x `width` matrix: cell `(row, col)` is the pixel at
/// column `col` of row `row`.
pub fn pixels_from_rgb8(bytes: &[u8], width: usize, height: usize) -> (r: NyxResult<Matrix<Rgb>>)
    requires
        bytes@.len() == 3 * width * height,
    ensures
        r matches Ok(m) && m.num_rows() == height && m.num_cols() == width && m.wf() && forall|
            row: int,
            col: int,
        | 0 <= row < height && 0 <= col < width ==> #[trigger] m.at(row, col) == rgb_at(
            bytes@,
            flat_index(row, col, width as int),
        ),
        r matches Ok(m) && forall|row: int, col: int|
            0 <= row < height && 0 <= col < width ==> {
                &&& (#[trigger] m.cells()[row * width + col]).r == bytes@[3 * (row * width + col)]
                &&& m.cells()[row * width + col].g == bytes@[3 * (row * width + col) + 1]
                &&& m.cells()[row * width + col].b == bytes@[3 * (row * width + col) + 2]
            },
{
    proof {
        assert(bytes@.len() == bytes.len());
        assert(width * height <= 3 * width * height) by (nonlinear_arith);
    }
    let n = width * height;
    proof {
        assert(3 * n == 3 * width * height) by (nonlinear_arith)
            requires
                n == width * height,
        ;
    }
    let mut pixels: Vec<Rgb> = Vec::new();
    let mut i: usize = 0;
    while i < n
        invariant
            n == width * height,
            bytes@.len() == 3 * n,
            bytes@.len() == bytes.len(),
            i <= n,
            pixels@.len() == i,
            forall|j: int| 0 <= j < i ==> #[trigger] pixels@[j] == rgb_at(bytes@, j),
        decreases n - i,
    {
        let k = 3 * i;
        pixels.push(Rgb { r: bytes[k], g: bytes[k + 1], b: bytes[k + 2] });
        i = i + 1;
    }
    proof {
        assert(height * width == width * height) by (nonlinear_arith);
    }
    let r = Matrix::new(pixels, height, width);
    proof {
        if r is Ok {
            let m = r->Ok_0;
            assert forall|row: int, col: int|
                0 <= row < height && 0 <= col < width implies #[trigger] m.at(row, col) == rgb_at(
                bytes@,
                flat_index(row, col, width as int),
            ) by {
                lemma_flat_index_bounds(row, col, height as int, width as int);
            }
            assert forall|row: int, col: int| 0 <= row < height && 0 <= col < width implies {
                &&& (#[trigger] m.cells()[row * width + col]).r == bytes@[3 * (row * width + col)]
                &&& m.cells()[row * width + col].g == bytes@[3 * (row * width + col) + 1]
                &&& m.cells()[row * width + col].b == bytes@[3 * (row * width + col) + 2]
            } by {
                lemma_flat_index_bounds(row, col, height as int, width as int);
                assert(m.cells()[row * width + col] == rgb_at(bytes@, row * width + col));
            }
        }
    }
    r
}

} // verus!
