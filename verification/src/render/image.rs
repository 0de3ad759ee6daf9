use vstd::prelude::*;

use crate::domains::Rgb;
use crate::matrix::{flat_index, Matrix};
use crate::parser::image::rgb_at;

verus! {

/// The interleaved 8-bit R, G, B channels of a sequence of pixels.
pub open spec fn rgb8_bytes(pixels: Seq<Rgb>) -> Seq<u8> {
    Seq::new(3 * pixels.len(), |j: int| {
        let p = pixels[j / 3];
        if j % 3 == 0 {
            p.r
        } else if j % 3 == 1 {
            p.g
        } else {
            p.b
        }
    })
}

/// The buffer of `n` pixels has `3 * n` bytes: pixel `i` is bytes `3 * i`, `3 * i + 1` and
/// `3 * i + 2`, holding its red, green and blue channels in that order.
pub proof fn law_rgb8_bytes_layout(pixels: Seq<Rgb>, i: int)
    requires
        0 <= i < pixels.len(),
    ensures
        rgb8_bytes(pixels).len() == 3 * pixels.len(),
        rgb8_bytes(pixels)[3 * i] == pixels[i].r,
        rgb8_bytes(pixels)[3 * i + 1] == pixels[i].g,
        rgb8_bytes(pixels)[3 * i + 2] == pixels[i].b,
{
    vstd::arithmetic::div_mod::lemma_fundamental_div_mod_converse(3 * i, 3, i, 0);
    vstd::arithmetic::div_mod::lemma_fundamental_div_mod_converse(3 * i + 1, 3, i, 1);
    vstd::arithmetic::div_mod::lemma_fundamental_div_mod_converse(3 * i + 2, 3, i, 2);
}

/// Decoding the interleaved channels of a sequence of pixels gives every pixel back.
pub proof fn law_rgb8_roundtrip(pixels: Seq<Rgb>, i: int)
    requires
        0 <= i < pixels.len(),
    ensures
        rgb_at(rgb8_bytes(pixels), i) == pixels[i],
{
    let bytes = rgb8_bytes(pixels);
    assert forall|k: int| 0 <= k < 3 implies (#[trigger] ((3 * i + k) / 3)) == i && (3 * i + k) % 3 == k by {
        vstd::arithmetic::div_mod::lemma_fundamental_div_mod_converse(3 * i + k, 3, i, k);
    }
    assert((3 * i + 0) / 3 == i);
    assert((3 * i + 1) / 3 == i);
    assert((3 * i + 2) / 3 == i);
}

/// Reading back a rendered image gives the matrix that was rendered: a matrix decoded from
/// the RGB8 buffer of `m` (as `pixels_from_rgb8` decodes it, with the dimensions of `m`)
/// holds the cells of `m`.
pub proof fn law_image_buffer_roundtrip(m: Matrix<Rgb>, decoded: Matrix<Rgb>)
    requires
        m.wf(),
        decoded.wf(),
        decoded.num_rows() == m.num_rows(),
        decoded.num_cols() == m.num_cols(),
        forall|row: int, col: int|
            0 <= row < m.num_rows() && 0 <= col < m.num_cols() ==> #[trigger] decoded.at(row, col)
                == rgb_at(rgb8_bytes(m.cells()), flat_index(row, col, m.num_cols() as int)),
    ensures
        decoded.cells() == m.cells(),
{
    let cols = m.num_cols() as int;
    assert forall|i: int| 0 <= i < m.cells().len() implies #[trigger] decoded.cells()[i] == m.cells()[i] by {
        assert(cols > 0) by (nonlinear_arith)
            requires
                0 <= i < m.num_rows() * m.num_cols(),
                m.num_cols() == cols,
        ;
        let row = i / cols;
        let col = i % cols;
        vstd::arithmetic::div_mod::lemma_fundamental_div_mod(i, cols);
        vstd::arithmetic::div_mod::lemma_mod_pos_bound(i, cols);
        assert(i == flat_index(row, col, cols)) by (nonlinear_arith)
            requires
                i == cols * row + col,
        ;
        assert(0 <= row < m.num_rows()) by (nonlinear_arith)
            requires
                i == cols * row + col,
                0 <= col < cols,
                0 <= i < m.num_rows() * cols,
        ;
        law_rgb8_roundtrip(m.cells(), i);
        assert(decoded.at(row, col) == rgb_at(rgb8_bytes(m.cells()), i));
    }
    assert(decoded.cells() =~= m.cells());
}

/// Renders a spectrogram to a PNG image; with `normalize`, magnitudes are scaled to the
/// full range of a byte.
pub struct SpectrogramRenderer {
    pub normalize: bool,
}

impl SpectrogramRenderer {
    /// A renderer that normalizes magnitudes when `normalize` is set.
    pub fn new(normalize: bool) -> (r: Self)
        ensures
            r.normalize == normalize,
    {
        SpectrogramRenderer { normalize }
    }

    /// A renderer that normalizes magnitudes.
    pub fn default() -> (r: Self)
        ensures
            r.normalize,
    {
        SpectrogramRenderer { normalize: true }
    }

    /// The image buffer of a matrix of colors: its cells row by row, each as its R, G and B
    /// bytes (the row-major RGB8 layout of an image of `num_cols` x `num_rows` pixels).
    pub fn rgb8_buffer(pixels: &Matrix<Rgb>) -> (bytes: Vec<u8>)
        requires
            3 * pixels.cells().len() <= usize::MAX,
        ensures
            bytes@ == rgb8_bytes(pixels.cells()),
            bytes@.len() == 3 * pixels.cells().len(),
            forall|i: int|
                0 <= i < pixels.cells().len() ==> {
                    &&& bytes@[3 * i] == (#[trigger] pixels.cells()[i]).r
                    &&& bytes@[3 * i + 1] == pixels.cells()[i].g
                    &&& bytes@[3 * i + 2] == pixels.cells()[i].b
                },
    {
        let cells = pixels.data();
        let n = cells.len();
        let mut bytes: Vec<u8> = Vec::new();
        let mut i: usize = 0;
        while i < n
            invariant
                n == cells@.len(),
                cells@ == pixels.cells(),
                3 * n <= usize::MAX,
                i <= n,
                bytes@.len() == 3 * i,
                forall|j: int| 0 <= j < 3 * i ==> #[trigger] bytes@[j] == rgb8_bytes(cells@)[j],
            decreases n - i,
        {
            let p = cells[i];
            let ghost before = bytes@;
            bytes.push(p.r);
            bytes.push(p.g);
            bytes.push(p.b);
            proof {
                assert forall|j: int| 0 <= j < 3 * i + 3 implies #[trigger] bytes@[j] == rgb8_bytes(cells@)[j] by {
                    if j >= 3 * i {
                        let k = j - 3 * i;
                        vstd::arithmetic::div_mod::lemma_fundamental_div_mod_converse(j, 3, i as int, k);
                    }
                }
            }
            i = i + 1;
        }
        proof {
            assert(bytes@ =~= rgb8_bytes(cells@));
            assert forall|i: int| 0 <= i < cells@.len() implies {
                &&& bytes@[3 * i] == (#[trigger] pixels.cells()[i]).r
                &&& bytes@[3 * i + 1] == pixels.cells()[i].g
                &&& bytes@[3 * i + 2] == pixels.cells()[i].b
            } by {
                law_rgb8_bytes_layout(cells@, i);
            }
        }
        bytes
    }
}

} // verus!
