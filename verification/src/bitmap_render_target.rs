//! Pixel work on what a bitmap render target has drawn.

use vstd::prelude::*;

verus! {

/// A colour as the system packs it: red in the low byte, then green,
/// then blue, and a zero top byte.
pub open spec fn colorref(r: u8, g: u8, b: u8) -> u32 {
    (r as u32 + 256 * (g as u32) + 65536 * (b as u32)) as u32
}

/// Packs the three channels of a colour into the word that the system
/// takes.
pub fn pack_colorref(r: u8, g: u8, b: u8) -> (packed: u32)
    ensures
        packed == colorref(r, g, b),
        packed <= 0x00ff_ffff,
{
    let packed: u32 = (r as u32) | ((g as u32) << 8) | ((b as u32) << 16);
    assert(((r as u32) | ((g as u32) << 8) | ((b as u32) << 16)) == (r as u32 + 256 * (g as u32)
        + 65536 * (b as u32)) as u32) by (bit_vector);
    packed
}

/// The position of a pixel in a bitmap without padding, rows first.
pub open spec fn pixel_index(width: int, row: int, col: int) -> int {
    width * row + col
}

/// Whether a bitmap of `bits_len` bytes, with rows of `width` pixels of
/// four bytes that start `stride` bytes apart, holds all of its `height`
/// rows, and the mask made from it has a length that can be held.
pub open spec fn mask_fits(bits_len: nat, width: nat, stride: nat, height: nat) -> bool {
    &&& 4 * width * height <= usize::MAX
    &&& (width > 0 && height > 0) ==> (height - 1) * stride + 4 * width <= bits_len
}

/// Whether `mask` is the opaque mask of the bitmap `bits`: four bytes
/// for each pixel, rows first and without padding, of which the first
/// three are `0xff` and the last is the first byte of the pixel in the
/// bitmap, its coverage.
pub open spec fn is_opaque_mask(
    bits: Seq<u8>,
    width: nat,
    stride: nat,
    height: nat,
    mask: Seq<u8>,
) -> bool {
    &&& mask.len() == 4 * width * height
    &&& forall|row: int, col: int|
        #![trigger pixel_index(width as int, row, col)]
        0 <= row < height && 0 <= col < width ==> {
            let at = 4 * pixel_index(width as int, row, col);
            &&& 0 <= at && at + 3 < mask.len()
            &&& mask[at] == 0xff
            &&& mask[at + 1] == 0xff
            &&& mask[at + 2] == 0xff
            &&& mask[at + 3] == bits[row * stride + 4 * col]
        }
}

proof fn lemma_pixel_bounds(width: int, height: int, row: int, col: int)
    requires
        0 <= row < height,
        0 <= col < width,
    ensures
        0 <= pixel_index(width, row, col) < width * height,
        pixel_index(width, row, col) + 1 <= pixel_index(width, row + 1, 0),
        pixel_index(width, row + 1, 0) <= width * height,
{
    assert(width * row + width == width * (row + 1)) by (nonlinear_arith);
    assert(width * (row + 1) <= width * height) by (nonlinear_arith)
        requires
            row + 1 <= height,
            0 <= width,
    ;
    assert(0 <= width * row) by (nonlinear_arith)
        requires
            0 <= row,
            0 <= width,
    ;
}

proof fn lemma_pixel_source(stride: int, height: int, row: int)
    requires
        0 <= row < height,
        0 <= stride,
    ensures
        0 <= row * stride <= (height - 1) * stride,
{
    assert(0 <= row * stride <= (height - 1) * stride) by (nonlinear_arith)
        requires
            0 <= row <= height - 1,
            0 <= stride,
    ;
}

/// Tells whether a bitmap can be turned into a mask: whether all of its
/// rows lie inside `bits_len` bytes and the mask's length can be held.
pub fn mask_request_fits(bits_len: usize, width: usize, stride: usize, height: usize) -> (fits:
    bool)
    ensures
        fits == mask_fits(bits_len as nat, width as nat, stride as nat, height as nat),
{
    let pixels = match width.checked_mul(height) {
        Some(p) => p,
        None => {
            assert(4 * width * height > usize::MAX) by (nonlinear_arith)
                requires
                    width * height > usize::MAX,
            ;
            return false;
        },
    };
    assert(4 * width * height == 4 * (width * height)) by (nonlinear_arith);
    if pixels.checked_mul(4).is_none() {
        return false;
    }
    if width == 0 || height == 0 {
        return true;
    }
    let last_row = match (height - 1).checked_mul(stride) {
        Some(s) => s,
        None => {
            return false;
        },
    };
    // 4 * width cannot overflow: it is at most 4 * width * height.
    assert(4 * width <= 4 * (width * height)) by (nonlinear_arith)
        requires
            height >= 1,
            width >= 0,
    ;
    match last_row.checked_add(4 * width) {
        Some(end) => end <= bits_len,
        None => false,
    }
}

/// Makes the opaque mask of a bitmap in which glyphs were drawn in
/// white: for each pixel the coverage, read from the pixel's first byte,
/// goes to the last of four bytes and the other three are `0xff`.
///
/// `bits` holds the bitmap, `stride` the distance in bytes between the
/// starts of two rows, `width` and `height` its size in pixels of four
/// bytes each.
pub fn opaque_values_as_mask(bits: &[u8], width: usize, stride: usize, height: usize) -> (mask:
    Vec<u8>)
    requires
        mask_fits(bits@.len(), width as nat, stride as nat, height as nat),
    ensures
        is_opaque_mask(bits@, width as nat, stride as nat, height as nat, mask@),
{
    let mut mask: Vec<u8> = Vec::new();
    let mut row: usize = 0;
    let bits_len: usize = bits.len();
    proof {
        assert(4 * width * 0 == 0) by (nonlinear_arith);
    }
    while row < height
        invariant
            row <= height,
            bits_len == bits@.len(),
            mask_fits(bits@.len(), width as nat, stride as nat, height as nat),
            mask.len() == 4 * pixel_index(width as int, row as int, 0),
            forall|r: int, c: int|
                #![trigger pixel_index(width as int, r, c)]
                0 <= r < row && 0 <= c < width ==> {
                    let at = 4 * pixel_index(width as int, r, c);
                    &&& 0 <= at && at + 3 < mask.len()
                    &&& mask[at] == 0xff
                    &&& mask[at + 1] == 0xff
                    &&& mask[at + 2] == 0xff
                    &&& mask[at + 3] == bits[r * stride + 4 * c]
                },
        decreases height - row,
    {
        let mut col: usize = 0;
        while col < width
            invariant
                row < height,
                col <= width,
                bits_len == bits@.len(),
                mask_fits(bits@.len(), width as nat, stride as nat, height as nat),
                mask.len() == 4 * pixel_index(width as int, row as int, col as int),
                forall|r: int, c: int|
                    #![trigger pixel_index(width as int, r, c)]
                    (0 <= r < row && 0 <= c < width) || (r == row && 0 <= c < col) ==> {
                        let at = 4 * pixel_index(width as int, r, c);
                        &&& 0 <= at && at + 3 < mask.len()
                        &&& mask[at] == 0xff
                        &&& mask[at + 1] == 0xff
                        &&& mask[at + 2] == 0xff
                        &&& mask[at + 3] == bits[r * stride + 4 * c]
                    },
            decreases width - col,
        {
            proof {
                lemma_pixel_bounds(width as int, height as int, row as int, col as int);
                lemma_pixel_source(stride as int, height as int, row as int);
                assert(4 * (width * height) == 4 * width * height) by (nonlinear_arith);
            }
            let coverage: u8 = bits[row * stride + 4 * col];
            mask.push(0xff);
            mask.push(0xff);
            mask.push(0xff);
            mask.push(coverage);
            col += 1;
        }
        proof {
            if width > 0 {
                lemma_pixel_bounds(width as int, height as int, row as int, width as int - 1);
            } else {
                assert(pixel_index(0, row as int + 1, 0) == 0) by (nonlinear_arith);
                assert(pixel_index(0, row as int, 0) == 0) by (nonlinear_arith);
            }
            assert(pixel_index(width as int, row as int, width as int) == pixel_index(
                width as int,
                row as int + 1,
                0,
            )) by (nonlinear_arith);
        }
        row += 1;
    }
    proof {
        assert(4 * (width * height) == 4 * width * height) by (nonlinear_arith);
    }
    mask
}

} // verus!
