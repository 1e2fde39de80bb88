//! Sizing of the buffer that receives a glyph run's alpha texture.

use vstd::prelude::*;

verus! {

/// A rectangle in pixels, by its edges.
#[derive(PartialEq, Eq, Structural, Debug, Clone, Copy)]
pub struct Rect {
    pub left: i32,
    pub top: i32,
    pub right: i32,
    pub bottom: i32,
}

/// The native code of the aliased texture, one byte for each pixel.
pub const TEXTURE_ALIASED_1X1: i32 = 0;

/// The native code of the ClearType texture, three bytes for each pixel.
pub const TEXTURE_CLEARTYPE_3X1: i32 = 1;

/// The bytes that a texture of the given native type holds for each
/// pixel; `None` for a code that names no texture type.
pub open spec fn texture_bytes_per_pixel(texture_type: i32) -> Option<int> {
    if texture_type == TEXTURE_ALIASED_1X1 {
        Some(1int)
    } else if texture_type == TEXTURE_CLEARTYPE_3X1 {
        Some(3int)
    } else {
        None
    }
}

/// Whether a number can be held in 32 signed bits.
pub open spec fn fits_i32(n: int) -> bool {
    i32::MIN <= n <= i32::MAX
}

/// The length in bytes of the alpha texture of `rect`: width times
/// height times the bytes for each pixel. There is none where the
/// texture type is unknown, where the length would be negative, or where
/// the width, the height, the number of pixels or the length itself
/// cannot be held in 32 signed bits.
pub open spec fn alpha_texture_bytes(texture_type: i32, rect: Rect) -> Option<int> {
    match texture_bytes_per_pixel(texture_type) {
        None => None,
        Some(per_pixel) => {
            let width = rect.right - rect.left;
            let height = rect.bottom - rect.top;
            let pixels = width * height;
            let bytes = pixels * per_pixel;
            if fits_i32(width) && fits_i32(height) && fits_i32(pixels) && fits_i32(bytes) && bytes
                >= 0 {
                Some(bytes)
            } else {
                None
            }
        },
    }
}

/// Computes the length of the buffer that the alpha texture of `rect`
/// needs, or `None` where no such buffer can be made.
pub fn alpha_texture_len(texture_type: i32, rect: Rect) -> (len: Option<usize>)
    ensures
        match len {
            Some(n) => alpha_texture_bytes(texture_type, rect) == Some(n as int),
            None => alpha_texture_bytes(texture_type, rect) is None,
        },
{
    let per_pixel: i32 = if texture_type == TEXTURE_ALIASED_1X1 {
        1
    } else if texture_type == TEXTURE_CLEARTYPE_3X1 {
        3
    } else {
        return None;
    };
    let width = match rect.right.checked_sub(rect.left) {
        Some(w) => w,
        None => {
            return None;
        },
    };
    let height = match rect.bottom.checked_sub(rect.top) {
        Some(h) => h,
        None => {
            return None;
        },
    };
    let pixels = match width.checked_mul(height) {
        Some(p) => p,
        None => {
            return None;
        },
    };
    let bytes = match pixels.checked_mul(per_pixel) {
        Some(b) => b,
        None => {
            return None;
        },
    };
    if bytes < 0 {
        None
    } else {
        Some(bytes as usize)
    }
}

} // verus!
