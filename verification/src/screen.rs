//! Screen decoder: interprets raw framebuffer bytes, 3 bits per pixel,
//! row-major and bit-packed across byte boundaries, into palette indices.
//!
//! Pixel `x`'s bits start at bit offset `3 * x` in the row's byte sequence
//! and may straddle two adjacent bytes: carry bits come from the next byte
//! exactly when the bit offset within the byte exceeds 5. Rows are decoded
//! in pairs to emit a half-height glyph with two independently addressable
//! color indices; decoding a single row stands on its own.

use vstd::prelude::*;

verus! {

/// Number of packed bytes the host copies out per framebuffer scan-row.
pub const ROW_BYTES: usize = 66;

/// Number of pixels covered by one scan-row.
pub const ROW_PIXELS: usize = 176;

/// The 3-bit palette index of pixel `x` in a packed row.
pub open spec fn pixel_spec(row: Seq<u8>, x: int) -> u8
    recommends
        row.len() == ROW_BYTES,
        0 <= x < ROW_PIXELS,
{
    let bit = 3 * x;
    let sh = bit % 8;
    let lo = row[bit / 8] >> (sh as u8);
    let v = if sh > 5 {
        lo | (row[bit / 8 + 1] << ((8 - sh) as u8))
    } else {
        lo
    };
    v & 7
}

/// Decodes one pixel of a packed scan-row, including the case where its
/// 3 bits cross a byte boundary.
pub fn decode_pixel(row: &[u8], x: usize) -> (r: u8)
    requires
        row@.len() == ROW_BYTES,
        x < ROW_PIXELS,
    ensures
        r == pixel_spec(row@, x as int),
        r < 8,
{
    let bit: usize = 3 * x;
    let b: usize = bit / 8;
    let sh: usize = bit % 8;
    let lo: u8 = row[b] >> (sh as u8);
    let v: u8 = if sh > 5 {
        assert(b + 1 < ROW_BYTES) by {
            assert(bit <= 525);
            assert(bit / 8 == 65 ==> bit % 8 <= 5);
        }
        lo | (row[b + 1] << ((8 - sh) as u8))
    } else {
        lo
    };
    assert(v & 7 < 8) by (bit_vector);
    v & 7
}

/// Decodes a whole scan-row into its `ROW_PIXELS` palette indices.
pub fn decode_row(row: &[u8]) -> (r: Vec<u8>)
    requires
        row@.len() == ROW_BYTES,
    ensures
        r@.len() == ROW_PIXELS,
        forall|x: int| 0 <= x < ROW_PIXELS ==> #[trigger] r@[x] == pixel_spec(row@, x),
    {
    let mut out: Vec<u8> = Vec::new();
    let mut x: usize = 0;
    while x < ROW_PIXELS
        invariant
            row@.len() == ROW_BYTES,
            x <= ROW_PIXELS,
            out@.len() == x,
            forall|k: int| 0 <= k < x ==> #[trigger] out@[k] == pixel_spec(row@, k),
        decreases ROW_PIXELS - x,
    {
        let p = decode_pixel(row, x);
        out.push(p);
        x = x + 1;
    }
    out
}

/// Decodes two consecutive scan-rows together, as the half-height glyph
/// rendering consumes them: for each column, the even row's palette index
/// paired with the odd row's.
pub fn decode_row_pair(even: &[u8], odd: &[u8]) -> (r: Vec<(u8, u8)>)
    requires
        even@.len() == ROW_BYTES,
        odd@.len() == ROW_BYTES,
    ensures
        r@.len() == ROW_PIXELS,
        forall|x: int|
            0 <= x < ROW_PIXELS
                ==> #[trigger] r@[x] == (pixel_spec(even@, x), pixel_spec(odd@, x)),
{
    let mut out: Vec<(u8, u8)> = Vec::new();
    let mut x: usize = 0;
    while x < ROW_PIXELS
        invariant
            even@.len() == ROW_BYTES,
            odd@.len() == ROW_BYTES,
            x <= ROW_PIXELS,
            out@.len() == x,
            forall|k: int|
                0 <= k < x
                    ==> #[trigger] out@[k] == (pixel_spec(even@, k), pixel_spec(odd@, k)),
        decreases ROW_PIXELS - x,
    {
        let p = (decode_pixel(even, x), decode_pixel(odd, x));
        out.push(p);
        x = x + 1;
    }
    out
}

} // verus!
