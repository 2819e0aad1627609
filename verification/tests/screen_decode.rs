use periph_emu::screen::{decode_pixel, decode_row, decode_row_pair};
use periph_emu::screen::{ROW_BYTES, ROW_PIXELS};

fn reference_pixel(row: &[u8], x: usize) -> u8 {
    let bit = 3 * x;
    let b = bit / 8;
    let sh = bit % 8;
    let mut v = row[b] >> sh;
    if sh > 5 {
        v |= row[b + 1] << (8 - sh);
    }
    v & 7
}

#[test]
fn decode_pixel_first_and_last() {
    let mut row = [0u8; ROW_BYTES];
    row[0] = 0xB5;
    row[1] = 0x01;
    row[65] = 0xE0;
    assert_eq!(decode_pixel(&row, 0), 5);
    assert_eq!(decode_pixel(&row, 1), 6);
    assert_eq!(decode_pixel(&row, 175), 7);
}

#[test]
fn decode_pixel_straddles_byte_boundary() {
    // pixel 2 starts at bit 6: one bit from the first byte, two from the next
    let mut row = [0u8; ROW_BYTES];
    row[0] = 0xB5;
    row[1] = 0x01;
    assert_eq!(decode_pixel(&row, 2), 6);
    for x in 0..ROW_PIXELS {
        assert_eq!(decode_pixel(&row, x), reference_pixel(&row, x));
    }
}

#[test]
fn decode_row_matches_per_pixel_decode() {
    let mut row = [0u8; ROW_BYTES];
    for (i, b) in row.iter_mut().enumerate() {
        *b = (i as u8).wrapping_mul(37).wrapping_add(11);
    }
    let decoded = decode_row(&row);
    assert_eq!(decoded.len(), ROW_PIXELS);
    for x in 0..ROW_PIXELS {
        assert_eq!(decoded[x], reference_pixel(&row, x));
        assert!(decoded[x] < 8);
    }
}

#[test]
fn decode_row_pair_pairs_even_and_odd() {
    let mut even = [0u8; ROW_BYTES];
    let mut odd = [0u8; ROW_BYTES];
    for i in 0..ROW_BYTES {
        even[i] = (i as u8).wrapping_mul(3);
        odd[i] = (i as u8).wrapping_mul(5).wrapping_add(1);
    }
    let pairs = decode_row_pair(&even, &odd);
    assert_eq!(pairs.len(), ROW_PIXELS);
    for x in 0..ROW_PIXELS {
        assert_eq!(pairs[x].0, reference_pixel(&even, x));
        assert_eq!(pairs[x].1, reference_pixel(&odd, x));
    }
}

#[test]
fn decode_all_ones_row() {
    let row = [0xFFu8; ROW_BYTES];
    for x in 0..ROW_PIXELS {
        assert_eq!(decode_pixel(&row, x), 7);
    }
}
