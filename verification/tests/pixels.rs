use dualcut_engine::raster::{invert_coverage, padded_row_len, strip_row_padding};
use dualcut_engine::vector::readback_row_bytes;

#[test]
fn strides_round_up_to_the_alignment() {
    assert_eq!(padded_row_len(384, 4), 384);
    assert_eq!(padded_row_len(385, 4), 388);
    assert_eq!(padded_row_len(0, 4), 0);
    assert_eq!(padded_row_len(3 * 5, 4), 16);
}

#[test]
fn readback_rows_are_multiples_of_256_bytes() {
    assert_eq!(readback_row_bytes(64), 256);
    assert_eq!(readback_row_bytes(65), 512);
    assert_eq!(readback_row_bytes(40), 256);
    assert_eq!(readback_row_bytes(1280), 5120);
    assert_eq!(readback_row_bytes(0), 0);
}

#[test]
fn padding_is_dropped_row_by_row() {
    // Two rows of 3 bytes, each followed by one padding byte.
    let data = [1u8, 2, 3, 99, 4, 5, 6, 99];
    assert_eq!(strip_row_padding(&data, 3, 4, 2), vec![1, 2, 3, 4, 5, 6]);
    // The last row needs no padding after it.
    let data = [1u8, 2, 3, 99, 4, 5, 6];
    assert_eq!(strip_row_padding(&data, 3, 4, 2), vec![1, 2, 3, 4, 5, 6]);
}

#[test]
fn unpadded_rows_come_out_unchanged() {
    let data: Vec<u8> = (0..24).collect();
    assert_eq!(strip_row_padding(&data, 6, 6, 4), data);
    assert_eq!(strip_row_padding(&data, 6, 6, 0), Vec::<u8>::new());
}

#[test]
fn inversion_swaps_painted_and_unpainted_pixels() {
    let mut px = vec![
        9, 9, 9, 0, // unpainted
        200, 100, 50, 255, // painted
        1, 2, 3, 7, // faintly painted
    ];
    invert_coverage(&mut px, 10, 20, 30);
    assert_eq!(px, vec![10, 20, 30, 255, 0, 0, 0, 0, 0, 0, 0, 0]);
}

#[test]
fn inversion_leaves_a_trailing_partial_pixel() {
    let mut px = vec![0, 0, 0, 0, 5, 6];
    invert_coverage(&mut px, 1, 2, 3);
    assert_eq!(px, vec![1, 2, 3, 255, 5, 6]);
}

#[test]
fn inverting_twice_restores_which_pixels_are_painted() {
    let orig = vec![0, 0, 0, 0, 10, 10, 10, 128, 4, 4, 4, 0, 0, 0, 0, 255];
    let mut px = orig.clone();
    invert_coverage(&mut px, 7, 8, 9);
    invert_coverage(&mut px, 7, 8, 9);
    for k in 0..4 {
        assert_eq!(px[4 * k + 3] != 0, orig[4 * k + 3] != 0);
    }
}
