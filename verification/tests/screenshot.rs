use smartboard::screenshot::{screenshot_layout, unpad_rows_to_rgba};

#[test]
fn layout_rounds_rows_up_to_alignment() {
    let l = screenshot_layout(100, 3, 256);
    assert_eq!(l.unpadded_bytes_per_row, 400);
    assert_eq!(l.padded_bytes_per_row, 512);
    assert_eq!(l.buffer_size, 1536);
}

#[test]
fn layout_keeps_aligned_rows() {
    let l = screenshot_layout(64, 2, 256);
    assert_eq!(l.unpadded_bytes_per_row, 256);
    assert_eq!(l.padded_bytes_per_row, 256);
    assert_eq!(l.buffer_size, 512);
}

#[test]
fn layout_of_empty_texture() {
    let l = screenshot_layout(0, 5, 256);
    assert_eq!(l.unpadded_bytes_per_row, 0);
    assert_eq!(l.padded_bytes_per_row, 0);
    assert_eq!(l.buffer_size, 0);
}

#[test]
fn unpad_drops_padding_and_swaps_blue_red() {
    // 2x2 BGRA texture, rows 12 bytes apart (8 bytes of pixels, 4 of padding)
    let data: Vec<u8> = vec![
        1, 2, 3, 4, 5, 6, 7, 8, 90, 91, 92, 93, //
        9, 10, 11, 12, 13, 14, 15, 16, 94, 95, 96, 97,
    ];
    let out = unpad_rows_to_rgba(&data, 2, 2, 12);
    assert_eq!(out, vec![3, 2, 1, 4, 7, 6, 5, 8, 11, 10, 9, 12, 15, 14, 13, 16]);
}

#[test]
fn unpad_accepts_short_last_row() {
    // the last row needs no padding after it
    let data: Vec<u8> = vec![10, 20, 30, 40, 0, 0, 0, 0, 50, 60, 70, 80];
    let out = unpad_rows_to_rgba(&data, 1, 2, 8);
    assert_eq!(out, vec![30, 20, 10, 40, 70, 60, 50, 80]);
}

#[test]
fn unpad_of_no_rows_is_empty() {
    let out = unpad_rows_to_rgba(&[], 4, 0, 256);
    assert!(out.is_empty());
}
