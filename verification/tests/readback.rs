use wcad::readback::{padded_bytes_per_row, strip_row_padding};

#[test]
fn rows_are_padded_to_256_bytes() {
    assert_eq!(padded_bytes_per_row(0), 0);
    assert_eq!(padded_bytes_per_row(1), 256);
    assert_eq!(padded_bytes_per_row(64), 256);
    assert_eq!(padded_bytes_per_row(65), 512);
    assert_eq!(padded_bytes_per_row(800), 3328);
}

#[test]
fn padding_is_stripped_from_each_row() {
    // Two rows of 3 pixel bytes in strides of 5, plus an incomplete stride.
    let data = [1u8, 2, 3, 0, 0, 4, 5, 6, 0, 0, 9, 9];
    assert_eq!(strip_row_padding(&data, 3, 5), vec![1, 2, 3, 4, 5, 6]);
    assert_eq!(strip_row_padding(&data, 5, 5), vec![1, 2, 3, 0, 0, 4, 5, 6, 0, 0]);
    assert_eq!(strip_row_padding(&[], 3, 5), Vec::<u8>::new());
}
