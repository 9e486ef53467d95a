use charlcd::custom_char::mirror_x;
use charlcd::custom_char::mirror_y;
use charlcd::of_node::u32_from_be;

const RIGHT_TRIANGLE: [u8; 8] = [
    0b00000, 0b01000, 0b01100, 0b01110, 0b01100, 0b01000, 0b00000, 0b00000,
];

const UP_TRIANGLE: [u8; 8] = [
    0b00000, 0b00000, 0b00100, 0b01110, 0b11111, 0b00000, 0b00000, 0b00000,
];

#[test]
fn mirror_x_reverses_each_row() {
    let left = mirror_x(RIGHT_TRIANGLE);
    assert_eq!(
        left,
        [0b00000, 0b00010, 0b00110, 0b01110, 0b00110, 0b00010, 0b00000, 0b00000]
    );
    // Mirroring twice gives the glyph back.
    assert_eq!(mirror_x(left), RIGHT_TRIANGLE);
}

#[test]
fn mirror_x_drops_the_high_three_bits() {
    assert_eq!(mirror_x([0xff; 8]), [0x1f; 8]);
    assert_eq!(mirror_x([0b11100000; 8]), [0; 8]);
}

#[test]
fn mirror_y_reverses_the_row_order() {
    let down = mirror_y(UP_TRIANGLE);
    assert_eq!(
        down,
        [0b00000, 0b00000, 0b00000, 0b11111, 0b01110, 0b00100, 0b00000, 0b00000]
    );
    assert_eq!(mirror_y(down), UP_TRIANGLE);
}

#[test]
fn u32_from_be_reads_big_endian() {
    assert_eq!(u32_from_be(&[0, 0, 0, 20]), 20);
    assert_eq!(u32_from_be(&[0, 0, 0, 4]), 4);
    assert_eq!(u32_from_be(&[0x12, 0x34, 0x56, 0x78]), 0x12345678);
    assert_eq!(u32_from_be(&[0xff, 0xff, 0xff, 0xff]), u32::MAX);
}
