use sensehat::{convert_from_pixel, convert_to_pixel, Pixel};

fn read_back(p: Pixel) -> Pixel {
    convert_to_pixel(convert_from_pixel(p))
}

#[test]
fn pack_primary_colours() {
    assert_eq!(convert_from_pixel((255, 0, 0)), 0xF800);
    assert_eq!(convert_from_pixel((0, 255, 0)), 0x07E0);
    assert_eq!(convert_from_pixel((0, 0, 255)), 0x001F);
    assert_eq!(convert_from_pixel((255, 255, 255)), 0xFFFF);
    assert_eq!(convert_from_pixel((0, 0, 0)), 0x0000);
}

#[test]
fn pack_truncates_low_bits() {
    assert_eq!(convert_from_pixel((7, 3, 7)), 0);
    assert_eq!(convert_from_pixel((8, 4, 8)), (1 << 11) | (1 << 5) | 1);
    assert_eq!(convert_from_pixel((0x12, 0x34, 0x56)), (2 << 11) | (13 << 5) | 10);
}

#[test]
fn pack_fields_are_the_top_bits_of_each_channel() {
    for r in (0..=255u16).step_by(5) {
        for g in (0..=255u16).step_by(3) {
            for b in (0..=255u16).step_by(7) {
                let w = convert_from_pixel((r as u8, g as u8, b as u8));
                assert_eq!(w >> 11, r >> 3);
                assert_eq!((w >> 5) & 0x3f, g >> 2);
                assert_eq!(w & 0x1f, b >> 3);
            }
        }
    }
}

#[test]
fn unpack_exact_values() {
    assert_eq!(convert_to_pixel(0xF800), (248, 0, 0));
    assert_eq!(convert_to_pixel(0x001F), (0, 0, 248));
    assert_eq!(convert_to_pixel(0x07E0), (0, 224, 0));
    assert_eq!(convert_to_pixel(0xFFFF), (248, 224, 248));
    assert_eq!(convert_to_pixel(0x0000), (0, 0, 0));
    // One green bit at a time: the lowest lands in bit 7 beside the highest.
    assert_eq!(convert_to_pixel(0x0020), (0, 128, 0));
    assert_eq!(convert_to_pixel(0x0040), (0, 0, 0));
    assert_eq!(convert_to_pixel(0x0080), (0, 0, 0));
    assert_eq!(convert_to_pixel(0x0100), (0, 32, 0));
    assert_eq!(convert_to_pixel(0x0200), (0, 64, 0));
    assert_eq!(convert_to_pixel(0x0400), (0, 128, 0));
}

#[test]
fn read_back_is_not_identity() {
    assert_eq!(read_back((255, 255, 255)), (248, 224, 248));
    assert_eq!(read_back((255, 127, 0)), (248, 224, 0));
    assert_eq!(read_back((0, 0x7b, 0)), (0, 96, 0));
    assert_eq!(read_back((1, 2, 3)), (0, 0, 0));
    assert_eq!(read_back((0, 4, 0)), (0, 128, 0));
}

#[test]
fn read_back_is_idempotent() {
    for r in (0..=255u16).step_by(3) {
        for g in 0..=255u16 {
            for b in (0..=255u16).step_by(17) {
                let once = read_back((r as u8, g as u8, b as u8));
                assert_eq!(read_back(once), once);
                assert_eq!(once.0, r as u8 & 0xF8);
                assert_eq!(once.2, b as u8 & 0xF8);
            }
        }
    }
}

#[test]
fn unpacked_word_is_stable() {
    for w in 0..=u16::MAX {
        let p = convert_to_pixel(w);
        assert_eq!(read_back(p), p);
    }
}
