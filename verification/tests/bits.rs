use nds_display::bits::{get_field, set_field};

#[test]
fn get_field_reads_the_bits_of_the_field() {
    assert_eq!(get_field(0xDEAD_BEEF, 0, 4), 0xF);
    assert_eq!(get_field(0xDEAD_BEEF, 4, 8), 0xEE);
    assert_eq!(get_field(0xDEAD_BEEF, 16, 16), 0xDEAD);
    assert_eq!(get_field(0xDEAD_BEEF, 31, 1), 1);
    assert_eq!(get_field(0x7FFF_FFFF, 31, 1), 0);
    assert_eq!(get_field(0xFFFF_FFFF, 1, 31), 0x7FFF_FFFF);
    assert_eq!(get_field(0, 13, 5), 0);
}

#[test]
fn get_field_is_quotient_and_remainder() {
    let raw: u32 = 0x9E37_79B9;
    for lo in 0u32..32 {
        for width in 1u32..=(32 - lo).min(31) {
            let expected = ((raw as u64 >> lo) % (1u64 << width)) as u32;
            assert_eq!(get_field(raw, lo, width), expected);
        }
    }
}

#[test]
fn set_field_replaces_only_the_field() {
    assert_eq!(set_field(0, 4, 8, 0xAB), 0x0000_0AB0);
    assert_eq!(set_field(0xFFFF_FFFF, 4, 8, 0), 0xFFFF_F00F);
    assert_eq!(set_field(0xFFFF_FFFF, 31, 1, 0), 0x7FFF_FFFF);
    assert_eq!(set_field(0x1234_5678, 0, 16, 0xFFFF), 0x1234_FFFF);
    assert_eq!(set_field(0x1234_5678, 16, 16, 0), 0x0000_5678);
}

#[test]
fn set_field_then_get_field() {
    let raw: u32 = 0x9E37_79B9;
    for lo in 0u32..32 {
        for width in 1u32..=(32 - lo).min(6) {
            let max = (1u32 << width) - 1;
            for value in [0, 1, max / 2, max] {
                let next = set_field(raw, lo, width, value);
                assert_eq!(get_field(next, lo, width), value);
                let mask = max << lo;
                assert_eq!(next & !mask, raw & !mask);
            }
        }
    }
}
