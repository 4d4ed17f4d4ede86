use nds_display::rgb15;

#[test]
fn rgb15_white_is_all_fifteen_bits() {
    assert_eq!(rgb15(0xFFFFFF), 0x7FFF);
}

#[test]
fn rgb15_black_is_zero() {
    assert_eq!(rgb15(0x000000), 0x0000);
}

#[test]
fn rgb15_red_lands_in_low_five_bits() {
    assert_eq!(rgb15(0xF80000), 0x001F);
    assert_eq!(rgb15(0xFF0000), 0x001F);
}

#[test]
fn rgb15_green_lands_in_middle_five_bits() {
    assert_eq!(rgb15(0x00F800), 0x03E0);
    assert_eq!(rgb15(0x00FF00), 0x03E0);
}

#[test]
fn rgb15_blue_lands_in_high_five_bits() {
    assert_eq!(rgb15(0x0000F8), 0x7C00);
    assert_eq!(rgb15(0x0000FF), 0x7C00);
}

#[test]
fn rgb15_drops_low_three_bits_of_each_channel() {
    assert_eq!(rgb15(0x070707), 0x0000);
    assert_eq!(rgb15(0x080808), 0x0421);
    assert_eq!(rgb15(0x0F0F0F), 0x0421);
}

#[test]
fn rgb15_ignores_top_byte() {
    assert_eq!(rgb15(0xFF000000), 0x0000);
    assert_eq!(rgb15(0xFF123456), rgb15(0x00123456));
    assert_eq!(rgb15(0xFFFFFFFF), 0x7FFF);
}

#[test]
fn rgb15_mixed_colour() {
    // red 0x12 -> 2, green 0x34 -> 6, blue 0x56 -> 10
    assert_eq!(rgb15(0x123456), 2 | (6 << 5) | (10 << 10));
}

#[test]
fn rgb15_matches_channel_formula_on_a_sweep() {
    let mut x: u32 = 0;
    while x <= 0x00FF_FFFF {
        let r = (x >> 16) & 0xFF;
        let g = (x >> 8) & 0xFF;
        let b = x & 0xFF;
        let expected = (r / 8 + 32 * (g / 8) + 1024 * (b / 8)) as u16;
        assert_eq!(rgb15(x), expected);
        x += 0x0001_0305;
    }
}
