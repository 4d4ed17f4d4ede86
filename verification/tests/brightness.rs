use nds_display::{set_brightness, AddressTable, GfxEngine};

fn table() -> AddressTable {
    AddressTable {
        dispcnt_main: 0x0400_0000,
        dispcnt_sub: 0x0400_1000,
        bg0cnt_main: 0x0400_0008,
        bg0cnt_sub: 0x0400_1008,
        powcnt1: 0x0400_0304,
        master_bright_main: 0x0400_006C,
        dispstat: 0x0400_0004,
    }
}

#[test]
fn brightness_above_range_is_clamped_to_sixteen() {
    let t = table();
    assert_eq!(set_brightness(&t, GfxEngine::MAIN, 20), set_brightness(&t, GfxEngine::MAIN, 16));
    assert_eq!(set_brightness(&t, GfxEngine::MAIN, 20).value, 0x4010);
}

#[test]
fn brightness_below_range_is_clamped_to_minus_sixteen() {
    let t = table();
    assert_eq!(set_brightness(&t, GfxEngine::MAIN, -20), set_brightness(&t, GfxEngine::MAIN, -16));
    assert_eq!(set_brightness(&t, GfxEngine::MAIN, -20).value, 0x8010);
}

#[test]
fn brightness_zero_is_up_mode_with_magnitude_zero() {
    let t = table();
    assert_eq!(set_brightness(&t, GfxEngine::MAIN, 0).value, 0x4000);
}

#[test]
fn brightness_inside_range_keeps_its_magnitude() {
    let t = table();
    assert_eq!(set_brightness(&t, GfxEngine::MAIN, 1).value, 0x4001);
    assert_eq!(set_brightness(&t, GfxEngine::MAIN, 7).value, 0x4007);
    assert_eq!(set_brightness(&t, GfxEngine::MAIN, 16).value, 0x4010);
    assert_eq!(set_brightness(&t, GfxEngine::MAIN, -1).value, 0x8001);
    assert_eq!(set_brightness(&t, GfxEngine::MAIN, -7).value, 0x8007);
    assert_eq!(set_brightness(&t, GfxEngine::MAIN, -16).value, 0x8010);
}

#[test]
fn brightness_extreme_levels_are_clamped() {
    let t = table();
    assert_eq!(set_brightness(&t, GfxEngine::MAIN, i32::MAX).value, 0x4010);
    assert_eq!(set_brightness(&t, GfxEngine::MAIN, i32::MIN).value, 0x8010);
    assert_eq!(set_brightness(&t, GfxEngine::MAIN, 17).value, 0x4010);
    assert_eq!(set_brightness(&t, GfxEngine::MAIN, -17).value, 0x8010);
}

#[test]
fn brightness_every_level_has_mode_and_clamped_magnitude() {
    let t = table();
    for level in -40i32..=40 {
        let mode: u32 = if level < 0 { 2 } else { 1 };
        let magnitude = level.unsigned_abs().min(16);
        let store = set_brightness(&t, GfxEngine::SUB, level);
        assert_eq!(store.value >> 14, mode);
        assert_eq!(store.value & 0x3FFF, magnitude);
    }
}

#[test]
fn brightness_register_depends_on_engine() {
    let t = table();
    assert_eq!(set_brightness(&t, GfxEngine::MAIN, 3).address, 0x0400_006C);
    assert_eq!(set_brightness(&t, GfxEngine::SUB, 3).address, 0x0400_106C);
    assert_eq!(set_brightness(&t, GfxEngine::SUB, 3).value, set_brightness(&t, GfxEngine::MAIN, 3).value);
}

#[test]
fn brightness_offset_is_combined_bitwise() {
    let mut t = table();
    t.master_bright_main = 0x0400_106C;
    assert_eq!(set_brightness(&t, GfxEngine::SUB, 0).address, 0x0400_106C);
    assert_eq!(set_brightness(&t, GfxEngine::MAIN, 0).address, 0x0400_106C);
}

#[test]
fn engine_offsets() {
    assert_eq!(GfxEngine::MAIN.offset(), 0);
    assert_eq!(GfxEngine::SUB.offset(), 0x1000);
}
