use nds_display::DisplayControlMain;

#[test]
fn main_control_new_is_zero() {
    let c = DisplayControlMain::new();
    assert_eq!(u32::from(c), 0);
    assert_eq!(c.bg_mode(), 0);
    assert!(!c.bg0_3d());
    assert!(!c.tile_obj_mapping());
    assert!(!c.bm_obj_2d_dim());
    assert!(!c.bm_obj_mapping());
    assert!(!c.forced_blank());
    assert!(!c.display_bg0());
    assert!(!c.display_bg1());
    assert!(!c.display_bg2());
    assert!(!c.display_bg3());
    assert!(!c.display_obj());
    assert!(!c.display_win0());
    assert!(!c.display_win1());
    assert!(!c.display_obj_win());
    assert_eq!(c.display_mode(), 0);
    assert_eq!(c.vram_display_block(), 0);
    assert_eq!(c.tile_obj_1d_bound(), 0);
    assert_eq!(c.bm_obj_1d_bound(), 0);
    assert!(!c.obj_during_hblank());
    assert_eq!(c.master_tiledata_base(), 0);
    assert_eq!(c.master_tilemap_base(), 0);
    assert!(!c.bg_ext_pal_enabled());
    assert!(!c.obj_ext_pal_enabled());
}

#[test]
fn main_control_each_field_has_its_place() {
    assert_eq!(u32::from(DisplayControlMain::new().with_bg_mode(7)), 0x0000_0007);
    assert_eq!(u32::from(DisplayControlMain::new().with_bg0_3d(true)), 0x0000_0008);
    assert_eq!(u32::from(DisplayControlMain::new().with_tile_obj_mapping(true)), 0x0000_0010);
    assert_eq!(u32::from(DisplayControlMain::new().with_bm_obj_2d_dim(true)), 0x0000_0020);
    assert_eq!(u32::from(DisplayControlMain::new().with_bm_obj_mapping(true)), 0x0000_0040);
    assert_eq!(u32::from(DisplayControlMain::new().with_forced_blank(true)), 0x0000_0080);
    assert_eq!(u32::from(DisplayControlMain::new().with_display_bg0(true)), 0x0000_0100);
    assert_eq!(u32::from(DisplayControlMain::new().with_display_bg1(true)), 0x0000_0200);
    assert_eq!(u32::from(DisplayControlMain::new().with_display_bg2(true)), 0x0000_0400);
    assert_eq!(u32::from(DisplayControlMain::new().with_display_bg3(true)), 0x0000_0800);
    assert_eq!(u32::from(DisplayControlMain::new().with_display_obj(true)), 0x0000_1000);
    assert_eq!(u32::from(DisplayControlMain::new().with_display_win0(true)), 0x0000_2000);
    assert_eq!(u32::from(DisplayControlMain::new().with_display_win1(true)), 0x0000_4000);
    assert_eq!(u32::from(DisplayControlMain::new().with_display_obj_win(true)), 0x0000_8000);
    assert_eq!(u32::from(DisplayControlMain::new().with_display_mode(3)), 0x0003_0000);
    assert_eq!(u32::from(DisplayControlMain::new().with_vram_display_block(3)), 0x000C_0000);
    assert_eq!(u32::from(DisplayControlMain::new().with_tile_obj_1d_bound(3)), 0x0030_0000);
    assert_eq!(u32::from(DisplayControlMain::new().with_bm_obj_1d_bound(1)), 0x0040_0000);
    assert_eq!(u32::from(DisplayControlMain::new().with_obj_during_hblank(true)), 0x0080_0000);
    assert_eq!(u32::from(DisplayControlMain::new().with_master_tiledata_base(7)), 0x0700_0000);
    assert_eq!(u32::from(DisplayControlMain::new().with_master_tilemap_base(7)), 0x3800_0000);
    assert_eq!(u32::from(DisplayControlMain::new().with_bg_ext_pal_enabled(true)), 0x4000_0000);
    assert_eq!(u32::from(DisplayControlMain::new().with_obj_ext_pal_enabled(true)), 0x8000_0000);
}

#[test]
fn main_control_each_field_is_cleared_alone() {
    let full = DisplayControlMain::from(0xFFFF_FFFF);
    assert_eq!(u32::from(full.with_bg_mode(0)), 0xFFFF_FFF8);
    assert_eq!(u32::from(full.with_bg0_3d(false)), 0xFFFF_FFF7);
    assert_eq!(u32::from(full.with_tile_obj_mapping(false)), 0xFFFF_FFEF);
    assert_eq!(u32::from(full.with_bm_obj_2d_dim(false)), 0xFFFF_FFDF);
    assert_eq!(u32::from(full.with_bm_obj_mapping(false)), 0xFFFF_FFBF);
    assert_eq!(u32::from(full.with_forced_blank(false)), 0xFFFF_FF7F);
    assert_eq!(u32::from(full.with_display_bg0(false)), 0xFFFF_FEFF);
    assert_eq!(u32::from(full.with_display_bg1(false)), 0xFFFF_FDFF);
    assert_eq!(u32::from(full.with_display_bg2(false)), 0xFFFF_FBFF);
    assert_eq!(u32::from(full.with_display_bg3(false)), 0xFFFF_F7FF);
    assert_eq!(u32::from(full.with_display_obj(false)), 0xFFFF_EFFF);
    assert_eq!(u32::from(full.with_display_win0(false)), 0xFFFF_DFFF);
    assert_eq!(u32::from(full.with_display_win1(false)), 0xFFFF_BFFF);
    assert_eq!(u32::from(full.with_display_obj_win(false)), 0xFFFF_7FFF);
    assert_eq!(u32::from(full.with_display_mode(0)), 0xFFFC_FFFF);
    assert_eq!(u32::from(full.with_vram_display_block(0)), 0xFFF3_FFFF);
    assert_eq!(u32::from(full.with_tile_obj_1d_bound(0)), 0xFFCF_FFFF);
    assert_eq!(u32::from(full.with_bm_obj_1d_bound(0)), 0xFFBF_FFFF);
    assert_eq!(u32::from(full.with_obj_during_hblank(false)), 0xFF7F_FFFF);
    assert_eq!(u32::from(full.with_master_tiledata_base(0)), 0xF8FF_FFFF);
    assert_eq!(u32::from(full.with_master_tilemap_base(0)), 0xC7FF_FFFF);
    assert_eq!(u32::from(full.with_bg_ext_pal_enabled(false)), 0xBFFF_FFFF);
    assert_eq!(u32::from(full.with_obj_ext_pal_enabled(false)), 0x7FFF_FFFF);
}

#[test]
fn main_control_getters_read_raw_bits() {
    let full = DisplayControlMain::from(0xFFFF_FFFF);
    assert_eq!(full.bg_mode(), 7);
    assert!(full.bg0_3d());
    assert!(full.tile_obj_mapping());
    assert!(full.bm_obj_2d_dim());
    assert!(full.bm_obj_mapping());
    assert!(full.forced_blank());
    assert!(full.display_bg0());
    assert!(full.display_bg1());
    assert!(full.display_bg2());
    assert!(full.display_bg3());
    assert!(full.display_obj());
    assert!(full.display_win0());
    assert!(full.display_win1());
    assert!(full.display_obj_win());
    assert_eq!(full.display_mode(), 3);
    assert_eq!(full.vram_display_block(), 3);
    assert_eq!(full.tile_obj_1d_bound(), 3);
    assert_eq!(full.bm_obj_1d_bound(), 1);
    assert!(full.obj_during_hblank());
    assert_eq!(full.master_tiledata_base(), 7);
    assert_eq!(full.master_tilemap_base(), 7);
    assert!(full.bg_ext_pal_enabled());
    assert!(full.obj_ext_pal_enabled());
    let mixed = DisplayControlMain::from(0x5A3C_96E1);
    assert_eq!(mixed.bg_mode(), 1);
    assert!(!mixed.bg0_3d());
    assert!(!mixed.tile_obj_mapping());
    assert!(mixed.bm_obj_2d_dim());
    assert!(mixed.bm_obj_mapping());
    assert!(mixed.forced_blank());
    assert!(!mixed.display_bg0());
    assert!(mixed.display_bg1());
    assert!(mixed.display_bg2());
    assert!(!mixed.display_bg3());
    assert!(mixed.display_obj());
    assert!(!mixed.display_win0());
    assert!(!mixed.display_win1());
    assert!(mixed.display_obj_win());
    assert_eq!(mixed.display_mode(), 0);
    assert_eq!(mixed.vram_display_block(), 3);
    assert_eq!(mixed.tile_obj_1d_bound(), 3);
    assert_eq!(mixed.bm_obj_1d_bound(), 0);
    assert!(!mixed.obj_during_hblank());
    assert_eq!(mixed.master_tiledata_base(), 2);
    assert_eq!(mixed.master_tilemap_base(), 3);
    assert!(mixed.bg_ext_pal_enabled());
    assert!(!mixed.obj_ext_pal_enabled());
}

#[test]
fn main_control_fields_round_trip_through_raw() {
    let c = DisplayControlMain::new()
        .with_bg_mode(5)
        .with_bg0_3d(false)
        .with_tile_obj_mapping(true)
        .with_bm_obj_2d_dim(false)
        .with_bm_obj_mapping(false)
        .with_forced_blank(false)
        .with_display_bg0(true)
        .with_display_bg1(false)
        .with_display_bg2(false)
        .with_display_bg3(false)
        .with_display_obj(false)
        .with_display_win0(true)
        .with_display_win1(true)
        .with_display_obj_win(false)
        .with_display_mode(1)
        .with_vram_display_block(0)
        .with_tile_obj_1d_bound(3)
        .with_bm_obj_1d_bound(0)
        .with_obj_during_hblank(false)
        .with_master_tiledata_base(3)
        .with_master_tilemap_base(0)
        .with_bg_ext_pal_enabled(true)
        .with_obj_ext_pal_enabled(false);
    let raw = u32::from(c);
    assert_eq!(raw, 0x4331_6115);
    let back = DisplayControlMain::from(raw);
    assert_eq!(back, c);
    assert_eq!(back.bg_mode(), 5);
    assert!(!back.bg0_3d());
    assert!(back.tile_obj_mapping());
    assert!(!back.bm_obj_2d_dim());
    assert!(!back.bm_obj_mapping());
    assert!(!back.forced_blank());
    assert!(back.display_bg0());
    assert!(!back.display_bg1());
    assert!(!back.display_bg2());
    assert!(!back.display_bg3());
    assert!(!back.display_obj());
    assert!(back.display_win0());
    assert!(back.display_win1());
    assert!(!back.display_obj_win());
    assert_eq!(back.display_mode(), 1);
    assert_eq!(back.vram_display_block(), 0);
    assert_eq!(back.tile_obj_1d_bound(), 3);
    assert_eq!(back.bm_obj_1d_bound(), 0);
    assert!(!back.obj_during_hblank());
    assert_eq!(back.master_tiledata_base(), 3);
    assert_eq!(back.master_tilemap_base(), 0);
    assert!(back.bg_ext_pal_enabled());
    assert!(!back.obj_ext_pal_enabled());
}

fn main_control_rebuild(c: DisplayControlMain, start: DisplayControlMain) -> DisplayControlMain {
    start
        .with_bg_mode(c.bg_mode())
        .with_bg0_3d(c.bg0_3d())
        .with_tile_obj_mapping(c.tile_obj_mapping())
        .with_bm_obj_2d_dim(c.bm_obj_2d_dim())
        .with_bm_obj_mapping(c.bm_obj_mapping())
        .with_forced_blank(c.forced_blank())
        .with_display_bg0(c.display_bg0())
        .with_display_bg1(c.display_bg1())
        .with_display_bg2(c.display_bg2())
        .with_display_bg3(c.display_bg3())
        .with_display_obj(c.display_obj())
        .with_display_win0(c.display_win0())
        .with_display_win1(c.display_win1())
        .with_display_obj_win(c.display_obj_win())
        .with_display_mode(c.display_mode())
        .with_vram_display_block(c.vram_display_block())
        .with_tile_obj_1d_bound(c.tile_obj_1d_bound())
        .with_bm_obj_1d_bound(c.bm_obj_1d_bound())
        .with_obj_during_hblank(c.obj_during_hblank())
        .with_master_tiledata_base(c.master_tiledata_base())
        .with_master_tilemap_base(c.master_tilemap_base())
        .with_bg_ext_pal_enabled(c.bg_ext_pal_enabled())
        .with_obj_ext_pal_enabled(c.obj_ext_pal_enabled())
}

fn patterns() -> Vec<u32> {
    let mut out = vec![0, 0xFFFF_FFFF, 0xDEAD_BEEF, 0x5A3C_96E1, 0xA5C3_691E, 0x0000_FFFF, 0xFFFF_0000];
    for bit in 0..32 {
        out.push(1u32 << bit);
        out.push(!(1u32 << bit));
    }
    let mut x: u32 = 0x1234_5678;
    for _ in 0..2000 {
        x ^= x << 13;
        x ^= x >> 17;
        x ^= x << 5;
        out.push(x);
    }
    out
}

#[test]
fn main_control_raw_values_round_trip() {
    for raw in patterns() {
        let c = DisplayControlMain::from(raw);
        assert_eq!(u32::from(c), raw);
        assert_eq!(c.raw, raw);
        let rebuilt = main_control_rebuild(c, DisplayControlMain::new());
        assert_eq!(u32::from(rebuilt), raw);
        let over = main_control_rebuild(c, DisplayControlMain::from(!raw));
        assert_eq!(u32::from(over), raw);
    }
}

#[test]
fn main_control_setters_change_one_field() {
    for raw in [0u32, 0xFFFF_FFFF, 0x5A3C_96E1, 0xA5C3_691E] {
        let mut c = DisplayControlMain::from(raw);
        c.set_bg_mode(c.bg_mode() ^ 7);
        assert_eq!(c.raw, raw ^ 0x0000_0007);
        let mut c = DisplayControlMain::from(raw);
        c.set_bg0_3d(!c.bg0_3d());
        assert_eq!(c.raw, raw ^ 0x0000_0008);
        let mut c = DisplayControlMain::from(raw);
        c.set_tile_obj_mapping(!c.tile_obj_mapping());
        assert_eq!(c.raw, raw ^ 0x0000_0010);
        let mut c = DisplayControlMain::from(raw);
        c.set_bm_obj_2d_dim(!c.bm_obj_2d_dim());
        assert_eq!(c.raw, raw ^ 0x0000_0020);
        let mut c = DisplayControlMain::from(raw);
        c.set_bm_obj_mapping(!c.bm_obj_mapping());
        assert_eq!(c.raw, raw ^ 0x0000_0040);
        let mut c = DisplayControlMain::from(raw);
        c.set_forced_blank(!c.forced_blank());
        assert_eq!(c.raw, raw ^ 0x0000_0080);
        let mut c = DisplayControlMain::from(raw);
        c.set_display_bg0(!c.display_bg0());
        assert_eq!(c.raw, raw ^ 0x0000_0100);
        let mut c = DisplayControlMain::from(raw);
        c.set_display_bg1(!c.display_bg1());
        assert_eq!(c.raw, raw ^ 0x0000_0200);
        let mut c = DisplayControlMain::from(raw);
        c.set_display_bg2(!c.display_bg2());
        assert_eq!(c.raw, raw ^ 0x0000_0400);
        let mut c = DisplayControlMain::from(raw);
        c.set_display_bg3(!c.display_bg3());
        assert_eq!(c.raw, raw ^ 0x0000_0800);
        let mut c = DisplayControlMain::from(raw);
        c.set_display_obj(!c.display_obj());
        assert_eq!(c.raw, raw ^ 0x0000_1000);
        let mut c = DisplayControlMain::from(raw);
        c.set_display_win0(!c.display_win0());
        assert_eq!(c.raw, raw ^ 0x0000_2000);
        let mut c = DisplayControlMain::from(raw);
        c.set_display_win1(!c.display_win1());
        assert_eq!(c.raw, raw ^ 0x0000_4000);
        let mut c = DisplayControlMain::from(raw);
        c.set_display_obj_win(!c.display_obj_win());
        assert_eq!(c.raw, raw ^ 0x0000_8000);
        let mut c = DisplayControlMain::from(raw);
        c.set_display_mode(c.display_mode() ^ 3);
        assert_eq!(c.raw, raw ^ 0x0003_0000);
        let mut c = DisplayControlMain::from(raw);
        c.set_vram_display_block(c.vram_display_block() ^ 3);
        assert_eq!(c.raw, raw ^ 0x000C_0000);
        let mut c = DisplayControlMain::from(raw);
        c.set_tile_obj_1d_bound(c.tile_obj_1d_bound() ^ 3);
        assert_eq!(c.raw, raw ^ 0x0030_0000);
        let mut c = DisplayControlMain::from(raw);
        c.set_bm_obj_1d_bound(c.bm_obj_1d_bound() ^ 1);
        assert_eq!(c.raw, raw ^ 0x0040_0000);
        let mut c = DisplayControlMain::from(raw);
        c.set_obj_during_hblank(!c.obj_during_hblank());
        assert_eq!(c.raw, raw ^ 0x0080_0000);
        let mut c = DisplayControlMain::from(raw);
        c.set_master_tiledata_base(c.master_tiledata_base() ^ 7);
        assert_eq!(c.raw, raw ^ 0x0700_0000);
        let mut c = DisplayControlMain::from(raw);
        c.set_master_tilemap_base(c.master_tilemap_base() ^ 7);
        assert_eq!(c.raw, raw ^ 0x3800_0000);
        let mut c = DisplayControlMain::from(raw);
        c.set_bg_ext_pal_enabled(!c.bg_ext_pal_enabled());
        assert_eq!(c.raw, raw ^ 0x4000_0000);
        let mut c = DisplayControlMain::from(raw);
        c.set_obj_ext_pal_enabled(!c.obj_ext_pal_enabled());
        assert_eq!(c.raw, raw ^ 0x8000_0000);
    }
}

#[test]
fn main_control_field_accepts_every_value_of_its_width() {
    for v in 0u8..=7 {
        assert_eq!(DisplayControlMain::new().with_bg_mode(v).bg_mode(), v);
        assert_eq!(DisplayControlMain::from(0xFFFF_FFFF).with_bg_mode(v).bg_mode(), v);
    }
    for v in 0u8..=3 {
        assert_eq!(DisplayControlMain::new().with_display_mode(v).display_mode(), v);
        assert_eq!(DisplayControlMain::from(0xFFFF_FFFF).with_display_mode(v).display_mode(), v);
    }
    for v in 0u8..=3 {
        assert_eq!(DisplayControlMain::new().with_vram_display_block(v).vram_display_block(), v);
        assert_eq!(DisplayControlMain::from(0xFFFF_FFFF).with_vram_display_block(v).vram_display_block(), v);
    }
    for v in 0u8..=3 {
        assert_eq!(DisplayControlMain::new().with_tile_obj_1d_bound(v).tile_obj_1d_bound(), v);
        assert_eq!(DisplayControlMain::from(0xFFFF_FFFF).with_tile_obj_1d_bound(v).tile_obj_1d_bound(), v);
    }
    for v in 0u8..=7 {
        assert_eq!(DisplayControlMain::new().with_master_tiledata_base(v).master_tiledata_base(), v);
        assert_eq!(DisplayControlMain::from(0xFFFF_FFFF).with_master_tiledata_base(v).master_tiledata_base(), v);
    }
    for v in 0u8..=7 {
        assert_eq!(DisplayControlMain::new().with_master_tilemap_base(v).master_tilemap_base(), v);
        assert_eq!(DisplayControlMain::from(0xFFFF_FFFF).with_master_tilemap_base(v).master_tilemap_base(), v);
    }
}
