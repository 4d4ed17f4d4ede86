use nds_display::{
    get_main_bg_control, get_main_display_control, get_sub_bg_control, get_sub_display_control,
    main_bg_control_register, set_main_bg_control, set_main_display_control, set_sub_bg_control,
    set_sub_display_control, sub_bg_control_register, AddressTable, BackgroundControl,
    DisplayControlMain, DisplayControlSub,
};

fn table() -> AddressTable {
    AddressTable {
        dispcnt_main: 0x0400_0000,
        dispcnt_sub: 0x0400_1000,
        bg0cnt_main: 0x0400_0008,
        bg0cnt_sub: 0x0400_1008,
        powcnt1: 0x0400_0304,
        master_bright_main: 0x0400_006C,
        dispstat: 0x0400_0004,
    }
}

#[test]
fn layer_four_aliases_layer_zero() {
    let t = table();
    assert_eq!(main_bg_control_register(&t, 4), main_bg_control_register(&t, 0));
    assert_eq!(sub_bg_control_register(&t, 4), sub_bg_control_register(&t, 0));
    let c = BackgroundControl::from(0x1234);
    assert_eq!(set_main_bg_control(&t, 4, c), set_main_bg_control(&t, 0, c));
    assert_eq!(set_sub_bg_control(&t, 4, c), set_sub_bg_control(&t, 0, c));
}

#[test]
fn layer_registers_are_two_bytes_apart() {
    let t = table();
    assert_eq!(main_bg_control_register(&t, 0), 0x0400_0008);
    assert_eq!(main_bg_control_register(&t, 1), 0x0400_000A);
    assert_eq!(main_bg_control_register(&t, 2), 0x0400_000C);
    assert_eq!(main_bg_control_register(&t, 3), 0x0400_000E);
    assert_eq!(sub_bg_control_register(&t, 0), 0x0400_1008);
    assert_eq!(sub_bg_control_register(&t, 1), 0x0400_100A);
    assert_eq!(sub_bg_control_register(&t, 2), 0x0400_100C);
    assert_eq!(sub_bg_control_register(&t, 3), 0x0400_100E);
}

#[test]
fn layer_index_wraps_modulo_four() {
    let t = table();
    for bg in [4usize, 5, 6, 7, 8, 103, 1_000_000, usize::MAX - 1, usize::MAX] {
        assert_eq!(main_bg_control_register(&t, bg), main_bg_control_register(&t, bg % 4));
        assert_eq!(sub_bg_control_register(&t, bg), sub_bg_control_register(&t, bg % 4));
        assert_eq!(main_bg_control_register(&t, bg), 0x0400_0008 + 2 * (bg % 4));
    }
    assert_eq!(main_bg_control_register(&t, usize::MAX), 0x0400_000E);
}

#[test]
fn layer_registers_at_the_end_of_the_address_space() {
    let mut t = table();
    t.bg0cnt_main = usize::MAX - 6;
    t.bg0cnt_sub = 0;
    assert_eq!(main_bg_control_register(&t, 3), usize::MAX);
    assert_eq!(main_bg_control_register(&t, 7), usize::MAX);
    assert_eq!(sub_bg_control_register(&t, 0), 0);
    assert_eq!(sub_bg_control_register(&t, 2), 4);
}

#[test]
fn bg_control_setter_stores_the_raw_value_at_the_layer() {
    let t = table();
    let c = BackgroundControl::new().with_priority(1).with_tilemap_base(4).with_screen_size(2);
    let main = set_main_bg_control(&t, 2, c);
    assert_eq!(main.address, 0x0400_000C);
    assert_eq!(main.value, 0x8401);
    let sub = set_sub_bg_control(&t, 3, c);
    assert_eq!(sub.address, 0x0400_100E);
    assert_eq!(sub.value, 0x8401);
}

#[test]
fn bg_control_getter_takes_any_bit_pattern() {
    for raw in [0u16, 0xFFFF, 0x8401, 0x1234] {
        assert_eq!(u16::from(get_main_bg_control(raw)), raw);
        assert_eq!(u16::from(get_sub_bg_control(raw)), raw);
    }
    let c = get_main_bg_control(0x8401);
    assert_eq!(c.priority(), 1);
    assert_eq!(c.tilemap_base(), 4);
    assert_eq!(c.screen_size(), 2);
    assert_eq!(get_sub_bg_control(0x8401), c);
}

#[test]
fn display_control_setters_store_the_raw_value() {
    let t = table();
    let main = DisplayControlMain::new().with_bg_mode(5).with_display_bg0(true).with_display_mode(1);
    let store = set_main_display_control(&t, main);
    assert_eq!(store.address, 0x0400_0000);
    assert_eq!(store.value, 0x0001_0105);
    let sub = DisplayControlSub::new().with_bg_mode(3).with_display_obj(true).with_display_mode(1);
    let store = set_sub_display_control(&t, sub);
    assert_eq!(store.address, 0x0400_1000);
    assert_eq!(store.value, 0x0001_1003);
}

#[test]
fn display_control_getters_take_any_bit_pattern() {
    for raw in [0u32, 0xFFFF_FFFF, 0x0001_0105, 0xDEAD_BEEF] {
        assert_eq!(u32::from(get_main_display_control(raw)), raw);
        assert_eq!(u32::from(get_sub_display_control(raw)), raw);
    }
    let main = get_main_display_control(0x0001_0105);
    assert_eq!(main.bg_mode(), 5);
    assert!(main.display_bg0());
    assert!(!main.display_bg1());
    assert_eq!(main.display_mode(), 1);
    let sub = get_sub_display_control(0x0001_1003);
    assert_eq!(sub.bg_mode(), 3);
    assert!(sub.display_obj());
    assert_eq!(sub.display_mode(), 1);
}

#[test]
fn get_after_set_gives_the_value_back() {
    let t = table();
    let main = DisplayControlMain::from(0x9ABC_DEF0);
    assert_eq!(get_main_display_control(set_main_display_control(&t, main).value), main);
    let sub = DisplayControlSub::from(0x9ABC_DEF0);
    assert_eq!(get_sub_display_control(set_sub_display_control(&t, sub).value), sub);
    let bg = BackgroundControl::from(0xBEEF);
    assert_eq!(get_main_bg_control(set_main_bg_control(&t, 9, bg).value), bg);
    assert_eq!(get_sub_bg_control(set_sub_bg_control(&t, 9, bg).value), bg);
}

#[test]
fn address_table_with_room_for_all_layers_is_well_formed() {
    let mut t = table();
    assert!(t.is_wf());
    t.bg0cnt_main = usize::MAX - 6;
    assert!(t.is_wf());
    t.bg0cnt_main = usize::MAX - 5;
    assert!(!t.is_wf());
    t.bg0cnt_main = 0;
    t.bg0cnt_sub = usize::MAX;
    assert!(!t.is_wf());
}
