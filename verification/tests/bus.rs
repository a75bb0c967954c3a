use rnes::bus::{Addressable, Bus, BusMode};
use rnes::cpu::memory::InternalRam;
use rnes::error::CoreError;

/// Work memory in which every byte is `data`.
fn filled(data: u8) -> InternalRam {
    InternalRam { data: [data; 0x800] }
}

#[test]
fn test_register_region() {
    let mut bus = Bus::new();
    let mock = filled(0);

    bus.register_region(0, 9, mock);

    assert!(bus.region_count() > 0);
}

#[test]
fn test_read_byte() {
    let mut bus = Bus::new();
    let mock = filled(0x88u8);

    bus.register_region(0, 9, mock);

    let result = bus.read_byte(0).unwrap();

    assert_eq!(result, 0x88u8);
}

#[test]
fn test_read_byte_multiple_regions() {
    let mut bus = Bus::new();
    let mock_a = filled(0x88u8);
    let mock_b = filled(0xEFu8);

    bus.register_region(0, 9, mock_a);
    bus.register_region(10, 19, mock_b);

    let result_a = bus.read_byte(0).unwrap();
    let result_b = bus.read_byte(10).unwrap();

    assert_eq!(result_a, 0x88u8);
    assert_eq!(result_b, 0xEFu8);
}

#[test]
fn test_write_byte() {
    let mut bus = Bus::new();
    let mock = filled(0);

    let slot = bus.register_region(0, 9, mock);
    bus.write_byte(0u16, 0xFEu8).unwrap();

    let result = bus.component(slot).unwrap().data[0];
    assert_eq!(result, 0xFEu8);
}

#[test]
fn test_write_byte_multiple_regions() {
    let mut bus = Bus::new();
    let mock_a = filled(0);
    let mock_b = filled(0);

    let slot_a = bus.register_region(0, 9, mock_a);
    let slot_b = bus.register_region(10, 19, mock_b);

    bus.write_byte(0u16, 0xFEu8).unwrap();
    bus.write_byte(15u16, 0xABu8).unwrap();

    let result_a = bus.component(slot_a).unwrap().data[0];
    let result_b = bus.component(slot_b).unwrap().data[15];
    assert_eq!(result_a, 0xFEu8);
    assert_eq!(result_b, 0xABu8);
}

#[test]
fn test_read_word() {
    let mut bus = Bus::new();
    let mock = filled(0x88u8);

    bus.register_region(0, 0xF, mock);

    let result = bus.read_word(0).unwrap();

    assert_eq!(result, 0x8888u16);
}

#[test]
fn test_read_word_cross_boundary() {
    let mut bus = Bus::new();
    let mock_a = filled(0x88u8);
    let mock_b = filled(0x77u8);

    bus.register_region(0, 0xF, mock_a);
    bus.register_region(0x10, 0x1F, mock_b);

    let result = bus.read_word(0xF).unwrap();

    assert_eq!(result, 0x7788u16);
}

#[test]
fn test_read_word_bug() {
    let mut bus = Bus::new();
    let mock_a = filled(0x88u8);
    let mock_b = filled(0x77u8);

    bus.register_region(0, 0xFF, mock_a);
    bus.register_region(0x100, 0x1FF, mock_b);

    let result = bus.read_word_bug(0xF).unwrap();

    assert_eq!(result, 0x8888u16);
}

#[test]
fn test_write_word() {
    let mut bus = Bus::new();
    let mock = filled(0);

    let slot = bus.register_region(0, 9, mock);
    bus.write_word(0u16, 0xDEADu16).unwrap();

    let res_low = bus.component(slot).unwrap().data[0];
    let res_high = bus.component(slot).unwrap().data[1];
    assert_eq!(res_low, 0xADu8);
    assert_eq!(res_high, 0xDEu8);
}

#[test]
fn test_write_word_cross_boundary() {
    let mut bus = Bus::new();
    let mock_a = filled(0x88u8);
    let mock_b = filled(0x77u8);

    let slot_a = bus.register_region(0, 0xFF, mock_a);
    let slot_b = bus.register_region(0x100, 0x1FF, mock_b);

    bus.write_word(0xFFu16, 0x1122u16).unwrap();

    assert_eq!(bus.component(slot_a).unwrap().data[0xFF], 0x22u8);
    assert_eq!(bus.component(slot_b).unwrap().data[0x100], 0x11u8);
}

#[test]
fn read_word_bug_wraps_within_the_page() {
    let mut bus = Bus::new();
    bus.register_region(0x0000, 0x1FFF, filled(0));
    bus.write_byte(0x01FF, 0x88).unwrap();
    bus.write_byte(0x0100, 0xAA).unwrap();
    bus.write_byte(0x0200, 0x77).unwrap();

    assert_eq!(bus.read_word_bug(0x01FF).unwrap(), 0xAA88);
    assert_eq!(bus.read_word(0x01FF).unwrap(), 0x7788);
}

#[test]
fn earlier_region_shadows_later_one() {
    let mut bus = Bus::new();
    let first = bus.register_region(0x10, 0x1F, filled(0x11));
    let second = bus.register_region(0x18, 0x2F, filled(0x22));

    assert_eq!(bus.read_byte(0x18).unwrap(), 0x11);
    assert_eq!(bus.read_byte(0x20).unwrap(), 0x22);
    bus.write_byte(0x1F, 0x33).unwrap();
    assert_eq!(bus.component(first).unwrap().data[0x1F], 0x33);
    assert_eq!(bus.component(second).unwrap().data[0x1F], 0x22);
}

#[test]
fn open_bus_answers_with_the_last_byte_seen() {
    let mut bus = Bus::new();
    bus.register_region(0, 9, filled(0x5A));

    assert_eq!(bus.read_byte(0x4000).unwrap(), 0);
    assert_eq!(bus.read_byte(3).unwrap(), 0x5A);
    assert_eq!(bus.read_byte(0x4000).unwrap(), 0x5A);
    assert_eq!(bus.last_read(), 0x5A);
    assert_eq!(bus.write_byte(0x4000, 1), Ok(()));
    assert_eq!(bus.read_word(0x4000).unwrap(), 0x5A5A);
}

#[test]
fn strict_bus_refuses_unmapped_addresses() {
    let mut bus = Bus::with_mode(BusMode::Strict);
    bus.register_region(0, 9, filled(0x5A));

    assert_eq!(bus.mode(), BusMode::Strict);
    assert_eq!(bus.read_byte(9).unwrap(), 0x5A);
    assert_eq!(bus.read_byte(10), Err(CoreError::InvalidRegion(10)));
    assert_eq!(bus.write_byte(0x4000, 1), Err(CoreError::InvalidRegion(0x4000)));
    assert_eq!(bus.read_word(9), Err(CoreError::InvalidRegion(10)));
    assert_eq!(bus.write_word(9, 0x1234), Err(CoreError::InvalidRegion(10)));
    assert_eq!(bus.component(0).unwrap().data[9], 0x34);
}

#[test]
fn words_wrap_at_the_top_of_the_address_space() {
    let mut bus = Bus::new();
    bus.register_region(0x0000, 0xFFFF, filled(0));
    bus.write_byte(0xFFFF, 0x34).unwrap();
    bus.write_byte(0x0000, 0x12).unwrap();

    assert_eq!(bus.read_word(0xFFFF).unwrap(), 0x1234);
    bus.write_word(0xFFFF, 0xBEEF).unwrap();
    assert_eq!(bus.read_byte(0x07FF).unwrap(), 0xEF);
    assert_eq!(bus.read_byte(0x0000).unwrap(), 0xBE);
}

#[test]
fn shared_region_reaches_the_same_component() {
    let mut bus = Bus::new();
    let slot = bus.register_region(0x0000, 0x000F, filled(0));

    assert!(bus.share_region(0x8000, 0x800F, slot));
    assert!(!bus.share_region(0x9000, 0x900F, slot + 1));
    assert_eq!(bus.region_count(), 2);
    bus.write_byte(0x8003, 0x42).unwrap();
    assert_eq!(bus.read_byte(0x0003).unwrap(), 0x42);
    assert!(bus.component(slot + 1).is_none());
    bus.component_mut(slot).unwrap().write_byte(4, 0x43);
    assert_eq!(bus.read_byte(0x8004).unwrap(), 0x43);
}
