use embedded_rust::init;
use embedded_rust::register::{MemoryMap, PeripheralWindow, RegisterAccess, RegisterError};

fn stm32_map() -> MemoryMap {
    let mut map = MemoryMap::new();
    map.add_window(PeripheralWindow { base: 0x4002_1000, size: 0x400 });
    map.add_window(PeripheralWindow { base: 0x4800_1000, size: 0x400 });
    map
}

#[test]
fn init_runs() {
    init();
}

#[test]
fn aligned_address_in_window_is_issued() {
    let map = stm32_map();
    for address in [0x4002_1014u32, 0x4800_1000, 0x4800_1018, 0x4800_13FC] {
        let reg = RegisterAccess::new(address, &map).unwrap();
        assert_eq!(reg.address(), address);
        assert_eq!(reg.read(), 0);
    }
}

#[test]
fn misaligned_address_is_refused() {
    let map = stm32_map();
    for address in [0x4800_1001u32, 0x4800_1002, 0x4800_1003, 0x4800_1019] {
        assert!(matches!(
            RegisterAccess::new(address, &map),
            Err(RegisterError::MisalignedAddress)
        ));
    }
}

#[test]
fn misaligned_outside_every_window_reports_misalignment() {
    let map = stm32_map();
    assert!(matches!(
        RegisterAccess::new(0x1, &map),
        Err(RegisterError::MisalignedAddress)
    ));
}

#[test]
fn address_outside_every_window_is_refused() {
    let map = stm32_map();
    for address in [0x0u32, 0x4800_0FFC, 0x4800_1400, 0xFFFF_FFFC] {
        assert!(matches!(
            RegisterAccess::new(address, &map),
            Err(RegisterError::OutOfRange)
        ));
    }
}

#[test]
fn empty_map_issues_nothing() {
    let map = MemoryMap::new();
    assert!(matches!(
        RegisterAccess::new(0x4800_1000, &map),
        Err(RegisterError::OutOfRange)
    ));
}

#[test]
fn window_at_top_of_address_space() {
    let mut map = MemoryMap::new();
    map.add_window(PeripheralWindow { base: 0xFFFF_FF00, size: 0x100 });
    assert!(RegisterAccess::new(0xFFFF_FFFC, &map).is_ok());
    assert!(map.contains(0xFFFF_FF00));
    assert!(!map.contains(0xFFFF_FEFC));
}

#[test]
fn window_must_hold_the_whole_register() {
    let w = PeripheralWindow { base: 0x4000_0000, size: 6 };
    assert!(w.contains(0x4000_0000));
    assert!(!w.contains(0x4000_0004));
}

#[test]
fn write_then_read() {
    let map = stm32_map();
    let mut reg = RegisterAccess::new(0x4800_1018, &map).unwrap();
    reg.write(0xDEAD_BEEF);
    assert_eq!(reg.read(), 0xDEAD_BEEF);
    assert_eq!(reg.address(), 0x4800_1018);
}

#[test]
fn modify_changes_only_the_masked_nibble() {
    let map = stm32_map();
    let mut reg = RegisterAccess::new(0x4800_1000, &map).unwrap();
    reg.write(0xFF);
    reg.modify(0xF0, 0x30);
    assert_eq!(reg.read(), 0x3F);
}

#[test]
fn modify_ignores_value_bits_outside_the_mask() {
    let map = stm32_map();
    let mut reg = RegisterAccess::new(0x4800_1000, &map).unwrap();
    reg.write(0x1234_5678);
    reg.modify(0x0000_FF00, 0xFFFF_FFFF);
    assert_eq!(reg.read(), 0x1234_FF78);
    reg.modify(0, 0xFFFF_FFFF);
    assert_eq!(reg.read(), 0x1234_FF78);
}
