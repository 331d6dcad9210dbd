use port_io::bus::PortBus;
use port_io::port::Port;

#[test]
fn equal_addresses_compare_equal() {
    assert_eq!(Port::new(0x60), Port::new(0x60));
    assert!(Port::new(0x60) != Port::new(0x61));
    assert_eq!(Port::new(0), Port::new(0));
}

#[test]
fn default_names_address_zero() {
    let p = Port::default();
    assert_eq!(p.address(), 0);
    assert_eq!(p, Port::new(0));
}

#[test]
fn address_is_kept() {
    assert_eq!(Port::new(0x3F8).address(), 0x3F8);
    assert_eq!(Port::new(65535).address(), 65535);
}

#[test]
fn renders_decimal() {
    assert_eq!(Port::new(0).to_decimal().as_str(), "0");
    assert_eq!(Port::new(7).to_decimal().as_str(), "7");
    assert_eq!(Port::new(1234).to_decimal().as_str(), "1234");
    assert_eq!(Port::new(65535).to_decimal().as_str(), "65535");
    assert_eq!(Port::new(0x3F8).to_decimal().as_str(), "1016");
}

#[test]
fn fresh_bus_reads_zero() {
    let bus = PortBus::new();
    let p = Port::new(0x1234);
    assert_eq!(p.read::<u8>(&bus), 0);
    assert_eq!(p.read::<u16>(&bus), 0);
    assert_eq!(p.read::<u32>(&bus), 0);
}

#[test]
fn round_trip_u8() {
    let mut bus = PortBus::new();
    let p = Port::new(0x70);
    p.write::<u8>(0xAB, &mut bus);
    assert_eq!(p.read::<u8>(&bus), 0xAB);
}

#[test]
fn round_trip_u16() {
    let mut bus = PortBus::new();
    let p = Port::new(0x1F0);
    p.write::<u16>(0xBEEF, &mut bus);
    assert_eq!(p.read::<u16>(&bus), 0xBEEF);
}

#[test]
fn round_trip_u32() {
    let mut bus = PortBus::new();
    let p = Port::new(0xCF8);
    p.write::<u32>(0x8000_0000, &mut bus);
    assert_eq!(p.read::<u32>(&bus), 0x8000_0000);
}

#[test]
fn keyboard_data_port_scan_code() {
    // PS/2 keyboard data port preloaded with a scan code.
    let mut bus = PortBus::new();
    Port::new(0x60).write::<u8>(0x1E, &mut bus);
    assert_eq!(Port::new(0x60).read::<u8>(&bus), 0x1E);
}

#[test]
fn serial_write_touches_only_its_address() {
    let mut bus = PortBus::new();
    Port::new(0x3F8).write::<u8>(0x41, &mut bus);
    for addr in 0..=65535u16 {
        if addr == 0x3F8 {
            assert_eq!(bus.byte_at(addr), 0x41);
        } else {
            assert_eq!(bus.byte_at(addr), 0);
        }
        assert_eq!(bus.word_at(addr), 0);
        assert_eq!(bus.dword_at(addr), 0);
    }
}

#[test]
fn widths_use_separate_lanes() {
    let mut bus = PortBus::new();
    let p = Port::new(0x170);
    p.write::<u8>(0xFF, &mut bus);
    assert_eq!(p.read::<u16>(&bus), 0);
    assert_eq!(p.read::<u32>(&bus), 0);
    p.write::<u16>(0x1234, &mut bus);
    assert_eq!(p.read::<u8>(&bus), 0xFF);
    assert_eq!(p.read::<u32>(&bus), 0);
    p.write::<u32>(0xDEAD_BEEF, &mut bus);
    assert_eq!(p.read::<u8>(&bus), 0xFF);
    assert_eq!(p.read::<u16>(&bus), 0x1234);
}

#[test]
fn read_to_fills_buffer_and_chains() {
    let mut bus = PortBus::new();
    let p = Port::new(0x40);
    p.write::<u8>(0x55, &mut bus);
    let mut buf: u8 = 0;
    let handle = p.read_to(&mut buf, &bus);
    assert_eq!(buf, 0x55);
    assert_eq!(*handle, p);
}

#[test]
fn write_chains() {
    let mut bus = PortBus::new();
    let p = Port::new(0x20);
    p.write::<u8>(0x11, &mut bus).write::<u16>(0x2222, &mut bus);
    assert_eq!(p.read::<u8>(&bus), 0x11);
    assert_eq!(p.read::<u16>(&bus), 0x2222);
}

#[test]
fn overwrite_keeps_last_value() {
    let mut bus = PortBus::new();
    let p = Port::new(0x21);
    p.write::<u8>(0x01, &mut bus);
    p.write::<u8>(0x02, &mut bus);
    assert_eq!(p.read::<u8>(&bus), 0x02);
}

#[test]
fn aliasing_handles_see_the_same_cell() {
    let mut bus = PortBus::new();
    let a = Port::new(0x64);
    let b = Port::new(0x64);
    a.write::<u8>(0xAE, &mut bus);
    assert_eq!(b.read::<u8>(&bus), 0xAE);
}
