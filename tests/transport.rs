use pci_scan::config_access::{
    ecam_offset, legacy_address, legacy_merge_u16, legacy_read_u16_from, u16_from_le_bytes,
    u16_to_le_bytes, u32_from_le_bytes, u32_to_le_bytes, CONFIG_ADDRESS_PORT, CONFIG_DATA_PORT,
};
use std::collections::HashMap;

#[test]
fn legacy_address_packs_fields() {
    assert_eq!(legacy_address(1, 2, 3, 0x10), 0x8001_1310);
    assert_eq!(legacy_address(0xFF, 31, 7, 0xFC), 0x80FF_FFFC);
    assert_eq!(legacy_address(0, 0, 0, 0), 0x8000_0000);
}

#[test]
fn legacy_address_forces_dword_alignment() {
    assert_eq!(legacy_address(0, 0, 0, 0x0E), 0x8000_000C);
    assert_eq!(legacy_address(0, 0, 0, 0x12), 0x8000_0010);
}

#[test]
fn legacy_ports() {
    assert_eq!(CONFIG_ADDRESS_PORT, 0xCF8);
    assert_eq!(CONFIG_DATA_PORT, 0xCFC);
}

#[test]
fn legacy_u16_extraction() {
    assert_eq!(legacy_read_u16_from(0xABCD_1234, 0x0), 0x1234);
    assert_eq!(legacy_read_u16_from(0xABCD_1234, 0x2), 0xABCD);
    assert_eq!(legacy_read_u16_from(0xABCD_1234, 0xE), 0xABCD);
}

#[test]
fn legacy_u16_merge_keeps_other_half() {
    assert_eq!(legacy_merge_u16(0xABCD_1234, 0x2, 0x5678), 0x5678_1234);
    assert_eq!(legacy_merge_u16(0xABCD_1234, 0x4, 0x5678), 0xABCD_5678);
}

#[test]
fn ecam_offsets() {
    assert_eq!(ecam_offset(0, 1, 2, 3, 0x10), 0x11_3010);
    assert_eq!(ecam_offset(1, 1, 2, 3, 0x10), 0x1_3010);
    assert_eq!(ecam_offset(0, 0, 31, 7, 0xFC), 0xF_F0FC);
}

#[test]
fn little_endian_bytes() {
    assert_eq!(u32_to_le_bytes(0x1234_5678), [0x78, 0x56, 0x34, 0x12]);
    assert_eq!(u32_from_le_bytes([0x78, 0x56, 0x34, 0x12]), 0x1234_5678);
    assert_eq!(u16_to_le_bytes(0xBEEF), [0xEF, 0xBE]);
    assert_eq!(u16_from_le_bytes([0xEF, 0xBE]), 0xBEEF);
}

fn legacy_write_u16(regs: &mut HashMap<u32, u32>, b: u8, d: u8, f: u8, o: u8, v: u16) {
    let addr = legacy_address(b, d, f, o);
    let old = *regs.get(&addr).unwrap_or(&0xFFFF_FFFF);
    regs.insert(addr, legacy_merge_u16(old, o, v));
}

fn legacy_read_u16(regs: &HashMap<u32, u32>, b: u8, d: u8, f: u8, o: u8) -> u16 {
    legacy_read_u16_from(*regs.get(&legacy_address(b, d, f, o)).unwrap_or(&0xFFFF_FFFF), o)
}

#[test]
fn legacy_write_then_read_round_trip() {
    let mut regs = HashMap::new();
    regs.insert(legacy_address(0, 3, 0, 0x4), 0x0010_0000u32);
    legacy_write_u16(&mut regs, 0, 3, 0, 0x4, 0x0406);
    assert_eq!(legacy_read_u16(&regs, 0, 3, 0, 0x4), 0x0406);
    assert_eq!(legacy_read_u16(&regs, 0, 3, 0, 0x6), 0x0010);
    legacy_write_u16(&mut regs, 0, 3, 0, 0x6, 0xBEEF);
    assert_eq!(legacy_read_u16(&regs, 0, 3, 0, 0x6), 0xBEEF);
    assert_eq!(legacy_read_u16(&regs, 0, 3, 0, 0x4), 0x0406);
    regs.insert(legacy_address(0, 3, 0, 0x10), 0xDEAD_BEEF);
    assert_eq!(regs[&legacy_address(0, 3, 0, 0x10)], 0xDEAD_BEEF);
}

#[test]
fn extended_write_then_read_round_trip() {
    let mut window = vec![0xFFu8; 0x20_0000];
    let at = ecam_offset(4, 5, 1, 2, 0x10);
    window[at..at + 4].copy_from_slice(&u32_to_le_bytes(0xFEB0_0000));
    let mut b4 = [0u8; 4];
    b4.copy_from_slice(&window[at..at + 4]);
    assert_eq!(u32_from_le_bytes(b4), 0xFEB0_0000);
    let at16 = ecam_offset(4, 5, 1, 2, 0x2);
    window[at16..at16 + 2].copy_from_slice(&u16_to_le_bytes(0x1234));
    assert_eq!(u16_from_le_bytes([window[at16], window[at16 + 1]]), 0x1234);
}
