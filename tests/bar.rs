use pci_scan::{
    decode_bar, BarCommon, BarProbe, BarProbeAction, BarWithSize, IoBarInfo, IoSpaceBar,
    MemoryBarAddrAndSize, MemoryBarAddrAndSizeU32, MemoryBarAddrAndSizeU64, MemoryBarInfo,
    MemorySpaceBar,
};
use std::collections::HashMap;

#[test]
fn io_bar_decodes_address_and_size() {
    assert_eq!(IoSpaceBar(0x0000_C001).addr(), 0xC000);
    assert_eq!(
        decode_bar(0x0000_C001, 0xFFFF_FFFC, 0, 0),
        BarWithSize::Io(IoBarInfo { addr: 0xC000, size: 4 })
    );
}

#[test]
fn type_bits_of_raw_four_name_a_64_bit_memory_bar() {
    assert_eq!(BarCommon(0x4).bar_type(), 0);
    assert_eq!(MemorySpaceBar(0x4).memory_type(), 0b10);
    assert!(!MemorySpaceBar(0x4).prefetchable());
    let bar = decode_bar(0x0000_0004, 0xFFFF_F000, 0, 0xFFFF_FFFF);
    assert_eq!(
        bar,
        BarWithSize::Memory(MemoryBarInfo {
            addr_and_size: MemoryBarAddrAndSize::U64(MemoryBarAddrAndSizeU64 { addr: 0, size: 0x1000 }),
            prefetchable: false,
        })
    );
    assert_eq!(bar.slots_len(), 2);
}

#[test]
fn sixty_four_bit_size_from_combined_mask() {
    let bar = decode_bar(0xFE00_000C, 0xFFFF_F00C, 0x0000_0001, 0xFFFF_FFFF);
    match bar {
        BarWithSize::Memory(info) => {
            assert!(info.prefetchable);
            assert_eq!(info.addr_and_size.addr_u64(), 0x1_FE00_0000);
            assert_eq!(info.addr_and_size.size_u64(), 0x1000);
        }
        BarWithSize::Io(_) => panic!("expected a memory BAR"),
    }
    let big = decode_bar(0x0000_000C, 0x0000_000C, 0, 0xFFFF_FFF0);
    match big {
        BarWithSize::Memory(info) => assert_eq!(info.addr_and_size.size_u64(), 0x10_0000_0000),
        BarWithSize::Io(_) => panic!("expected a memory BAR"),
    }
}

#[test]
fn thirty_two_bit_memory_bar() {
    let bar = decode_bar(0xFEB0_0008, 0xFFF0_0008, 0, 0);
    assert_eq!(
        bar,
        BarWithSize::Memory(MemoryBarInfo {
            addr_and_size: MemoryBarAddrAndSize::U32(MemoryBarAddrAndSizeU32 {
                addr: 0xFEB0_0000,
                size: 0x10_0000,
            }),
            prefetchable: true,
        })
    );
    assert_eq!(bar.slots_len(), 1);
}

#[test]
fn all_zero_mask_wraps_to_zero_size() {
    assert_eq!(
        decode_bar(0x0000_C001, 0x0000_0001, 0, 0),
        BarWithSize::Io(IoBarInfo { addr: 0xC000, size: 0 })
    );
    assert_eq!(
        decode_bar(0xFEB0_0000, 0x0000_0000, 0, 0),
        BarWithSize::Memory(MemoryBarInfo {
            addr_and_size: MemoryBarAddrAndSize::U32(MemoryBarAddrAndSizeU32 { addr: 0xFEB0_0000, size: 0 }),
            prefetchable: false,
        })
    );
}

#[test]
fn widening_accessors() {
    let narrow = MemoryBarAddrAndSize::U32(MemoryBarAddrAndSizeU32 { addr: 0xFEB0_0000, size: 0x1000 });
    assert_eq!(narrow.addr_u64(), 0xFEB0_0000);
    assert_eq!(narrow.size_u64(), 0x1000);
    assert_eq!(
        narrow.addr_and_size_u64(),
        MemoryBarAddrAndSizeU64 { addr: 0xFEB0_0000, size: 0x1000 }
    );
    let wide = MemoryBarAddrAndSize::U64(MemoryBarAddrAndSizeU64 { addr: 0x1_0000_0000, size: 0x2000 });
    assert_eq!(wide.addr_u64(), 0x1_0000_0000);
    assert_eq!(wide.size_u64(), 0x2000);
    assert_eq!(
        wide.addr_and_size_u64(),
        MemoryBarAddrAndSizeU64 { addr: 0x1_0000_0000, size: 0x2000 }
    );
    assert_eq!(BarWithSize::Io(IoBarInfo { addr: 0, size: 4 }).slots_len(), 1);
}

/// A register that keeps its read-only bits when written.
struct Reg {
    value: u32,
    writable: u32,
}

fn run_probe(regs: &mut HashMap<u8, Reg>, index: u8) -> (Option<BarWithSize>, usize) {
    let mut probe = BarProbe::new(index);
    let mut transactions = 0;
    loop {
        match probe.action() {
            BarProbeAction::Read { register_offset } => {
                let v = regs[&register_offset].value;
                probe.advance(v);
            }
            BarProbeAction::Write { register_offset, value } => {
                let r = regs.get_mut(&register_offset).unwrap();
                r.value = (value & r.writable) | (r.value & !r.writable);
                probe.advance(0);
            }
            BarProbeAction::Finished => break,
        }
        transactions += 1;
    }
    assert!(probe.is_finished());
    (probe.result(), transactions)
}

#[test]
fn sizing_restores_registers_and_repeats() {
    let mut regs = HashMap::new();
    regs.insert(0x10, Reg { value: 0xFEA0_000C, writable: 0xFFFF_C000 });
    regs.insert(0x14, Reg { value: 0x0000_0002, writable: 0xFFFF_FFFF });
    let (first, n) = run_probe(&mut regs, 0);
    assert_eq!(n, 8);
    assert_eq!(regs[&0x10].value, 0xFEA0_000C);
    assert_eq!(regs[&0x14].value, 0x0000_0002);
    let (second, _) = run_probe(&mut regs, 0);
    assert_eq!(first, second);
    assert_eq!(
        first,
        Some(BarWithSize::Memory(MemoryBarInfo {
            addr_and_size: MemoryBarAddrAndSize::U64(MemoryBarAddrAndSizeU64 {
                addr: 0x2_FEA0_0000,
                size: 0x4000,
            }),
            prefetchable: true,
        }))
    );
}

#[test]
fn sizing_an_io_bar_touches_one_slot() {
    let mut regs = HashMap::new();
    regs.insert(0x18, Reg { value: 0x0000_E001, writable: 0xFFFF_FFE0 });
    let (bar, n) = run_probe(&mut regs, 2);
    assert_eq!(n, 4);
    assert_eq!(regs[&0x18].value, 0x0000_E001);
    assert_eq!(bar, Some(BarWithSize::Io(IoBarInfo { addr: 0xE000, size: 0x20 })));
}

#[test]
fn empty_slot_is_absent_without_writes() {
    let mut regs = HashMap::new();
    regs.insert(0x24, Reg { value: 0, writable: 0xFFFF_FFFF });
    let (bar, n) = run_probe(&mut regs, 5);
    assert_eq!(bar, None);
    assert_eq!(n, 1);
    assert_eq!(regs[&0x24].value, 0);
}

#[test]
fn reserved_memory_width_is_absent() {
    let mut regs = HashMap::new();
    regs.insert(0x10, Reg { value: 0xFEB0_0006, writable: 0xFFFF_0000 });
    let (bar, n) = run_probe(&mut regs, 0);
    assert_eq!(bar, None);
    assert_eq!(n, 1);
}
