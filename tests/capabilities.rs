use pci_scan::{Capability, CapabilityWalk, MSI_CAPABILITY_ID, MSI_X_CAPABILITY_ID};
use std::collections::HashMap;

fn walk(regs: &HashMap<u8, u32>, head: u32) -> Vec<Capability> {
    let mut w = CapabilityWalk::new(head);
    let mut out = Vec::new();
    while let Some(offset) = w.next_offset() {
        out.push(w.advance(regs[&offset]));
    }
    out
}

fn chain() -> HashMap<u8, u32> {
    let mut regs = HashMap::new();
    regs.insert(0x40, 0x0000_6005);
    regs.insert(0x60, 0x0000_0011);
    regs
}

#[test]
fn walk_yields_two_nodes_then_ends() {
    let caps = walk(&chain(), 0x40);
    assert_eq!(
        caps,
        vec![
            Capability { ptr_to_self: 0x40, id: 0x5, next_ptr: 0x60 },
            Capability { ptr_to_self: 0x60, id: 0x11, next_ptr: 0x00 },
        ]
    );
    let found = caps.iter().find(|c| c.id == MSI_X_CAPABILITY_ID).unwrap();
    assert_eq!(found.ptr_to_self, 0x60);
    let msi = caps.iter().find(|c| c.id == MSI_CAPABILITY_ID).unwrap();
    assert_eq!(msi.ptr_to_self, 0x40);
}

#[test]
fn head_pointer_is_low_byte() {
    let w = CapabilityWalk::new(0xABCD_EF40);
    assert_eq!(w.next_offset(), Some(0x40));
    assert_eq!(CapabilityWalk::new(0x1200).next_offset(), None);
}

#[test]
fn capability_fields_from_register() {
    assert_eq!(
        Capability::from_register(0x50, 0x1234_7010),
        Capability { ptr_to_self: 0x50, id: 0x10, next_ptr: 0x70 }
    );
}

#[test]
fn empty_list_yields_nothing() {
    assert!(walk(&HashMap::new(), 0).is_empty());
}
