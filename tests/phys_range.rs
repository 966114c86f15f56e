use pci_scan::{get_phys_range_to_map, McfgEntry, PhysRange};

#[test]
fn range_covers_each_bus() {
    let entry = McfgEntry {
        base_address: 0xE000_0000,
        pci_segment_group: 0,
        bus_number_start: 0,
        bus_number_end: 0xFF,
    };
    assert_eq!(get_phys_range_to_map(&entry), PhysRange { start: 0xE000_0000, end: 0xF000_0000 });
    let partial = McfgEntry {
        base_address: 0xE000_0000,
        pci_segment_group: 1,
        bus_number_start: 0x10,
        bus_number_end: 0x10,
    };
    assert_eq!(get_phys_range_to_map(&partial), PhysRange { start: 0xE100_0000, end: 0xE110_0000 });
}
