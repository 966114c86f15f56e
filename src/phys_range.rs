//! The physical range that one extended configuration-space segment
//! occupies, from the platform's routing-table entry.
use vstd::prelude::*;

verus! {

/// One segment entry of the platform's routing table: the base address of
/// its window and the buses it covers.
#[derive(Debug, Clone, Copy, PartialEq, Eq)]
pub struct McfgEntry {
    pub base_address: u64,
    pub pci_segment_group: u16,
    pub bus_number_start: u8,
    pub bus_number_end: u8,
}

/// A half-open range of physical addresses.
#[derive(Debug, Clone, Copy, PartialEq, Eq)]
pub struct PhysRange {
    pub start: u64,
    pub end: u64,
}

/// Each bus takes 1 MiB of the window.
pub const BUS_WINDOW_SIZE: u64 = 0x10_0000;

/// The range to map before building an extended transport for `mcfg_entry`:
/// from `base + (first_bus << 20)`, one MiB for each bus up to the last.
pub fn get_phys_range_to_map(mcfg_entry: &McfgEntry) -> (r: PhysRange)
    requires
        mcfg_entry.bus_number_start <= mcfg_entry.bus_number_end,
        mcfg_entry.base_address + (mcfg_entry.bus_number_end + 1) * 0x10_0000 <= u64::MAX,
    ensures
        r.start == mcfg_entry.base_address + mcfg_entry.bus_number_start * 0x10_0000,
        r.end == r.start + (mcfg_entry.bus_number_end - mcfg_entry.bus_number_start + 1)
            * 0x10_0000,
{
    let n_buses: u64 = (mcfg_entry.bus_number_end - mcfg_entry.bus_number_start) as u64 + 1;
    let start = mcfg_entry.base_address + (mcfg_entry.bus_number_start as u64) * BUS_WINDOW_SIZE;
    let len = n_buses * BUS_WINDOW_SIZE;
    PhysRange { start, end: start + len }
}

} // verus!
