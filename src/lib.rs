//! PCI / PCIe configuration-space logic: register addressing for the legacy
//! port mechanism and the memory-mapped extended mechanism, existence probing,
//! BAR decoding and sizing, capability-list walking, and MSI / MSI-X register
//! interpretation. The hardware transactions themselves are performed by the
//! caller; every decision taken on the values they produce lives here.
pub mod bar;
pub mod capabilities;
pub mod command;
pub mod config_access;
pub mod header_type;
pub mod hierarchy;
pub mod msi;
pub mod msi_x;
pub mod phys_range;

pub use bar::{
    decode_bar, BarCommon, BarProbe, BarProbeAction, BarWithSize, IoBarInfo, IoSpaceBar,
    MemoryBarAddrAndSize, MemoryBarAddrAndSizeU32, MemoryBarAddrAndSizeU64, MemoryBarInfo,
    MemorySpaceBar,
};
pub use capabilities::{Capability, CapabilityWalk, MSI_CAPABILITY_ID, MSI_X_CAPABILITY_ID};
pub use command::CommandRegister;
pub use header_type::{HeaderType, HeaderTypeByte};
pub use hierarchy::{probe_device, DeviceInfo, FunctionAddress, InterruptInfo};
pub use msi::{ApicMsiMessageAddress, ApicMsiMessageData, MessageControlRegister, MsiCapability};
pub use msi_x::{
    MsiXCapability, MsiXLocation, MsiXMessageControl, MsiXTableEntry, MsiXVectorControl,
};
pub use phys_range::{get_phys_range_to_map, McfgEntry, PhysRange};
