//! Existence probing of devices and functions, and the per-function
//! registers read on the way.
use vstd::prelude::*;

verus! {

/// The vendor id that an absent device or function reads as.
pub const ABSENT_VENDOR_ID: u16 = 0xFFFF;

/// Offset of the vendor-id register.
pub const VENDOR_ID_OFFSET: u8 = 0x0;

/// Offset of the 32-bit register whose third byte is the header-type byte.
pub const HEADER_TYPE_REGISTER_OFFSET: u8 = 0xC;

/// Offset of the command register.
pub const COMMAND_OFFSET: u8 = 0x4;

/// Whether a vendor-id read shows something present.
pub fn is_present(vendor_id: u16) -> (r: bool)
    ensures
        r == (vendor_id != ABSENT_VENDOR_ID),
{
    vendor_id != ABSENT_VENDOR_ID
}

/// A device found on a bus.
#[derive(Debug, Clone, Copy, PartialEq, Eq)]
pub struct DeviceInfo {
    pub bus_number: u8,
    pub device_number: u8,
    pub multi_function: bool,
}

/// A function found on a device: the unit that registers are addressed at.
#[derive(Debug, Clone, Copy, PartialEq, Eq)]
pub struct FunctionAddress {
    pub bus_number: u8,
    pub device_number: u8,
    pub function_number: u8,
}

/// Probes device `device_number` from its function 0: `vendor_register` is
/// the 32-bit register at offset 0 and `header_register` the one at 0xC.
/// A vendor id of all ones means no device, whatever the other register holds.
pub fn probe_device(bus_number: u8, device_number: u8, vendor_register: u32, header_register: u32) -> (r: Option<DeviceInfo>)
    requires
        device_number < 32,
    ensures
        r.is_none() <==> vendor_register as u16 == ABSENT_VENDOR_ID,
        r.is_some() ==> r.unwrap() == (DeviceInfo {
            bus_number,
            device_number,
            multi_function: (header_register >> 16u32) as u8 >= 0x80,
        }),
{
    if is_present(vendor_register as u16) {
        let header_type_byte = (header_register >> 16u32) as u8;
        Some(DeviceInfo { bus_number, device_number, multi_function: header_type_byte >= 0x80 })
    } else {
        None
    }
}

impl DeviceInfo {
    /// How many function numbers may be probed: 8 on a multi-function
    /// device, else only function 0.
    pub fn function_count(&self) -> (r: u8)
        ensures
            r == (if self.multi_function { 8u8 } else { 1u8 }),
    {
        if self.multi_function {
            8
        } else {
            1
        }
    }

    /// Probes function `function_number` of this device from its vendor id.
    pub fn probe_function(&self, function_number: u8, vendor_id: u16) -> (r: Option<FunctionAddress>)
        requires
            function_number <= 7,
            self.multi_function || function_number == 0,
        ensures
            r.is_none() <==> vendor_id == ABSENT_VENDOR_ID,
            r.is_some() ==> r.unwrap() == (FunctionAddress {
                bus_number: self.bus_number,
                device_number: self.device_number,
                function_number,
            }),
    {
        if is_present(vendor_id) {
            Some(
                FunctionAddress {
                    bus_number: self.bus_number,
                    device_number: self.device_number,
                    function_number,
                },
            )
        } else {
            None
        }
    }
}

#[derive(Debug, Clone, Copy, PartialEq, Eq)]
pub struct InterruptInfo {
    pub interrupt_pin: u8,
    pub interrupt_line: u8,
}

impl InterruptInfo {
    /// Reads the line (low byte) and pin (next byte) from the interrupt register.
    pub fn from_register(reg: u32) -> (r: InterruptInfo)
        ensures
            r.interrupt_line == reg as u8,
            r.interrupt_pin == (reg >> 8u32) as u8,
    {
        InterruptInfo { interrupt_pin: (reg >> 8u32) as u8, interrupt_line: reg as u8 }
    }
}

/// The interrupt register with its line byte replaced and the rest kept.
pub fn with_interrupt_line(reg: u32, interrupt_line: u8) -> (r: u32)
    ensures
        r == (reg & !0xFFu32) | (interrupt_line as u32),
        r as u8 == interrupt_line,
        r >> 8u32 == reg >> 8u32,
{
    let r = (reg & !0xFFu32) | (interrupt_line as u32);
    assert(r as u8 == interrupt_line && r >> 8u32 == reg >> 8u32) by (bit_vector)
        requires
            r == (reg & !0xFFu32) | (interrupt_line as u32),
    ;
    r
}

} // verus!
