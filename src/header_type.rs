//! The header-type register and what each known header layout implies.
use vstd::prelude::*;

verus! {

/// The header-type byte at offset 0xE: bit 7 says the device has several
/// functions, bits 6..0 name the header layout.
#[derive(Debug, Clone, Copy, PartialEq, Eq)]
pub struct HeaderTypeByte(pub u8);

impl HeaderTypeByte {
    pub fn multi_function(&self) -> (r: bool)
        ensures
            r == (self.0 >= 0x80),
    {
        self.0 >= 0x80
    }

    pub fn header_type(&self) -> (r: u8)
        ensures
            r == self.0 % 0x80,
    {
        self.0 % 0x80
    }
}

/// The header layouts this library knows.
#[derive(Debug, Clone, Copy, PartialEq, Eq)]
pub enum HeaderType {
    GeneralDevice,
    PciToPciBridge,
    PciToCardBusBridge,
}

pub open spec fn header_type_of(raw: u8) -> Option<HeaderType> {
    if raw == 0 {
        Some(HeaderType::GeneralDevice)
    } else if raw == 1 {
        Some(HeaderType::PciToPciBridge)
    } else if raw == 2 {
        Some(HeaderType::PciToCardBusBridge)
    } else {
        None
    }
}

impl HeaderType {
    /// The layout named by the low seven bits of the header-type byte, or
    /// `None` for a layout this library does not know.
    pub fn from_raw(raw: u8) -> (r: Option<HeaderType>)
        ensures
            r == header_type_of(raw),
    {
        if raw == 0 {
            Some(HeaderType::GeneralDevice)
        } else if raw == 1 {
            Some(HeaderType::PciToPciBridge)
        } else if raw == 2 {
            Some(HeaderType::PciToCardBusBridge)
        } else {
            None
        }
    }

    pub open spec fn max_bars_spec(&self) -> u8 {
        match self {
            HeaderType::GeneralDevice => 6,
            HeaderType::PciToPciBridge => 2,
            HeaderType::PciToCardBusBridge => 0,
        }
    }

    /// How many BAR slots this layout has.
    pub fn max_bars(&self) -> (r: u8)
        ensures
            r == self.max_bars_spec(),
            r <= 6,
    {
        match self {
            HeaderType::GeneralDevice => 6,
            HeaderType::PciToPciBridge => 2,
            HeaderType::PciToCardBusBridge => 0,
        }
    }

    /// Offset of the register whose low byte points at the first capability.
    pub fn capabilities_pointer_offset(&self) -> (r: u8)
        ensures
            r == (match self {
                HeaderType::PciToCardBusBridge => 0x14u8,
                _ => 0x34u8,
            }),
    {
        match self {
            HeaderType::GeneralDevice => 0x34,
            HeaderType::PciToPciBridge => 0x34,
            HeaderType::PciToCardBusBridge => 0x14,
        }
    }

    /// Offset of the register holding the interrupt line and pin.
    pub fn interrupt_reg_addr(&self) -> (r: u8)
        ensures
            r == 0x3C,
    {
        0x3C
    }
}

} // verus!
