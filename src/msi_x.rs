//! The MSI-X capability: message control, where the vector table and the
//! pending-bit array sit inside a BAR, the layout of a table entry, and how
//! a vector's pending bit is found.
use vstd::prelude::*;
use crate::msi::bit16;

verus! {

/// MSI-X message control: bits 10..0 the table size minus one, bit 14 the
/// function mask, bit 15 enable.
#[derive(Debug, Clone, Copy, PartialEq, Eq)]
pub struct MsiXMessageControl(pub u16);

impl MsiXMessageControl {
    pub open spec fn table_size_spec(self) -> u16 {
        (self.0 % 0x800 + 1) as u16
    }

    /// The table size is encoded as N-1. So if 3 is stored, that means the table size is actually 4.
    pub fn table_size(&self) -> (r: u16)
        ensures
            r == self.table_size_spec(),
            1 <= r <= 0x800,
    {
        self.0 % 0x800 + 1
    }

    pub fn function_mask(&self) -> (r: bool)
        ensures
            r == bit16(self.0, 14),
    {
        (self.0 >> 14u16) & 1 == 1
    }

    pub fn enable(&self) -> (r: bool)
        ensures
            r == bit16(self.0, 15),
    {
        (self.0 >> 15u16) & 1 == 1
    }

    pub fn set_enable(&mut self, enable: bool)
        ensures
            bit16(final(self).0, 15) == enable,
            final(self).0 & 0x7FFF == old(self).0 & 0x7FFF,
    {
        let x = self.0;
        let v = if enable {
            x | 0x8000
        } else {
            x & 0x7FFF
        };
        assert(((v >> 15u16) & 1 == 1) == enable && v & 0x7FFF == x & 0x7FFF) by (bit_vector)
            requires
                v == (if enable {
                    x | 0x8000
                } else {
                    x & 0x7FFF
                }),
        ;
        self.0 = v;
    }
}

/// The table and pending bit array are stored inside a BAR: bits 2..0 give
/// the BAR index, the remaining bits the 8-byte-aligned offset inside it.
#[derive(Debug, Clone, Copy, PartialEq, Eq)]
pub struct MsiXLocation(pub u32);

impl MsiXLocation {
    pub fn offset_in_bar(&self) -> (r: u32)
        ensures
            r == self.0 & !7u32,
            r % 8 == 0,
            r + self.0 % 8 == self.0,
    {
        let x = self.0;
        let r = (x >> 3u32) << 3u32;
        assert(r == x & !7u32 && r % 8 == 0 && r + x % 8 == x) by (bit_vector)
            requires
                r == (x >> 3u32) << 3u32,
        ;
        r
    }

    /// The BAR index that contains the table
    pub fn bar_index(&self) -> (r: u8)
        ensures
            r == self.0 % 8,
    {
        (self.0 % 8) as u8
    }
}

/// Vector control of a table entry: bit 0 masks the vector.
#[derive(Debug, Clone, Copy, PartialEq, Eq)]
pub struct MsiXVectorControl(pub u32);

impl MsiXVectorControl {
    pub fn mask(&self) -> (r: bool)
        ensures
            r == (self.0 % 2 == 1),
    {
        self.0 % 2 == 1
    }

    pub fn set_mask(&mut self, mask: bool)
        ensures
            (final(self).0 % 2 == 1) == mask,
            final(self).0 / 2 == old(self).0 / 2,
    {
        let x = self.0;
        if mask {
            if x % 2 == 0 {
                self.0 = x + 1;
            }
        } else if x % 2 == 1 {
            self.0 = x - 1;
        }
    }
}

/// One entry of the MSI-X table as it lies in memory: 16 bytes.
#[derive(Debug, Clone, Copy, PartialEq, Eq)]
pub struct MsiXTableEntry {
    /// In reality this is documented as a high and low u32, but on little-endian systems we can
    /// just treat it as a u64. It is aligned for u64 access and u64 access is allowed.
    pub message_address: u64,
    pub message_data: u32,
    pub vector_control: MsiXVectorControl,
}

/// Where the MSI-X capability sits in a function's configuration space.
#[derive(Debug, Clone, Copy, PartialEq, Eq)]
pub struct MsiXCapability {
    pub ptr: u8,
}

impl MsiXCapability {
    pub open spec fn wf(self) -> bool {
        self.ptr <= 0xF4
    }

    pub fn new(ptr: u8) -> (r: MsiXCapability)
        requires
            ptr <= 0xF4,
        ensures
            r.ptr == ptr,
            r.wf(),
    {
        MsiXCapability { ptr }
    }

    pub fn message_control_offset(&self) -> (r: u8)
        requires
            self.wf(),
        ensures
            r == self.ptr + 0x2,
    {
        self.ptr + 0x2
    }

    pub fn table_location_offset(&self) -> (r: u8)
        requires
            self.wf(),
        ensures
            r == self.ptr + 0x4,
    {
        self.ptr + 0x4
    }

    /// The location of the Pending Bit Array
    pub fn pba_location_offset(&self) -> (r: u8)
        requires
            self.wf(),
        ensures
            r == self.ptr + 0x8,
    {
        self.ptr + 0x8
    }
}

/// The address of the table (or pending-bit array) given the address the
/// start of its BAR is mapped at; `None` when the sum does not fit.
pub fn region_address(bar_virt_addr: usize, location: MsiXLocation) -> (r: Option<usize>)
    ensures
        bar_virt_addr + (location.0 & !7u32) <= usize::MAX ==> r == Some(
            (bar_virt_addr + (location.0 & !7u32)) as usize,
        ),
        bar_virt_addr + (location.0 & !7u32) > usize::MAX ==> r.is_none(),
{
    let offset = location.offset_in_bar() as usize;
    bar_virt_addr.checked_add(offset)
}

/// How many 64-bit words the pending-bit array of a table of `table_size`
/// entries has.
pub fn pba_len_words(table_size: u16) -> (r: usize)
    ensures
        r == (table_size + 63) / 64,
        r * 64 >= table_size,
{
    ((table_size as usize) + 63) / 64
}

/// Where the pending bit of `entry` is: word `entry / 64`, bit `entry % 64`.
pub fn pending_bit_position(entry: u16) -> (r: (usize, u32))
    ensures
        r.0 == entry / 64,
        r.1 == entry % 64,
{
    ((entry / 64) as usize, (entry % 64) as u32)
}

/// Whether bit `bit` of a pending-bit-array word is set.
pub fn is_pending_in_word(word: u64, bit: u32) -> (r: bool)
    requires
        bit < 64,
    ensures
        r == ((word >> bit) & 1 == 1),
{
    (word >> bit) & 1 == 1
}

} // verus!
