//! The MSI capability: its message-control register and where its address
//! and data registers sit, which depends on the declared address width.
use vstd::prelude::*;

verus! {

/// Bit `i` of a 16-bit register.
pub open spec fn bit16(x: u16, i: u16) -> bool {
    (x >> i) & 1 == 1
}

/// MSI message control: bit 8 per-message masking, bit 7 64-bit address
/// support, bits 6..4 multiple-message enable, bits 3..1 multiple-message
/// capable, bit 0 enable.
#[derive(Debug, Clone, Copy, PartialEq, Eq)]
pub struct MessageControlRegister(pub u16);

impl MessageControlRegister {
    /// If this is 1, you can use the MSI mask and pending registers.
    pub fn per_message_masking(&self) -> (r: bool)
        ensures
            r == bit16(self.0, 8),
    {
        (self.0 >> 8u16) & 1 == 1
    }

    /// If this is 1, you can set the message address to a 64 bit address.
    pub fn supports_64_bit_addresses(&self) -> (r: bool)
        ensures
            r == bit16(self.0, 7),
    {
        (self.0 >> 7u16) & 1 == 1
    }

    pub fn multiple_message_enable(&self) -> (r: u8)
        ensures
            r == (self.0 >> 4u16) & 0x7,
            r < 8,
    {
        let x = self.0;
        assert((x >> 4u16) & 0x7 < 8) by (bit_vector);
        ((x >> 4u16) & 0x7) as u8
    }

    pub fn set_multiple_message_enable(&mut self, value: u8)
        requires
            value < 8,
        ensures
            final(self).0 == (old(self).0 & !0x70u16) | ((value as u16) << 4u16),
            final(self).multiple_message_enable_spec() == value,
    {
        let x = self.0;
        let v = (x & !0x70u16) | ((value as u16) << 4u16);
        assert(((v >> 4u16) & 0x7) as u8 == value) by (bit_vector)
            requires
                value < 8,
                v == (x & !0x70u16) | ((value as u16) << 4u16),
        ;
        self.0 = v;
    }

    pub open spec fn multiple_message_enable_spec(self) -> u8 {
        ((self.0 >> 4u16) & 0x7) as u8
    }

    pub fn multiple_message_capable(&self) -> (r: u8)
        ensures
            r == (self.0 >> 1u16) & 0x7,
    {
        let x = self.0;
        assert((x >> 1u16) & 0x7 < 8) by (bit_vector);
        ((x >> 1u16) & 0x7) as u8
    }

    pub fn enable(&self) -> (r: bool)
        ensures
            r == bit16(self.0, 0),
    {
        (self.0 >> 0u16) & 1 == 1
    }

    pub fn set_enable(&mut self, enable: bool)
        ensures
            bit16(final(self).0, 0) == enable,
            final(self).0 >> 1u16 == old(self).0 >> 1u16,
    {
        let old_value = self.0;
        let v = if enable {
            old_value | 1
        } else {
            old_value & !1u16
        };
        assert(((v >> 0u16) & 1 == 1) == enable && v >> 1u16 == old_value >> 1u16) by (bit_vector)
            requires
                v == (if enable {
                    old_value | 1
                } else {
                    old_value & !1u16
                }),
        ;
        self.0 = v;
    }
}

/// Where the MSI capability sits in a function's configuration space.
#[derive(Debug, Clone, Copy, PartialEq, Eq)]
pub struct MsiCapability {
    pub ptr: u8,
}

/// The message address as the two 32-bit registers hold it.
pub open spec fn join_u64(low: u32, high: u32) -> u64 {
    (low as u64) | ((high as u64) << 32u64)
}

impl MsiCapability {
    pub open spec fn wf(self) -> bool {
        self.ptr <= 0xF0
    }

    pub fn new(ptr: u8) -> (r: MsiCapability)
        requires
            ptr <= 0xF0,
        ensures
            r.ptr == ptr,
            r.wf(),
    {
        MsiCapability { ptr }
    }

    pub fn message_control_offset(&self) -> (r: u8)
        requires
            self.wf(),
        ensures
            r == self.ptr + 0x2,
    {
        self.ptr + 0x2
    }

    /// The (low) message-address register.
    pub fn message_address_offset(&self) -> (r: u8)
        requires
            self.wf(),
        ensures
            r == self.ptr + 0x4,
    {
        self.ptr + 0x4
    }

    /// The upper message-address register, present only with 64-bit support.
    pub fn message_upper_address_offset(&self) -> (r: u8)
        requires
            self.wf(),
        ensures
            r == self.ptr + 0x8,
    {
        self.ptr + 0x8
    }

    /// The message-data register: after the upper address register when the
    /// capability declares 64-bit addresses, else right after the address.
    pub fn message_data_offset(&self, control: MessageControlRegister) -> (r: u8)
        requires
            self.wf(),
        ensures
            r == self.ptr + (if bit16(control.0, 7) { 0xCu8 } else { 0x8u8 }),
    {
        if control.supports_64_bit_addresses() {
            self.ptr + 0xC
        } else {
            self.ptr + 0x8
        }
    }

    /// The writes that set a 32-bit message address whatever the declared
    /// width: with 64-bit support the upper register is cleared too.
    pub fn message_address_writes(&self, control: MessageControlRegister, addr: u32) -> (r: Vec<(u8, u32)>)
        requires
            self.wf(),
        ensures
            bit16(control.0, 7) ==> r@ == seq![((self.ptr + 4) as u8, addr), ((self.ptr + 8) as u8, 0u32)],
            !bit16(control.0, 7) ==> r@ == seq![((self.ptr + 4) as u8, addr)],
    {
        let mut writes: Vec<(u8, u32)> = Vec::new();
        writes.push((self.ptr + 4, addr));
        if control.supports_64_bit_addresses() {
            writes.push((self.ptr + 8, 0));
        }
        writes
    }
}

/// Joins the low and high message-address registers.
pub fn join_message_address(low: u32, high: u32) -> (r: u64)
    ensures
        r == join_u64(low, high),
        r as u32 == low,
        (r >> 32u64) as u32 == high,
{
    let r = (low as u64) | ((high as u64) << 32u64);
    assert(r as u32 == low && (r >> 32u64) as u32 == high) by (bit_vector)
        requires
            r == (low as u64) | ((high as u64) << 32u64),
    ;
    r
}

/// Splits a 64-bit message address into its low and high registers.
pub fn split_message_address(addr: u64) -> (r: (u32, u32))
    ensures
        r.0 == addr as u32,
        r.1 == (addr >> 32u64) as u32,
        join_u64(r.0, r.1) == addr,
{
    let low = addr as u32;
    let high = (addr >> 32u64) as u32;
    assert((low as u64) | ((high as u64) << 32u64) == addr) by (bit_vector)
        requires
            low == addr as u32,
            high == (addr >> 32u64) as u32,
    ;
    (low, high)
}

/// The local-APIC format of an MSI message address: the fixed value 0xFEE in
/// bits 31..20 and the destination APIC id in bits 19..12.
#[derive(Debug, Clone, Copy, PartialEq, Eq)]
pub struct ApicMsiMessageAddress(pub u32);

impl Default for ApicMsiMessageAddress {
    fn default() -> (r: Self)
        ensures
            r.0 == 0xFEE0_0000,
    {
        ApicMsiMessageAddress(0xFEE0_0000)
    }
}

impl ApicMsiMessageAddress {
    pub fn destination_id(&self) -> (r: u8)
        ensures
            r == (self.0 >> 12u32) as u8,
    {
        (self.0 >> 12u32) as u8
    }

    pub fn set_destination_id(&mut self, destination_id: u8)
        ensures
            (final(self).0 >> 12u32) as u8 == destination_id,
            final(self).0 & !0xF_F000u32 == old(self).0 & !0xF_F000u32,
    {
        let x = self.0;
        let v = (x & !0xF_F000u32) | ((destination_id as u32) << 12u32);
        assert((v >> 12u32) as u8 == destination_id && v & !0xF_F000u32 == x & !0xF_F000u32)
            by (bit_vector)
            requires
                v == (x & !0xF_F000u32) | ((destination_id as u32) << 12u32),
        ;
        self.0 = v;
    }
}

/// The local-APIC format of MSI message data: trigger mode in bit 15, level
/// in bit 14, delivery mode in bits 10..8, vector in bits 7..0.
#[derive(Debug, Clone, Copy, PartialEq, Eq)]
pub struct ApicMsiMessageData(pub u16);

impl ApicMsiMessageData {
    pub fn trigger_mode(&self) -> (r: u8)
        ensures
            r == (self.0 >> 15u16) & 1,
    {
        let x = self.0;
        assert((x >> 15u16) & 1 < 2) by (bit_vector);
        ((x >> 15u16) & 1) as u8
    }

    pub fn set_trigger_mode(&mut self, value: u8)
        requires
            value < 2,
        ensures
            (final(self).0 >> 15u16) & 1 == value,
            final(self).0 & 0x7FFF == old(self).0 & 0x7FFF,
    {
        let x = self.0;
        let v = (x & 0x7FFF) | ((value as u16) << 15u16);
        assert((v >> 15u16) & 1 == value as u16 && v & 0x7FFF == x & 0x7FFF) by (bit_vector)
            requires
                value < 2,
                v == (x & 0x7FFF) | ((value as u16) << 15u16),
        ;
        self.0 = v;
    }

    pub fn trigger_mode_level(&self) -> (r: u8)
        ensures
            r == (self.0 >> 14u16) & 1,
    {
        let x = self.0;
        assert((x >> 14u16) & 1 < 2) by (bit_vector);
        ((x >> 14u16) & 1) as u8
    }

    pub fn set_trigger_mode_level(&mut self, value: u8)
        requires
            value < 2,
        ensures
            (final(self).0 >> 14u16) & 1 == value,
            final(self).0 & !0x4000u16 == old(self).0 & !0x4000u16,
    {
        let x = self.0;
        let v = (x & !0x4000u16) | ((value as u16) << 14u16);
        assert((v >> 14u16) & 1 == value as u16 && v & !0x4000u16 == x & !0x4000u16) by (bit_vector)
            requires
                value < 2,
                v == (x & !0x4000u16) | ((value as u16) << 14u16),
        ;
        self.0 = v;
    }

    pub fn delivery_mode(&self) -> (r: u8)
        ensures
            r == (self.0 >> 8u16) & 0x7,
    {
        let x = self.0;
        assert((x >> 8u16) & 0x7 < 8) by (bit_vector);
        ((x >> 8u16) & 0x7) as u8
    }

    pub fn set_delivery_mode(&mut self, value: u8)
        requires
            value < 8,
        ensures
            (final(self).0 >> 8u16) & 0x7 == value,
            final(self).0 & !0x700u16 == old(self).0 & !0x700u16,
    {
        let x = self.0;
        let v = (x & !0x700u16) | ((value as u16) << 8u16);
        assert((v >> 8u16) & 0x7 == value as u16 && v & !0x700u16 == x & !0x700u16) by (bit_vector)
            requires
                value < 8,
                v == (x & !0x700u16) | ((value as u16) << 8u16),
        ;
        self.0 = v;
    }

    pub fn vector(&self) -> (r: u8)
        ensures
            r == self.0 as u8,
    {
        self.0 as u8
    }

    pub fn set_vector(&mut self, vector: u8)
        ensures
            final(self).0 as u8 == vector,
            final(self).0 >> 8u16 == old(self).0 >> 8u16,
    {
        let x = self.0;
        let v = (x & 0xFF00) | (vector as u16);
        assert(v as u8 == vector && v >> 8u16 == x >> 8u16) by (bit_vector)
            requires
                v == (x & 0xFF00) | (vector as u16),
        ;
        self.0 = v;
    }
}

} // verus!
