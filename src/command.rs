//! The command register at offset 0x4: one enable bit per feature.
use vstd::prelude::*;
use crate::msi::bit16;

verus! {

/// `x` with bit `i` set to `value` and every other bit kept.
pub open spec fn with_bit16_spec(x: u16, i: u16, value: bool) -> u16 {
    if value {
        x | (1u16 << i)
    } else {
        x & !(1u16 << i)
    }
}

fn with_bit16(x: u16, i: u16, value: bool) -> (r: u16)
    requires
        i < 16,
    ensures
        r == with_bit16_spec(x, i, value),
        bit16(r, i) == value,
        forall|j: u16| j < 16 && j != i ==> bit16(r, j) == bit16(x, j),
{
    let r = if value {
        x | (1u16 << i)
    } else {
        x & !(1u16 << i)
    };
    assert(((r >> i) & 1 == 1) == value) by (bit_vector)
        requires
            i < 16,
            r == (if value {
                x | (1u16 << i)
            } else {
                x & !(1u16 << i)
            }),
    ;
    assert forall|j: u16| j < 16 && j != i implies bit16(r, j) == bit16(x, j) by {
        assert(((r >> j) & 1 == 1) == ((x >> j) & 1 == 1)) by (bit_vector)
            requires
                i < 16,
                j < 16,
                j != i,
                r == (if value {
                    x | (1u16 << i)
                } else {
                    x & !(1u16 << i)
                }),
        ;
    }
    r
}

/// Bits 7 and 11..=15 are reserved.
#[derive(Debug, Clone, Copy, PartialEq, Eq)]
pub struct CommandRegister(pub u16);

impl CommandRegister {
    pub fn io_space(&self) -> (r: bool)
        ensures
            r == bit16(self.0, 0),
    {
        (self.0 >> 0u16) & 1 == 1
    }

    pub fn set_io_space(&mut self, value: bool)
        ensures
            final(self).0 == with_bit16_spec(old(self).0, 0, value),
            final(self).io_space_spec() == value,
    {
        self.0 = with_bit16(self.0, 0, value);
    }

    pub open spec fn io_space_spec(self) -> bool {
        bit16(self.0, 0)
    }

    pub fn memory_space(&self) -> (r: bool)
        ensures
            r == bit16(self.0, 1),
    {
        (self.0 >> 1u16) & 1 == 1
    }

    pub fn set_memory_space(&mut self, value: bool)
        ensures
            final(self).0 == with_bit16_spec(old(self).0, 1, value),
            final(self).memory_space_spec() == value,
    {
        self.0 = with_bit16(self.0, 1, value);
    }

    pub open spec fn memory_space_spec(self) -> bool {
        bit16(self.0, 1)
    }

    pub fn bus_master(&self) -> (r: bool)
        ensures
            r == bit16(self.0, 2),
    {
        (self.0 >> 2u16) & 1 == 1
    }

    pub fn set_bus_master(&mut self, value: bool)
        ensures
            final(self).0 == with_bit16_spec(old(self).0, 2, value),
            final(self).bus_master_spec() == value,
    {
        self.0 = with_bit16(self.0, 2, value);
    }

    pub open spec fn bus_master_spec(self) -> bool {
        bit16(self.0, 2)
    }

    pub fn special_cycles(&self) -> (r: bool)
        ensures
            r == bit16(self.0, 3),
    {
        (self.0 >> 3u16) & 1 == 1
    }

    pub fn memory_write_and_invalidate_enable(&self) -> (r: bool)
        ensures
            r == bit16(self.0, 4),
    {
        (self.0 >> 4u16) & 1 == 1
    }

    pub fn vga_palette_snoop(&self) -> (r: bool)
        ensures
            r == bit16(self.0, 5),
    {
        (self.0 >> 5u16) & 1 == 1
    }

    pub fn parity_error_response(&self) -> (r: bool)
        ensures
            r == bit16(self.0, 6),
    {
        (self.0 >> 6u16) & 1 == 1
    }

    pub fn set_parity_error_response(&mut self, value: bool)
        ensures
            final(self).0 == with_bit16_spec(old(self).0, 6, value),
            final(self).parity_error_response_spec() == value,
    {
        self.0 = with_bit16(self.0, 6, value);
    }

    pub open spec fn parity_error_response_spec(self) -> bool {
        bit16(self.0, 6)
    }

    pub fn serr_enable(&self) -> (r: bool)
        ensures
            r == bit16(self.0, 8),
    {
        (self.0 >> 8u16) & 1 == 1
    }

    pub fn set_serr_enable(&mut self, value: bool)
        ensures
            final(self).0 == with_bit16_spec(old(self).0, 8, value),
            final(self).serr_enable_spec() == value,
    {
        self.0 = with_bit16(self.0, 8, value);
    }

    pub open spec fn serr_enable_spec(self) -> bool {
        bit16(self.0, 8)
    }

    pub fn fast_back_to_back_enable(&self) -> (r: bool)
        ensures
            r == bit16(self.0, 9),
    {
        (self.0 >> 9u16) & 1 == 1
    }

    pub fn interrupt_disable(&self) -> (r: bool)
        ensures
            r == bit16(self.0, 10),
    {
        (self.0 >> 10u16) & 1 == 1
    }

    pub fn set_interrupt_disable(&mut self, value: bool)
        ensures
            final(self).0 == with_bit16_spec(old(self).0, 10, value),
            final(self).interrupt_disable_spec() == value,
    {
        self.0 = with_bit16(self.0, 10, value);
    }

    pub open spec fn interrupt_disable_spec(self) -> bool {
        bit16(self.0, 10)
    }
}

} // verus!
