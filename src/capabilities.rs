//! The capability list: a singly linked list of capability structures in
//! configuration space, walked one register at a time.
use vstd::prelude::*;

verus! {

/// Capability id of MSI.
pub const MSI_CAPABILITY_ID: u8 = 0x5;

/// Capability id of MSI-X.
pub const MSI_X_CAPABILITY_ID: u8 = 0x11;

#[derive(Debug, Clone, Copy, PartialEq, Eq)]
pub struct Capability {
    pub ptr_to_self: u8,
    pub id: u8,
    /// The offset in the function's memory where the next capability is
    pub next_ptr: u8,
}

/// The capability whose header register at `ptr` holds `reg`: the id in the
/// low byte, the next pointer in the byte above it.
pub open spec fn capability_at(ptr: u8, reg: u32) -> Capability {
    Capability { ptr_to_self: ptr, id: reg as u8, next_ptr: (reg >> 8u32) as u8 }
}

impl Capability {
    pub fn from_register(ptr: u8, reg: u32) -> (r: Capability)
        ensures
            r == capability_at(ptr, reg),
    {
        Capability { ptr_to_self: ptr, id: reg as u8, next_ptr: (reg >> 8u32) as u8 }
    }
}

/// A forward walk over the capability list. `ptr` is the offset of the next
/// capability to read, 0 once the list is over. Nothing guards against a
/// list that loops: such a walk never ends.
#[derive(Debug, Clone, Copy, PartialEq, Eq)]
pub struct CapabilityWalk {
    pub ptr: u8,
}

impl CapabilityWalk {
    /// Starts at the head pointer: the low byte of the register at the
    /// header layout's capabilities-pointer offset.
    pub fn new(pointer_register: u32) -> (r: CapabilityWalk)
        ensures
            r.ptr == pointer_register as u8,
    {
        CapabilityWalk { ptr: pointer_register as u8 }
    }

    /// The offset of the register to read next, or `None` at the end of the list.
    pub fn next_offset(&self) -> (r: Option<u8>)
        ensures
            r == (if self.ptr == 0 { None } else { Some(self.ptr) }),
    {
        if self.ptr == 0 {
            None
        } else {
            Some(self.ptr)
        }
    }

    /// Takes the value read at `next_offset` and yields that capability,
    /// moving on to the one it points at.
    pub fn advance(&mut self, reg: u32) -> (r: Capability)
        requires
            old(self).ptr != 0,
        ensures
            r == capability_at(old(self).ptr, reg),
            final(self).ptr == r.next_ptr,
    {
        let capability = Capability::from_register(self.ptr, reg);
        self.ptr = capability.next_ptr;
        capability
    }
}

} // verus!
