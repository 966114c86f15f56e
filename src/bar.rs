//! Base address registers: decoding a register into a memory or I/O window,
//! and the write / read / restore protocol that finds the window's size.
use vstd::prelude::*;

verus! {

/// Bit 0 of every BAR: 0 for a memory window, 1 for an I/O window.
#[derive(Debug, Clone, Copy, PartialEq, Eq)]
pub struct BarCommon(pub u32);

impl BarCommon {
    pub fn bar_type(self) -> (r: u8)
        ensures
            r == self.0 % 2,
    {
        (self.0 % 2) as u8
    }
}

/// A memory BAR: bit 3 is the prefetchable flag, bits 2..1 the address width
/// (0b00 for 32 bits, 0b10 for 64 bits).
#[derive(Debug, Clone, Copy, PartialEq, Eq)]
pub struct MemorySpaceBar(pub u32);

impl MemorySpaceBar {
    pub fn prefetchable(self) -> (r: bool)
        ensures
            r == ((self.0 / 8) % 2 == 1),
    {
        (self.0 / 8) % 2 == 1
    }

    pub fn memory_type(self) -> (r: u8)
        ensures
            r == (self.0 / 2) % 4,
    {
        ((self.0 / 2) % 4) as u8
    }
}

/// An I/O BAR: the address is the register with its two low bits cleared.
#[derive(Debug, Clone, Copy, PartialEq, Eq)]
pub struct IoSpaceBar(pub u32);

impl IoSpaceBar {
    pub fn addr(self) -> (r: u32)
        ensures
            r == self.0 & !0b11u32,
    {
        // The lowest 2 bits should be masked out
        self.0 & !0b11u32
    }
}

#[derive(Debug, Clone, Copy, PartialEq, Eq)]
pub struct MemoryBarAddrAndSizeU32 {
    pub addr: u32,
    pub size: u32,
}

#[derive(Debug, Clone, Copy, PartialEq, Eq)]
pub struct MemoryBarAddrAndSizeU64 {
    pub addr: u64,
    pub size: u64,
}

#[derive(Debug, Clone, Copy, PartialEq, Eq)]
pub enum MemoryBarAddrAndSize {
    U32(MemoryBarAddrAndSizeU32),
    U64(MemoryBarAddrAndSizeU64),
}

impl MemoryBarAddrAndSize {
    pub open spec fn addr_spec(self) -> u64 {
        match self {
            MemoryBarAddrAndSize::U32(a) => a.addr as u64,
            MemoryBarAddrAndSize::U64(a) => a.addr,
        }
    }

    pub open spec fn size_spec(self) -> u64 {
        match self {
            MemoryBarAddrAndSize::U32(a) => a.size as u64,
            MemoryBarAddrAndSize::U64(a) => a.size,
        }
    }

    /// Get the address as a `u64` regardless of whether this is a 32-bit or 64-bit address.
    pub fn addr_u64(&self) -> (r: u64)
        ensures
            r == self.addr_spec(),
    {
        match self {
            MemoryBarAddrAndSize::U32(addr_and_size) => addr_and_size.addr as u64,
            MemoryBarAddrAndSize::U64(addr_and_size) => addr_and_size.addr,
        }
    }

    /// Get the size as a `u64` regardless of whether this is a 32-bit or 64-bit address.
    pub fn size_u64(&self) -> (r: u64)
        ensures
            r == self.size_spec(),
    {
        match self {
            MemoryBarAddrAndSize::U32(addr_and_size) => addr_and_size.size as u64,
            MemoryBarAddrAndSize::U64(addr_and_size) => addr_and_size.size,
        }
    }

    pub fn addr_and_size_u64(self) -> (r: MemoryBarAddrAndSizeU64)
        ensures
            r.addr == self.addr_spec(),
            r.size == self.size_spec(),
    {
        match self {
            MemoryBarAddrAndSize::U32(addr_and_size) => MemoryBarAddrAndSizeU64 {
                addr: addr_and_size.addr as u64,
                size: addr_and_size.size as u64,
            },
            MemoryBarAddrAndSize::U64(addr_and_size) => addr_and_size,
        }
    }
}

#[derive(Debug, Clone, Copy, PartialEq, Eq)]
pub struct MemoryBarInfo {
    pub addr_and_size: MemoryBarAddrAndSize,
    /// CPUs can pre-fetch memory, which can result in memory being fetched earlier than your code
    /// reads it, fetched multiple times, or memory that your code doesn't read being fetched.
    /// If this is `false`, then the mem type should be UC (strong uncacheable).
    /// If this is `true`, then the mem type should be WT (write-through) for most use cases, and
    /// WC (write-combining) for frame buffers.
    pub prefetchable: bool,
}

#[derive(Debug, Clone, Copy, PartialEq, Eq)]
pub struct IoBarInfo {
    pub addr: u32,
    pub size: u32,
}

#[derive(Debug, Clone, Copy, PartialEq, Eq)]
pub enum BarWithSize {
    Memory(MemoryBarInfo),
    Io(IoBarInfo),
}

impl BarWithSize {
    pub open spec fn slots_len_spec(self) -> u8 {
        match self {
            BarWithSize::Memory(m) => match m.addr_and_size {
                MemoryBarAddrAndSize::U32(_) => 1,
                MemoryBarAddrAndSize::U64(_) => 2,
            },
            BarWithSize::Io(_) => 1,
        }
    }

    /// How many BAR slots this bar takes up. 64-bit memory addresses use up 2 BAR slots
    pub fn slots_len(&self) -> (r: u8)
        ensures
            r == self.slots_len_spec(),
    {
        match self {
            BarWithSize::Memory(memory_bar_info) => match memory_bar_info.addr_and_size {
                MemoryBarAddrAndSize::U32(_) => 1,
                MemoryBarAddrAndSize::U64(_) => 2,
            },
            BarWithSize::Io(_) => 1,
        }
    }
}

/// The window size that a read-back mask gives: its two's complement
/// (`!mask + 1`), which wraps to 0 for an all-zero mask.
pub open spec fn size_from_mask_u32(mask: u32) -> u32 {
    if mask == 0 {
        0
    } else {
        (!mask + 1) as u32
    }
}

pub open spec fn size_from_mask_u64(mask: u64) -> u64 {
    if mask == 0 {
        0
    } else {
        (!mask + 1) as u64
    }
}

fn wrapping_size_u32(mask: u32) -> (r: u32)
    ensures
        r == size_from_mask_u32(mask),
{
    let negated: u32 = !mask;
    assert(mask == 0 <==> negated == 0xFFFF_FFFFu32) by (bit_vector)
        requires
            negated == !mask,
    ;
    negated.wrapping_add(1)
}

fn wrapping_size_u64(mask: u64) -> (r: u64)
    ensures
        r == size_from_mask_u64(mask),
{
    let negated: u64 = !mask;
    assert(mask == 0 <==> negated == 0xFFFF_FFFF_FFFF_FFFFu64) by (bit_vector)
        requires
            negated == !mask,
    ;
    negated.wrapping_add(1)
}

/// A memory BAR whose width field is one this library can decode:
/// 0b00 (32-bit) or 0b10 (64-bit).
pub open spec fn is_memory(raw: u32) -> bool {
    raw % 2 == 0
}

pub open spec fn is_memory_64(raw: u32) -> bool {
    is_memory(raw) && (raw / 2) % 4 == 2
}

/// A non-zero register that is either an I/O BAR or a memory BAR of a known
/// width. Anything else is reported as no BAR.
pub open spec fn is_decodable(raw: u32) -> bool {
    raw != 0 && (!is_memory(raw) || (raw / 2) % 4 == 0 || (raw / 2) % 4 == 2)
}

/// The 64-bit mask of a BAR pair: the low register's read-back with its four
/// type bits cleared, and the high register's read-back above it.
pub open spec fn combined_mask_u64(raw_size: u32, next_raw_size: u32) -> u64 {
    ((raw_size & !0xFu32) as u64) | ((next_raw_size as u64) << 32u64)
}

/// What a BAR decodes to from the value `raw_addr` it held, the value read
/// back after all ones were written (`raw_size`), and for a 64-bit BAR the
/// same two values of the next slot.
pub open spec fn decode_bar_spec(raw_addr: u32, raw_size: u32, next_raw_addr: u32, next_raw_size: u32) -> BarWithSize {
    if is_memory(raw_addr) {
        BarWithSize::Memory(
            MemoryBarInfo {
                addr_and_size: if is_memory_64(raw_addr) {
                    MemoryBarAddrAndSize::U64(
                        MemoryBarAddrAndSizeU64 {
                            addr: ((raw_addr & !0xFu32) as u64) | ((next_raw_addr as u64) << 32u64),
                            size: size_from_mask_u64(combined_mask_u64(raw_size, next_raw_size)),
                        },
                    )
                } else {
                    MemoryBarAddrAndSize::U32(
                        MemoryBarAddrAndSizeU32 {
                            addr: raw_addr & !0xFu32,
                            size: size_from_mask_u32(raw_size & !0xFu32),
                        },
                    )
                },
                prefetchable: (raw_addr / 8) % 2 == 1,
            },
        )
    } else {
        BarWithSize::Io(
            IoBarInfo { addr: raw_addr & !0b11u32, size: size_from_mask_u32(raw_size & !0b11u32) },
        )
    }
}

/// Decodes a BAR from the values the sizing protocol read.
pub fn decode_bar(raw_addr: u32, raw_size: u32, next_raw_addr: u32, next_raw_size: u32) -> (r: BarWithSize)
    ensures
        r == decode_bar_spec(raw_addr, raw_size, next_raw_addr, next_raw_size),
        r.slots_len_spec() == (if is_memory_64(raw_addr) { 2u8 } else { 1u8 }),
{
    if BarCommon(raw_addr).bar_type() == 0 {
        let bar = MemorySpaceBar(raw_addr);
        let addr_and_size = if bar.memory_type() == 2 {
            let mask: u64 = ((raw_size & !0xFu32) as u64) | ((next_raw_size as u64) << 32u64);
            MemoryBarAddrAndSize::U64(
                MemoryBarAddrAndSizeU64 {
                    addr: ((raw_addr & !0xFu32) as u64) | ((next_raw_addr as u64) << 32u64),
                    size: wrapping_size_u64(mask),
                },
            )
        } else {
            MemoryBarAddrAndSize::U32(
                MemoryBarAddrAndSizeU32 {
                    addr: raw_addr & !0xFu32,
                    size: wrapping_size_u32(raw_size & !0xFu32),
                },
            )
        };
        BarWithSize::Memory(MemoryBarInfo { addr_and_size, prefetchable: bar.prefetchable() })
    } else {
        BarWithSize::Io(
            IoBarInfo { addr: IoSpaceBar(raw_addr).addr(), size: wrapping_size_u32(raw_size & !0b11u32) },
        )
    }
}

/// When a 64-bit BAR pair reads back a mask that is all ones above bit `k`
/// (the low four type bits cleared), the window is `2^k` bytes.
pub proof fn lemma_contiguous_mask_size(raw_size: u32, next_raw_size: u32, k: u64)
    requires
        4 <= k < 64,
        combined_mask_u64(raw_size, next_raw_size) == 0xFFFF_FFFF_FFFF_FFFFu64 << k,
    ensures
        size_from_mask_u64(combined_mask_u64(raw_size, next_raw_size)) == 1u64 << k,
{
    let m = combined_mask_u64(raw_size, next_raw_size);
    assert(m != 0 && ((!m + 1) as u64) == 1u64 << k) by (bit_vector)
        requires
            4 <= k < 64,
            m == 0xFFFF_FFFF_FFFF_FFFFu64 << k,
    ;
}

/// Offset of BAR slot `bar_index`: slots are 4 bytes apart from 0x10.
pub open spec fn bar_register_offset(bar_index: u8) -> u8 {
    (0x10 + 4 * bar_index) as u8
}

/// The next configuration-space transaction that BAR sizing asks for.
#[derive(Debug, Clone, Copy, PartialEq, Eq)]
pub enum BarProbeAction {
    /// Read the 32-bit register and hand the value to `BarProbe::advance`.
    Read { register_offset: u8 },
    /// Write the 32-bit register, then call `BarProbe::advance` (the value
    /// passed is ignored).
    Write { register_offset: u8, value: u32 },
    /// The protocol is over: `BarProbe::result` holds the decoded BAR.
    Finished,
}

/// The sizing protocol of one BAR: read the register; if it holds a BAR,
/// write all ones, read back the mask and write back the value it held; for a
/// 64-bit memory BAR do the same on the next slot. `step` counts the
/// transactions done, 8 meaning finished.
#[derive(Debug, Clone, Copy, PartialEq, Eq)]
pub struct BarProbe {
    pub register_offset: u8,
    pub step: u8,
    pub raw_addr: u32,
    pub raw_size: u32,
    pub next_raw_addr: u32,
    pub next_raw_size: u32,
}

impl BarProbe {
    pub open spec fn wf(self) -> bool {
        &&& self.step <= 8
        &&& 0x10 <= self.register_offset <= 0x24
        &&& self.register_offset % 4 == 0
    }

    pub open spec fn initial(bar_index: u8) -> BarProbe {
        BarProbe {
            register_offset: bar_register_offset(bar_index),
            step: 0,
            raw_addr: 0,
            raw_size: 0,
            next_raw_addr: 0,
            next_raw_size: 0,
        }
    }

    pub open spec fn action_spec(self) -> BarProbeAction {
        let o = self.register_offset;
        let n = (self.register_offset + 4) as u8;
        if self.step == 0 {
            BarProbeAction::Read { register_offset: o }
        } else if self.step == 1 {
            BarProbeAction::Write { register_offset: o, value: 0xFFFF_FFFF }
        } else if self.step == 2 {
            BarProbeAction::Read { register_offset: o }
        } else if self.step == 3 {
            BarProbeAction::Write { register_offset: o, value: self.raw_addr }
        } else if self.step == 4 {
            BarProbeAction::Read { register_offset: n }
        } else if self.step == 5 {
            BarProbeAction::Write { register_offset: n, value: 0xFFFF_FFFF }
        } else if self.step == 6 {
            BarProbeAction::Read { register_offset: n }
        } else if self.step == 7 {
            BarProbeAction::Write { register_offset: n, value: self.next_raw_addr }
        } else {
            BarProbeAction::Finished
        }
    }

    pub open spec fn advance_spec(self, value: u32) -> BarProbe {
        if self.step == 0 {
            BarProbe { raw_addr: value, step: if is_decodable(value) { 1 } else { 8 }, ..self }
        } else if self.step == 2 {
            BarProbe { raw_size: value, step: 3, ..self }
        } else if self.step == 3 {
            BarProbe { step: if is_memory_64(self.raw_addr) { 4 } else { 8 }, ..self }
        } else if self.step == 4 {
            BarProbe { next_raw_addr: value, step: 5, ..self }
        } else if self.step == 6 {
            BarProbe { next_raw_size: value, step: 7, ..self }
        } else if self.step < 8 {
            BarProbe { step: (self.step + 1) as u8, ..self }
        } else {
            self
        }
    }

    pub open spec fn result_spec(self) -> Option<BarWithSize> {
        if is_decodable(self.raw_addr) {
            Some(decode_bar_spec(self.raw_addr, self.raw_size, self.next_raw_addr, self.next_raw_size))
        } else {
            None
        }
    }

    /// Starts sizing BAR slot `bar_index`.
    pub fn new(bar_index: u8) -> (r: BarProbe)
        requires
            bar_index < 6,
        ensures
            r == BarProbe::initial(bar_index),
            r.wf(),
    {
        BarProbe {
            register_offset: 0x10 + 4 * bar_index,
            step: 0,
            raw_addr: 0,
            raw_size: 0,
            next_raw_addr: 0,
            next_raw_size: 0,
        }
    }

    pub fn action(&self) -> (r: BarProbeAction)
        requires
            self.wf(),
        ensures
            r == self.action_spec(),
    {
        let o = self.register_offset;
        let n = self.register_offset + 4;
        if self.step == 0 {
            BarProbeAction::Read { register_offset: o }
        } else if self.step == 1 {
            BarProbeAction::Write { register_offset: o, value: 0xFFFF_FFFF }
        } else if self.step == 2 {
            BarProbeAction::Read { register_offset: o }
        } else if self.step == 3 {
            BarProbeAction::Write { register_offset: o, value: self.raw_addr }
        } else if self.step == 4 {
            BarProbeAction::Read { register_offset: n }
        } else if self.step == 5 {
            BarProbeAction::Write { register_offset: n, value: 0xFFFF_FFFF }
        } else if self.step == 6 {
            BarProbeAction::Read { register_offset: n }
        } else if self.step == 7 {
            BarProbeAction::Write { register_offset: n, value: self.next_raw_addr }
        } else {
            BarProbeAction::Finished
        }
    }

    /// Records the outcome of the transaction `action` asked for: the value
    /// read, or anything after a write.
    pub fn advance(&mut self, value: u32)
        requires
            old(self).wf(),
        ensures
            *final(self) == old(self).advance_spec(value),
            final(self).wf(),
    {
        if self.step == 0 {
            self.raw_addr = value;
            self.step = if is_decodable_exec(value) { 1 } else { 8 };
        } else if self.step == 2 {
            self.raw_size = value;
            self.step = 3;
        } else if self.step == 3 {
            self.step = if BarCommon(self.raw_addr).bar_type() == 0 && MemorySpaceBar(
                self.raw_addr,
            ).memory_type() == 2 {
                4
            } else {
                8
            };
        } else if self.step == 4 {
            self.next_raw_addr = value;
            self.step = 5;
        } else if self.step == 6 {
            self.next_raw_size = value;
            self.step = 7;
        } else if self.step < 8 {
            self.step = self.step + 1;
        }
    }

    pub fn is_finished(&self) -> (r: bool)
        ensures
            r == (self.step >= 8),
    {
        self.step >= 8
    }

    /// The decoded BAR once the protocol is over: `None` when the slot is
    /// empty (reads as zero) or holds a memory BAR of a reserved width.
    pub fn result(&self) -> (r: Option<BarWithSize>)
        ensures
            r == self.result_spec(),
    {
        if is_decodable_exec(self.raw_addr) {
            Some(decode_bar(self.raw_addr, self.raw_size, self.next_raw_addr, self.next_raw_size))
        } else {
            None
        }
    }
}

fn is_decodable_exec(raw: u32) -> (r: bool)
    ensures
        r == is_decodable(raw),
{
    raw != 0 && (raw % 2 == 1 || (raw / 2) % 4 == 0 || (raw / 2) % 4 == 2)
}

/// A BAR register as the hardware keeps it: its value, and the bits a write
/// can change (the address bits above the window size; the type bits and
/// the bits below the size are read-only).
#[derive(Debug, Clone, Copy, PartialEq, Eq)]
pub struct BarRegisterModel {
    pub value: u32,
    pub writable: u32,
}

pub open spec fn after_write(reg: BarRegisterModel, v: u32) -> BarRegisterModel {
    BarRegisterModel { value: (v & reg.writable) | (reg.value & !reg.writable), writable: reg.writable }
}

/// One transaction of the protocol carried out on modelled registers, keyed
/// by offset.
pub open spec fn probe_step(p: BarProbe, regs: Map<u8, BarRegisterModel>) -> (BarProbe, Map<u8, BarRegisterModel>) {
    match p.action_spec() {
        BarProbeAction::Read { register_offset } => (p.advance_spec(regs[register_offset].value), regs),
        BarProbeAction::Write { register_offset, value } => (
            p.advance_spec(0),
            regs.insert(register_offset, after_write(regs[register_offset], value)),
        ),
        BarProbeAction::Finished => (p, regs),
    }
}

pub open spec fn probe_run(p: BarProbe, regs: Map<u8, BarRegisterModel>, n: nat) -> (BarProbe, Map<u8, BarRegisterModel>)
    decreases n,
{
    if n == 0 {
        (p, regs)
    } else {
        let (q, r) = probe_step(p, regs);
        probe_run(q, r, (n - 1) as nat)
    }
}

proof fn lemma_finished_stays(p: BarProbe, regs: Map<u8, BarRegisterModel>, n: nat)
    requires
        p.step == 8,
    ensures
        probe_run(p, regs, n) == (p, regs),
    decreases n,
{
    if n > 0 {
        lemma_finished_stays(p, regs, (n - 1) as nat);
    }
}

proof fn lemma_write_ones_then_restore(reg: BarRegisterModel)
    ensures
        after_write(after_write(reg, 0xFFFF_FFFF), reg.value) == reg,
{
    let (v, w) = (reg.value, reg.writable);
    assert((v & w) | ((((0xFFFF_FFFFu32 & w) | (v & !w))) & !w) == v) by (bit_vector);
}

/// Sizing a BAR on registers that behave as modelled finishes within eight
/// transactions, leaves every register as it found it, and so decoding the
/// same BAR again gives the same result.
pub proof fn lemma_bar_probe_restores(bar_index: u8, regs: Map<u8, BarRegisterModel>)
    requires
        bar_index < 6,
        regs.dom().contains(bar_register_offset(bar_index)),
        regs.dom().contains((bar_register_offset(bar_index) + 4) as u8),
    ensures
        probe_run(BarProbe::initial(bar_index), regs, 8).0.step == 8,
        probe_run(BarProbe::initial(bar_index), regs, 8).1 == regs,
        probe_run(BarProbe::initial(bar_index), probe_run(BarProbe::initial(bar_index), regs, 8).1, 8)
            == probe_run(BarProbe::initial(bar_index), regs, 8),
{
    let o = bar_register_offset(bar_index);
    let n = (o + 4) as u8;
    let p0 = BarProbe::initial(bar_index);
    let (p1, r1) = probe_step(p0, regs);
    assert(probe_run(p0, regs, 8) == probe_run(p1, r1, 7));
    if !is_decodable(regs[o].value) {
        assert(p1.step == 8 && r1 == regs);
        lemma_finished_stays(p1, r1, 7);
    } else {
        let (p2, r2) = probe_step(p1, r1);
        let (p3, r3) = probe_step(p2, r2);
        let (p4, r4) = probe_step(p3, r3);
        assert(probe_run(p1, r1, 7) == probe_run(p2, r2, 6));
        assert(probe_run(p2, r2, 6) == probe_run(p3, r3, 5));
        assert(probe_run(p3, r3, 5) == probe_run(p4, r4, 4));
        lemma_write_ones_then_restore(regs[o]);
        assert(r4 =~= regs);
        if !is_memory_64(regs[o].value) {
            assert(p4.step == 8);
            lemma_finished_stays(p4, r4, 4);
        } else {
            let (p5, r5) = probe_step(p4, r4);
            let (p6, r6) = probe_step(p5, r5);
            let (p7, r7) = probe_step(p6, r6);
            let (p8, r8) = probe_step(p7, r7);
            assert(probe_run(p4, r4, 4) == probe_run(p5, r5, 3));
            assert(probe_run(p5, r5, 3) == probe_run(p6, r6, 2));
            assert(probe_run(p6, r6, 2) == probe_run(p7, r7, 1));
            assert(probe_run(p7, r7, 1) == probe_run(p8, r8, 0));
            lemma_write_ones_then_restore(regs[n]);
            assert(r8 =~= regs);
        }
    }
}

} // verus!
