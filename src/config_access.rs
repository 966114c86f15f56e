//! Addressing of configuration registers through the two transports.
//!
//! Legacy: a 32-bit address word goes to the address port, then the data
//! port carries the 32-bit register. Extended: the register lives at a byte
//! offset inside a mapped window, stored little-endian.
use vstd::prelude::*;

verus! {

/// Address port of the legacy mechanism.
pub const CONFIG_ADDRESS_PORT: u16 = 0xCF8;

/// Data port of the legacy mechanism.
pub const CONFIG_DATA_PORT: u16 = 0xCFC;

/// The address word of the legacy mechanism: enable bit 31, bus in bits
/// 23..16, device in 15..11, function in 10..8, and the register offset
/// forced down to a multiple of four in bits 7..0.
pub open spec fn legacy_address_spec(bus: u8, device: u8, function: u8, register_offset: u8) -> u32 {
    0x8000_0000u32 | ((bus as u32) << 16u32) | ((device as u32) << 11u32) | ((function as u32)
        << 8u32) | ((register_offset as u32) & 0xFCu32)
}

/// Builds the legacy address word for a register.
pub fn legacy_address(bus: u8, device: u8, function: u8, register_offset: u8) -> (r: u32)
    requires
        device < 32,
        function < 8,
    ensures
        r == legacy_address_spec(bus, device, function, register_offset),
        r >> 31u32 == 1,
        (r >> 16u32) & 0xFF == bus,
        (r >> 11u32) & 0x1F == device,
        (r >> 8u32) & 0x7 == function,
        r & 0xFF == register_offset / 4 * 4,
{
    let r = 0x8000_0000u32 | ((bus as u32) << 16u32) | ((device as u32) << 11u32) | ((function as u32)
        << 8u32) | ((register_offset as u32) & 0xFCu32);
    assert(r >> 31u32 == 1 && (r >> 16u32) & 0xFF == bus && (r >> 11u32) & 0x1F == device && (r
        >> 8u32) & 0x7 == function && r & 0xFF == register_offset / 4 * 4) by (bit_vector)
        requires
            device < 32,
            function < 8,
            r == 0x8000_0000u32 | ((bus as u32) << 16u32) | ((device as u32) << 11u32) | ((
            function as u32) << 8u32) | ((register_offset as u32) & 0xFCu32),
    ;
    r
}

/// Number of bits that a 16-bit register at `register_offset` sits above
/// the start of the 32-bit register that holds it.
pub open spec fn half_shift(register_offset: u8) -> u32 {
    ((register_offset % 4) * 8) as u32
}

/// The 16-bit register at `register_offset`, taken from the 32-bit register
/// that holds it.
pub open spec fn u16_in_dword(dword: u32, register_offset: u8) -> u16 {
    (dword >> half_shift(register_offset)) as u16
}

/// The 32-bit register after its 16-bit part at `register_offset` is
/// replaced by `value`.
pub open spec fn dword_with_u16(dword: u32, register_offset: u8, value: u16) -> u32 {
    (dword & !(0xFFFFu32 << half_shift(register_offset))) | ((value as u32) << half_shift(
        register_offset,
    ))
}

/// Extracts a 16-bit register from the 32-bit data-port value.
pub fn legacy_read_u16_from(dword: u32, register_offset: u8) -> (r: u16)
    requires
        register_offset % 2 == 0,
    ensures
        r == u16_in_dword(dword, register_offset),
{
    let shift: u32 = ((register_offset % 4) * 8) as u32;
    (dword >> shift) as u16
}

/// The 32-bit value to write back when a 16-bit register is written through
/// the legacy mechanism (read, modify, write of the containing register).
pub fn legacy_merge_u16(dword: u32, register_offset: u8, value: u16) -> (r: u32)
    requires
        register_offset % 2 == 0,
    ensures
        r == dword_with_u16(dword, register_offset, value),
        u16_in_dword(r, register_offset) == value,
        u16_in_dword(r, register_offset ^ 2) == u16_in_dword(dword, register_offset ^ 2),
{
    let shift: u32 = ((register_offset % 4) * 8) as u32;
    let change_mask: u32 = 0xFFFFu32 << shift;
    let r = (dword & !change_mask) | ((value as u32) << shift);
    proof {
        lemma_merge_then_extract(dword, register_offset, value);
    }
    r
}

/// Reading the 16-bit register just merged gives the merged value, and the
/// other half of the 32-bit register is left as it was.
pub proof fn lemma_merge_then_extract(dword: u32, register_offset: u8, value: u16)
    requires
        register_offset % 2 == 0,
    ensures
        u16_in_dword(dword_with_u16(dword, register_offset, value), register_offset) == value,
        u16_in_dword(dword_with_u16(dword, register_offset, value), register_offset ^ 2)
            == u16_in_dword(dword, register_offset ^ 2),
{
    let o = register_offset;
    assert(o % 4 == 0 || o % 4 == 2);
    assert((o ^ 2u8) % 4 == 2 - o % 4) by (bit_vector)
        requires
            o % 2 == 0,
    ;
    let v32 = value as u32;
    assert(v32 < 0x10000);
    if o % 4 == 0 {
        assert(half_shift(o) == 0);
        assert(half_shift(o ^ 2u8) == 16);
        assert(((((dword & !(0xFFFFu32 << 0u32)) | (v32 << 0u32)) >> 0u32) as u16) == value && (((
        (dword & !(0xFFFFu32 << 0u32)) | (v32 << 0u32)) >> 16u32) as u16) == ((dword >> 16u32)
            as u16)) by (bit_vector)
            requires
                v32 == value as u32,
        ;
    } else {
        assert(half_shift(o) == 16);
        assert(half_shift(o ^ 2u8) == 0);
        assert(((((dword & !(0xFFFFu32 << 16u32)) | (v32 << 16u32)) >> 16u32) as u16) == value
            && ((((dword & !(0xFFFFu32 << 16u32)) | (v32 << 16u32)) >> 0u32) as u16) == ((dword
            >> 0u32) as u16)) by (bit_vector)
            requires
                v32 == value as u32,
        ;
    }
}

/// Byte offset of a register inside the extended window whose first bus is
/// `bus_number_start`. The fields occupy disjoint bit ranges, so this is
/// `(bus - start) << 20 | device << 15 | function << 12 | offset`.
pub open spec fn ecam_offset_spec(
    bus_number_start: u8,
    bus: u8,
    device: u8,
    function: u8,
    register_offset: u8,
) -> int {
    (bus - bus_number_start) * 0x10_0000 + device * 0x8000 + function * 0x1000 + register_offset
}

/// Computes the byte offset of a register inside the extended window.
pub fn ecam_offset(bus_number_start: u8, bus: u8, device: u8, function: u8, register_offset: u8) -> (r: usize)
    requires
        bus_number_start <= bus,
        device < 32,
        function < 8,
    ensures
        r == ecam_offset_spec(bus_number_start, bus, device, function, register_offset),
        r < (bus - bus_number_start + 1) * 0x10_0000,
{
    let bus_offset: u8 = bus - bus_number_start;
    (bus_offset as usize) * 0x10_0000 + (device as usize) * 0x8000 + (function as usize) * 0x1000
        + register_offset as usize
}

/// The little-endian value of four bytes.
pub open spec fn le_u32(b: Seq<u8>) -> u32 {
    (b[0] as u32) | ((b[1] as u32) << 8u32) | ((b[2] as u32) << 16u32) | ((b[3] as u32) << 24u32)
}

/// The little-endian value of two bytes.
pub open spec fn le_u16(b: Seq<u8>) -> u16 {
    ((b[0] as u16) | ((b[1] as u16) << 8u16)) as u16
}

/// The value of four bytes read from the extended window.
pub fn u32_from_le_bytes(b: [u8; 4]) -> (r: u32)
    ensures
        r == le_u32(b@),
{
    (b[0] as u32) | ((b[1] as u32) << 8u32) | ((b[2] as u32) << 16u32) | ((b[3] as u32) << 24u32)
}

/// The bytes to store in the extended window for a 32-bit value.
pub fn u32_to_le_bytes(v: u32) -> (r: [u8; 4])
    ensures
        le_u32(r@) == v,
        r@ == seq![v as u8, (v >> 8u32) as u8, (v >> 16u32) as u8, (v >> 24u32) as u8],
{
    let r = [v as u8, (v >> 8u32) as u8, (v >> 16u32) as u8, (v >> 24u32) as u8];
    proof {
        lemma_le_u32_round_trip(v);
        assert(r@ =~= seq![v as u8, (v >> 8u32) as u8, (v >> 16u32) as u8, (v >> 24u32) as u8]);
    }
    r
}

/// The value of two bytes read from the extended window.
pub fn u16_from_le_bytes(b: [u8; 2]) -> (r: u16)
    ensures
        r == le_u16(b@),
{
    ((b[0] as u16) | ((b[1] as u16) << 8u16)) as u16
}

/// The bytes to store in the extended window for a 16-bit value.
pub fn u16_to_le_bytes(v: u16) -> (r: [u8; 2])
    ensures
        le_u16(r@) == v,
        r@ == seq![v as u8, (v >> 8u16) as u8],
{
    let r = [v as u8, (v >> 8u16) as u8];
    proof {
        lemma_le_u16_round_trip(v);
        assert(r@ =~= seq![v as u8, (v >> 8u16) as u8]);
    }
    r
}

proof fn lemma_le_u32_round_trip(v: u32)
    ensures
        le_u32(seq![v as u8, (v >> 8u32) as u8, (v >> 16u32) as u8, (v >> 24u32) as u8]) == v,
{
    let (b0, b1, b2, b3) = (v as u8, (v >> 8u32) as u8, (v >> 16u32) as u8, (v >> 24u32) as u8);
    assert((b0 as u32) | ((b1 as u32) << 8u32) | ((b2 as u32) << 16u32) | ((b3 as u32) << 24u32)
        == v) by (bit_vector)
        requires
            b0 == v as u8,
            b1 == (v >> 8u32) as u8,
            b2 == (v >> 16u32) as u8,
            b3 == (v >> 24u32) as u8,
    ;
}

proof fn lemma_le_u16_round_trip(v: u16)
    ensures
        le_u16(seq![v as u8, (v >> 8u16) as u8]) == v,
{
    let (b0, b1) = (v as u8, (v >> 8u16) as u8);
    assert(((b0 as u16) | ((b1 as u16) << 8u16)) as u16 == v) by (bit_vector)
        requires
            b0 == v as u8,
            b1 == (v >> 8u16) as u8,
    ;
}

/// Configuration space as the legacy mechanism sees it: the 32-bit register
/// behind each address word.
pub type LegacyRegisters = Map<u32, u32>;

pub open spec fn legacy_read_u32(regs: LegacyRegisters, bus: u8, device: u8, function: u8, register_offset: u8) -> u32 {
    regs[legacy_address_spec(bus, device, function, register_offset)]
}

pub open spec fn legacy_write_u32(
    regs: LegacyRegisters,
    bus: u8,
    device: u8,
    function: u8,
    register_offset: u8,
    value: u32,
) -> LegacyRegisters {
    regs.insert(legacy_address_spec(bus, device, function, register_offset), value)
}

/// A 16-bit read: the containing 32-bit register, shifted by the offset's low
/// bits.
pub open spec fn legacy_read_u16(regs: LegacyRegisters, bus: u8, device: u8, function: u8, register_offset: u8) -> u16 {
    u16_in_dword(legacy_read_u32(regs, bus, device, function, register_offset), register_offset)
}

/// A 16-bit write: read, modify and write back the containing 32-bit register.
pub open spec fn legacy_write_u16(
    regs: LegacyRegisters,
    bus: u8,
    device: u8,
    function: u8,
    register_offset: u8,
    value: u16,
) -> LegacyRegisters {
    legacy_write_u32(
        regs,
        bus,
        device,
        function,
        register_offset,
        dword_with_u16(legacy_read_u32(regs, bus, device, function, register_offset), register_offset, value),
    )
}

/// Configuration space as the extended mechanism sees it: the byte at each
/// offset of the mapped window.
pub type ExtendedBytes = Map<int, u8>;

pub open spec fn extended_bytes(mem: ExtendedBytes, at: int, n: int) -> Seq<u8> {
    Seq::new(n as nat, |i: int| mem[at + i])
}

pub open spec fn extended_store(mem: ExtendedBytes, at: int, bytes: Seq<u8>) -> ExtendedBytes {
    Map::new(
        |k: int| mem.dom().contains(k) || (at <= k < at + bytes.len()),
        |k: int|
            if at <= k < at + bytes.len() {
                bytes[k - at]
            } else {
                mem[k]
            },
    )
}

pub open spec fn extended_read_u32(mem: ExtendedBytes, start: u8, bus: u8, device: u8, function: u8, register_offset: u8) -> u32 {
    le_u32(extended_bytes(mem, ecam_offset_spec(start, bus, device, function, register_offset), 4))
}

pub open spec fn extended_write_u32(
    mem: ExtendedBytes,
    start: u8,
    bus: u8,
    device: u8,
    function: u8,
    register_offset: u8,
    value: u32,
) -> ExtendedBytes {
    extended_store(
        mem,
        ecam_offset_spec(start, bus, device, function, register_offset),
        seq![value as u8, (value >> 8u32) as u8, (value >> 16u32) as u8, (value >> 24u32) as u8],
    )
}

pub open spec fn extended_read_u16(mem: ExtendedBytes, start: u8, bus: u8, device: u8, function: u8, register_offset: u8) -> u16 {
    le_u16(extended_bytes(mem, ecam_offset_spec(start, bus, device, function, register_offset), 2))
}

/// A 16-bit write in the extended window stores two bytes directly.
pub open spec fn extended_write_u16(
    mem: ExtendedBytes,
    start: u8,
    bus: u8,
    device: u8,
    function: u8,
    register_offset: u8,
    value: u16,
) -> ExtendedBytes {
    extended_store(
        mem,
        ecam_offset_spec(start, bus, device, function, register_offset),
        seq![value as u8, (value >> 8u16) as u8],
    )
}

/// Through the legacy mechanism, a register read right after it was written
/// gives back the written value, at both access widths.
pub proof fn lemma_legacy_write_then_read(
    regs: LegacyRegisters,
    bus: u8,
    device: u8,
    function: u8,
    register_offset: u8,
    value32: u32,
    value16: u16,
)
    requires
        device < 32,
        function < 8,
        register_offset % 2 == 0,
    ensures
        register_offset % 4 == 0 ==> legacy_read_u32(
            legacy_write_u32(regs, bus, device, function, register_offset, value32),
            bus,
            device,
            function,
            register_offset,
        ) == value32,
        legacy_read_u16(
            legacy_write_u16(regs, bus, device, function, register_offset, value16),
            bus,
            device,
            function,
            register_offset,
        ) == value16,
{
    lemma_merge_then_extract(
        legacy_read_u32(regs, bus, device, function, register_offset),
        register_offset,
        value16,
    );
}

/// Through the extended mechanism, a register read right after it was
/// written gives back the written value, at both access widths.
pub proof fn lemma_extended_write_then_read(
    mem: ExtendedBytes,
    start: u8,
    bus: u8,
    device: u8,
    function: u8,
    register_offset: u8,
    value32: u32,
    value16: u16,
)
    requires
        start <= bus,
        device < 32,
        function < 8,
        register_offset % 2 == 0,
    ensures
        register_offset % 4 == 0 ==> extended_read_u32(
            extended_write_u32(mem, start, bus, device, function, register_offset, value32),
            start,
            bus,
            device,
            function,
            register_offset,
        ) == value32,
        extended_read_u16(
            extended_write_u16(mem, start, bus, device, function, register_offset, value16),
            start,
            bus,
            device,
            function,
            register_offset,
        ) == value16,
{
    let at = ecam_offset_spec(start, bus, device, function, register_offset);
    let b4 = seq![value32 as u8, (value32 >> 8u32) as u8, (value32 >> 16u32) as u8, (value32 >> 24u32) as u8];
    let m4 = extended_write_u32(mem, start, bus, device, function, register_offset, value32);
    assert(extended_bytes(m4, at, 4) =~= b4);
    lemma_le_u32_round_trip(value32);
    let b2 = seq![value16 as u8, (value16 >> 8u16) as u8];
    let m2 = extended_write_u16(mem, start, bus, device, function, register_offset, value16);
    assert(extended_bytes(m2, at, 2) =~= b2);
    lemma_le_u16_round_trip(value16);
}

} // verus!
