//! Descriptors of the guest address ranges and the devices behind them.
//!
//! The table is an ordered list of policies: an address belongs to the first
//! region that claims it. Three device registers lie inside larger regions
//! and stand before them in the table, so that the more specific device
//! answers.

use vstd::prelude::*;

verus! {

/// The kind of device that backs a region of the guest address space.
#[derive(Clone, Copy, Debug, PartialEq, Eq, Structural)]
pub enum MemoryRegionType {
    RAM,
    ExpansionRegion,
    Scratchpad,
    HardwareRegisters,
    BIOS,
    IOPorts,
    MemlControl,
    RAMSize,
    CacheControl,
}

/// A half-open range `[base, base + length)` of guest addresses and the kind
/// of device that answers in it.
#[derive(Clone, Copy, Debug, PartialEq, Eq, Structural)]
pub struct MemoryRegion {
    pub base: u32,
    pub length: u32,
    pub kind: MemoryRegionType,
}

/// The number of entries of the region table.
pub const REGION_COUNT: usize = 19;

/// The place of the memory-control registers in the table.
pub const MEMLCONTROL_INDEX: usize = 9;

/// The place of the RAM-size register in the table.
pub const RAM_SIZE_INDEX: usize = 10;

/// The place of the first window of the hardware registers in the table.
pub const HARDWARE_REGISTERS_1_INDEX: usize = 11;

/// The place of the cache-control register in the table.
pub const CACHE_CONTROL_INDEX: usize = 17;

/// The place of the I/O ports in the table.
pub const IO_PORTS_INDEX: usize = 18;

impl MemoryRegionType {
    /// The number of bytes that a device of this kind answers for: the
    /// length of each of its regions.
    pub open spec fn size(self) -> nat {
        match self {
            MemoryRegionType::RAM => 0x20_0000,
            MemoryRegionType::ExpansionRegion => 0x80_0000,
            MemoryRegionType::Scratchpad => 0x400,
            MemoryRegionType::HardwareRegisters => 0x2000,
            MemoryRegionType::BIOS => 0x8_0000,
            MemoryRegionType::IOPorts => 0x200,
            MemoryRegionType::MemlControl => 0x24,
            MemoryRegionType::RAMSize => 0x4,
            MemoryRegionType::CacheControl => 0x4,
        }
    }
}

impl MemoryRegion {
    /// Whether `address` lies in `[base, base + length)`.
    pub open spec fn claims(self, address: u32) -> bool {
        self.base <= address && address < self.base + self.length
    }

    /// The offset of `address` inside the region, when the region holds it.
    pub open spec fn offset_of(self, address: u32) -> Option<u32> {
        if self.claims(address) {
            Some((address - self.base) as u32)
        } else {
            None
        }
    }

    /// The in-region offset of `address`, or `None` when the address lies
    /// outside the region.
    pub fn contains(self, address: u32) -> (offset: Option<u32>)
        ensures
            offset == self.offset_of(address),
    {
        if address >= self.base && address - self.base < self.length {
            Some(address - self.base)
        } else {
            None
        }
    }
}

/// The region table, in order of precedence: RAM, Expansion 1 and the
/// scratchpad in their three segments, the memory-control and RAM-size
/// registers ahead of the hardware registers that surround them, the BIOS,
/// and the cache-control register ahead of the I/O ports that surround it.
pub open spec fn region_table() -> Seq<MemoryRegion> {
    seq![
        MemoryRegion { base: 0x0000_0000, length: 0x20_0000, kind: MemoryRegionType::RAM },
        MemoryRegion { base: 0x8000_0000, length: 0x20_0000, kind: MemoryRegionType::RAM },
        MemoryRegion { base: 0xa000_0000, length: 0x20_0000, kind: MemoryRegionType::RAM },
        MemoryRegion { base: 0x1f00_0000, length: 0x80_0000, kind: MemoryRegionType::ExpansionRegion },
        MemoryRegion { base: 0x9f00_0000, length: 0x80_0000, kind: MemoryRegionType::ExpansionRegion },
        MemoryRegion { base: 0xbf00_0000, length: 0x80_0000, kind: MemoryRegionType::ExpansionRegion },
        MemoryRegion { base: 0x1f80_0000, length: 0x400, kind: MemoryRegionType::Scratchpad },
        MemoryRegion { base: 0x9f80_0000, length: 0x400, kind: MemoryRegionType::Scratchpad },
        MemoryRegion { base: 0xbf80_0000, length: 0x400, kind: MemoryRegionType::Scratchpad },
        MemoryRegion { base: 0x1f80_1000, length: 0x24, kind: MemoryRegionType::MemlControl },
        MemoryRegion { base: 0x1f80_1060, length: 0x4, kind: MemoryRegionType::RAMSize },
        MemoryRegion { base: 0x1f80_1000, length: 0x2000, kind: MemoryRegionType::HardwareRegisters },
        MemoryRegion { base: 0x9f80_1000, length: 0x2000, kind: MemoryRegionType::HardwareRegisters },
        MemoryRegion { base: 0xbf80_1000, length: 0x2000, kind: MemoryRegionType::HardwareRegisters },
        MemoryRegion { base: 0x1fc0_0000, length: 0x8_0000, kind: MemoryRegionType::BIOS },
        MemoryRegion { base: 0x9fc0_0000, length: 0x8_0000, kind: MemoryRegionType::BIOS },
        MemoryRegion { base: 0xbfc0_0000, length: 0x8_0000, kind: MemoryRegionType::BIOS },
        MemoryRegion { base: 0xfffe_0130, length: 0x4, kind: MemoryRegionType::CacheControl },
        MemoryRegion { base: 0xfffe_0000, length: 0x200, kind: MemoryRegionType::IOPorts },
    ]
}

/// The first region at or after place `from` of the table that claims
/// `address`, as the kind of its device and the offset inside the region.
pub open spec fn mapping_from(address: u32, from: int) -> Option<(MemoryRegionType, u32)>
    decreases region_table().len() - from,
{
    if from < 0 || from >= region_table().len() {
        None
    } else if region_table()[from].claims(address) {
        Some((region_table()[from].kind, (address - region_table()[from].base) as u32))
    } else {
        mapping_from(address, from + 1)
    }
}

/// Where the bus sends an access to `address`: the kind of the device of the
/// first region that claims it, and the offset inside that region. `None`
/// when no region claims the address.
pub open spec fn mapping(address: u32) -> Option<(MemoryRegionType, u32)> {
    mapping_from(address, 0)
}

/// The region table, in order of precedence.
pub fn regions() -> (table: [MemoryRegion; 19])
    ensures
        table@ == region_table(),
{
    let table = [
        MemoryRegion { base: 0x0000_0000, length: 0x20_0000, kind: MemoryRegionType::RAM },
        MemoryRegion { base: 0x8000_0000, length: 0x20_0000, kind: MemoryRegionType::RAM },
        MemoryRegion { base: 0xa000_0000, length: 0x20_0000, kind: MemoryRegionType::RAM },
        MemoryRegion { base: 0x1f00_0000, length: 0x80_0000, kind: MemoryRegionType::ExpansionRegion },
        MemoryRegion { base: 0x9f00_0000, length: 0x80_0000, kind: MemoryRegionType::ExpansionRegion },
        MemoryRegion { base: 0xbf00_0000, length: 0x80_0000, kind: MemoryRegionType::ExpansionRegion },
        MemoryRegion { base: 0x1f80_0000, length: 0x400, kind: MemoryRegionType::Scratchpad },
        MemoryRegion { base: 0x9f80_0000, length: 0x400, kind: MemoryRegionType::Scratchpad },
        MemoryRegion { base: 0xbf80_0000, length: 0x400, kind: MemoryRegionType::Scratchpad },
        MemoryRegion { base: 0x1f80_1000, length: 0x24, kind: MemoryRegionType::MemlControl },
        MemoryRegion { base: 0x1f80_1060, length: 0x4, kind: MemoryRegionType::RAMSize },
        MemoryRegion { base: 0x1f80_1000, length: 0x2000, kind: MemoryRegionType::HardwareRegisters },
        MemoryRegion { base: 0x9f80_1000, length: 0x2000, kind: MemoryRegionType::HardwareRegisters },
        MemoryRegion { base: 0xbf80_1000, length: 0x2000, kind: MemoryRegionType::HardwareRegisters },
        MemoryRegion { base: 0x1fc0_0000, length: 0x8_0000, kind: MemoryRegionType::BIOS },
        MemoryRegion { base: 0x9fc0_0000, length: 0x8_0000, kind: MemoryRegionType::BIOS },
        MemoryRegion { base: 0xbfc0_0000, length: 0x8_0000, kind: MemoryRegionType::BIOS },
        MemoryRegion { base: 0xfffe_0130, length: 0x4, kind: MemoryRegionType::CacheControl },
        MemoryRegion { base: 0xfffe_0000, length: 0x200, kind: MemoryRegionType::IOPorts },
    ];
    assert(table@ =~= region_table());
    table
}

/// Resolves an address: walks the region table in order and stops at the
/// first region that claims the address.
pub fn resolve(address: u32) -> (found: Option<(MemoryRegionType, u32)>)
    ensures
        found == mapping(address),
{
    let table = regions();
    let mut i: usize = 0;
    while i < REGION_COUNT
        invariant
            i <= REGION_COUNT,
            table@ == region_table(),
            region_table().len() == REGION_COUNT,
            mapping_from(address, i as int) == mapping(address),
        decreases REGION_COUNT - i,
    {
        let region = table[i];
        match region.contains(address) {
            Some(offset) => {
                return Some((region.kind, offset));
            },
            None => {},
        }
        i += 1;
    }
    None
}

/// The mapping of an address is the first claim in table order: the region
/// at place `i` answers exactly when it claims the address and no region
/// before it does.
pub proof fn lemma_mapping_is_first_claim(address: u32, i: int)
    requires
        0 <= i < region_table().len(),
        region_table()[i].claims(address),
        forall|j: int| 0 <= j < i ==> !(#[trigger] region_table()[j]).claims(address),
    ensures
        mapping(address) == Some(
            (region_table()[i].kind, (address - region_table()[i].base) as u32),
        ),
{
    lemma_mapping_skips(address, 0, i);
}

/// Places of the table that do not claim an address are passed over.
proof fn lemma_mapping_skips(address: u32, from: int, i: int)
    requires
        0 <= from <= i < region_table().len(),
        forall|j: int| from <= j < i ==> !(#[trigger] region_table()[j]).claims(address),
    ensures
        mapping_from(address, from) == mapping_from(address, i),
    decreases i - from,
{
    if from < i {
        lemma_mapping_skips(address, from + 1, i);
    }
}

/// An address that no region claims has no mapping, and an address with a
/// mapping is claimed by a region of that kind at that offset.
pub proof fn lemma_mapping_claimed(address: u32)
    ensures
        mapping(address) is None <==> forall|i: int|
            0 <= i < region_table().len() ==> !(#[trigger] region_table()[i]).claims(address),
        mapping(address) matches Some((kind, offset)) ==> exists|i: int|
            0 <= i < region_table().len() && (#[trigger] region_table()[i]).claims(address)
                && region_table()[i].kind == kind && offset == address - region_table()[i].base,
{
    lemma_mapping_from_claimed(address, 0);
}

proof fn lemma_mapping_from_claimed(address: u32, from: int)
    requires
        0 <= from <= region_table().len(),
    ensures
        mapping_from(address, from) is None <==> forall|i: int|
            from <= i < region_table().len() ==> !(#[trigger] region_table()[i]).claims(address),
        mapping_from(address, from) matches Some((kind, offset)) ==> exists|i: int|
            from <= i < region_table().len() && (#[trigger] region_table()[i]).claims(address)
                && region_table()[i].kind == kind && offset == address - region_table()[i].base,
    decreases region_table().len() - from,
{
    if from < region_table().len() {
        lemma_mapping_from_claimed(address, from + 1);
        if region_table()[from].claims(address) {
            assert(mapping_from(address, from) == Some(
                (region_table()[from].kind, (address - region_table()[from].base) as u32),
            ));
        }
    }
}

/// What the bus relies on: the offset of a mapping lies inside the device,
/// whose size is a multiple of four, and an aligned address has an aligned
/// offset, so that a whole word at the offset lies inside the device.
pub proof fn lemma_mapping_bounds(address: u32)
    ensures
        mapping(address) matches Some((kind, offset)) ==> {
            &&& offset < kind.size()
            &&& kind.size() % 4 == 0
            &&& address % 4 == 0 ==> offset % 4 == 0 && offset + 4 <= kind.size()
        },
{
    reveal_with_fuel(mapping_from, 20);
}

/// Region lookup is unambiguous but for the three device registers that lie
/// inside a larger region: when two entries of the table claim one address,
/// the earlier is the memory-control or the RAM-size register and the later
/// the first window of the hardware registers, or the earlier is the
/// cache-control register and the later the I/O ports.
pub proof fn lemma_claims_overlap_only_at_registers(address: u32, i: int, j: int)
    requires
        0 <= i < j < region_table().len(),
        region_table()[i].claims(address),
        region_table()[j].claims(address),
    ensures
        (i == MEMLCONTROL_INDEX && j == HARDWARE_REGISTERS_1_INDEX) || (i == RAM_SIZE_INDEX && j
            == HARDWARE_REGISTERS_1_INDEX) || (i == CACHE_CONTROL_INDEX && j == IO_PORTS_INDEX),
{
}

/// Outside the three device registers at most one region claims an address.
pub proof fn lemma_at_most_one_claim(address: u32, i: int, j: int)
    requires
        !region_table()[MEMLCONTROL_INDEX as int].claims(address),
        !region_table()[RAM_SIZE_INDEX as int].claims(address),
        !region_table()[CACHE_CONTROL_INDEX as int].claims(address),
        0 <= i < region_table().len(),
        0 <= j < region_table().len(),
        region_table()[i].claims(address),
        region_table()[j].claims(address),
    ensures
        i == j,
{
    if i < j {
        lemma_claims_overlap_only_at_registers(address, i, j);
    } else if j < i {
        lemma_claims_overlap_only_at_registers(address, j, i);
    }
}

/// The segments of a mirrored device resolve alike: an address of the
/// cached or of the uncached kernel segment maps to the same device and
/// offset as the address of the user segment that it mirrors, wherever that
/// one maps to RAM, Expansion 1, the scratchpad or the BIOS.
pub proof fn lemma_mirrors_share_backing(address: u32)
    requires
        address < 0x2000_0000,
        mapping(address) matches Some((kind, _)) && (kind == MemoryRegionType::RAM || kind
            == MemoryRegionType::ExpansionRegion || kind == MemoryRegionType::Scratchpad || kind
            == MemoryRegionType::BIOS),
    ensures
        mapping((address + 0x8000_0000) as u32) == mapping(address),
        mapping((address + 0xa000_0000) as u32) == mapping(address),
{
    reveal_with_fuel(mapping_from, 20);
}

} // verus!
