//! The memory bus: resolves an address to a device, checks alignment, and
//! reads or writes little-endian words in the device's bytes.
//!
//! The segments of a mirrored device share one backing buffer, so the bus
//! holds one buffer for each kind of device.

use vstd::prelude::*;
use crate::bios::{Bios, BIOS_SIZE};
use crate::generic_error::{ErrorKind, GenericError};
use crate::memlcontrol::Memlcontrol;
use crate::memory_region::{lemma_mapping_bounds, mapping, resolve, MemoryRegionType};
use crate::word::{
    lemma_bytes_by_masks,
    lemma_word_by_shifts,
    lemma_write_keeps_others,
    lemma_write_then_read,
    word_at,
    write_word,
};

verus! {

#[derive(Debug, Clone)]
pub struct Memory {
    pub ram: Vec<u8>,  // 2048K (0x00000000, 0x80000000, 0xa0000000)
    pub expansion_region_1: Vec<u8>,  // 8192K (0x1f000000, 0x9f000000, 0xbf000000)
    pub scratchpad: Vec<u8>,  // 1K (0x1f800000, 0x9f800000, 0xbf800000)
    pub hardware_registers: Vec<u8>,  // 8K (0x1f801000, 0x9f801000, 0xbf801000)
    pub bios: Bios,  // 512K (0x1fc00000, 0x9fc00000, 0xbfc00000)
    pub io_ports: Vec<u8>,  // 512B (0xfffe0000)
    pub ram_size: Vec<u8>,  // 4B (0x1f801060)
    pub cache_control: Vec<u8>,  // 4B (0xfffe0130)
}

/// The bytes of the bus, device by device.
pub struct MemoryView {
    pub ram: Seq<u8>,
    pub expansion_region_1: Seq<u8>,
    pub scratchpad: Seq<u8>,
    pub hardware_registers: Seq<u8>,
    pub bios: Seq<u8>,
    pub io_ports: Seq<u8>,
    pub ram_size: Seq<u8>,
    pub cache_control: Seq<u8>,
}

impl View for Memory {
    type V = MemoryView;

    open spec fn view(&self) -> MemoryView {
        MemoryView {
            ram: self.ram@,
            expansion_region_1: self.expansion_region_1@,
            scratchpad: self.scratchpad@,
            hardware_registers: self.hardware_registers@,
            bios: self.bios.data@,
            io_ports: self.io_ports@,
            ram_size: self.ram_size@,
            cache_control: self.cache_control@,
        }
    }
}

/// `length` zero bytes.
pub open spec fn zeros(length: nat) -> Seq<u8> {
    Seq::new(length, |i: int| 0u8)
}

impl MemoryView {
    /// The bytes behind a kind of device. The memory-control registers keep
    /// no bytes.
    pub open spec fn bank(self, kind: MemoryRegionType) -> Seq<u8> {
        match kind {
            MemoryRegionType::RAM => self.ram,
            MemoryRegionType::ExpansionRegion => self.expansion_region_1,
            MemoryRegionType::Scratchpad => self.scratchpad,
            MemoryRegionType::HardwareRegisters => self.hardware_registers,
            MemoryRegionType::BIOS => self.bios,
            MemoryRegionType::IOPorts => self.io_ports,
            MemoryRegionType::MemlControl => Seq::empty(),
            MemoryRegionType::RAMSize => self.ram_size,
            MemoryRegionType::CacheControl => self.cache_control,
        }
    }

    /// The bus with other bytes behind one kind of device.
    pub open spec fn with_bank(self, kind: MemoryRegionType, bytes: Seq<u8>) -> MemoryView {
        match kind {
            MemoryRegionType::RAM => MemoryView { ram: bytes, ..self },
            MemoryRegionType::ExpansionRegion => MemoryView { expansion_region_1: bytes, ..self },
            MemoryRegionType::Scratchpad => MemoryView { scratchpad: bytes, ..self },
            MemoryRegionType::HardwareRegisters => MemoryView {
                hardware_registers: bytes,
                ..self
            },
            MemoryRegionType::BIOS => MemoryView { bios: bytes, ..self },
            MemoryRegionType::IOPorts => MemoryView { io_ports: bytes, ..self },
            MemoryRegionType::MemlControl => self,
            MemoryRegionType::RAMSize => MemoryView { ram_size: bytes, ..self },
            MemoryRegionType::CacheControl => MemoryView { cache_control: bytes, ..self },
        }
    }

    /// Whether a store to a device of this kind writes its bytes: the BIOS
    /// is read-only and the memory-control registers keep none.
    pub open spec fn writable(kind: MemoryRegionType) -> bool {
        kind != MemoryRegionType::BIOS && kind != MemoryRegionType::MemlControl
    }

    /// Whether every buffer that the bus writes to has the size of its
    /// device.
    pub open spec fn wf(self) -> bool {
        &&& self.ram.len() == MemoryRegionType::RAM.size()
        &&& self.expansion_region_1.len() == MemoryRegionType::ExpansionRegion.size()
        &&& self.scratchpad.len() == MemoryRegionType::Scratchpad.size()
        &&& self.hardware_registers.len() == MemoryRegionType::HardwareRegisters.size()
        &&& self.io_ports.len() == MemoryRegionType::IOPorts.size()
        &&& self.ram_size.len() == MemoryRegionType::RAMSize.size()
        &&& self.cache_control.len() == MemoryRegionType::CacheControl.size()
    }

    /// Whether a complete BIOS image is installed.
    pub open spec fn has_bios(self) -> bool {
        self.bios.len() == MemoryRegionType::BIOS.size()
    }

    /// Whether a word at `address` can be loaded: an aligned address of the
    /// BIOS asks for an installed image that reaches to the end of the word.
    pub open spec fn readable(self, address: u32) -> bool {
        mapping(address) matches Some((kind, offset)) ==> address % 4 == 0 && kind
            == MemoryRegionType::BIOS ==> offset + 4 <= self.bios.len()
    }

    /// The bus as it is constructed: every buffer zeroed at its final size,
    /// and no BIOS image.
    pub open spec fn blank() -> MemoryView {
        MemoryView {
            ram: zeros(MemoryRegionType::RAM.size()),
            expansion_region_1: zeros(MemoryRegionType::ExpansionRegion.size()),
            scratchpad: zeros(MemoryRegionType::Scratchpad.size()),
            hardware_registers: zeros(MemoryRegionType::HardwareRegisters.size()),
            bios: Seq::empty(),
            io_ports: zeros(MemoryRegionType::IOPorts.size()),
            ram_size: zeros(MemoryRegionType::RAMSize.size()),
            cache_control: zeros(MemoryRegionType::CacheControl.size()),
        }
    }

    /// What a 32-bit load from `address` returns. An address that is no
    /// multiple of four fails; so does one that no region claims. The
    /// memory-control registers answer with their constants; every other
    /// device with the little-endian word at the offset in its bytes.
    pub open spec fn load32(self, address: u32) -> Result<u32, GenericError> {
        if address % 4 != 0 {
            Err(GenericError { kind: ErrorKind::UnalignedLoad { address } })
        } else {
            match mapping(address) {
                None => Err(GenericError { kind: ErrorKind::UnmappedLoad { address } }),
                Some((kind, offset)) => Ok(
                    if kind == MemoryRegionType::MemlControl {
                        Memlcontrol::register(offset)
                    } else {
                        word_at(self.bank(kind), offset as int)
                    },
                ),
            }
        }
    }

    /// What a 32-bit store of `word` to `address` does: the bus after it,
    /// and its result. An address that is no multiple of four fails; so
    /// does one that no region claims. A store to the BIOS is ignored. The
    /// memory-control registers check the word and keep nothing. Every
    /// other device takes the word, little-endian, at the offset in its
    /// bytes.
    pub open spec fn store32(self, address: u32, word: u32) -> (MemoryView, Result<
        (),
        GenericError,
    >) {
        if address % 4 != 0 {
            (self, Err(GenericError { kind: ErrorKind::UnalignedStore { address } }))
        } else {
            match mapping(address) {
                None => (self, Err(GenericError { kind: ErrorKind::UnmappedStore { address } })),
                Some((kind, offset)) => if kind == MemoryRegionType::BIOS {
                    (self, Ok(()))
                } else if kind == MemoryRegionType::MemlControl {
                    match Memlcontrol::store_outcome(offset, word) {
                        Some(outcome) => (self, outcome),
                        None => (self, Ok(())),
                    }
                } else {
                    (
                        self.with_bank(kind, write_word(self.bank(kind), offset as int, word)),
                        Ok(()),
                    )
                },
            }
        }
    }
}

impl Memory {
    /// Whether every buffer that the bus writes to has the size of its
    /// device.
    pub open spec fn wf(&self) -> bool {
        self@.wf()
    }

    /// A bus with every buffer zeroed at its final size and no BIOS image.
    pub fn new() -> (memory: Self)
        ensures
            memory@ == MemoryView::blank(),
            memory.wf(),
    {
        let memory = Self {
            ram: vec![0u8; 0x20_0000],
            expansion_region_1: vec![0u8; 0x80_0000],
            scratchpad: vec![0u8; 0x400],
            hardware_registers: vec![0u8; 0x2000],
            bios: Bios::default(),
            io_ports: vec![0u8; 0x200],
            ram_size: vec![0u8; 0x4],
            cache_control: vec![0u8; 0x4],
        };
        assert(memory.ram@ =~= zeros(MemoryRegionType::RAM.size()));
        assert(memory.expansion_region_1@ =~= zeros(MemoryRegionType::ExpansionRegion.size()));
        assert(memory.scratchpad@ =~= zeros(MemoryRegionType::Scratchpad.size()));
        assert(memory.hardware_registers@ =~= zeros(MemoryRegionType::HardwareRegisters.size()));
        assert(memory.bios.data@ =~= Seq::empty());
        assert(memory.io_ports@ =~= zeros(MemoryRegionType::IOPorts.size()));
        assert(memory.ram_size@ =~= zeros(MemoryRegionType::RAMSize.size()));
        assert(memory.cache_control@ =~= zeros(MemoryRegionType::CacheControl.size()));
        memory
    }

    /// Whether the bus is ready to run a program: every buffer at the size
    /// of its device and a complete BIOS image installed.
    pub fn is_ready(&self) -> (ready: bool)
        ensures
            ready == (self.wf() && self@.has_bios()),
    {
        self.ram.len() == 0x20_0000 && self.expansion_region_1.len() == 0x80_0000
            && self.scratchpad.len() == 0x400 && self.hardware_registers.len() == 0x2000
            && self.io_ports.len() == 0x200 && self.ram_size.len() == 0x4
            && self.cache_control.len() == 0x4 && self.bios.data.len() == BIOS_SIZE
    }

    /// Loads the word at `address`.
    pub fn load32(&self, address: u32) -> (loaded: Result<u32, GenericError>)
        requires
            self.wf(),
            self@.readable(address),
        ensures
            loaded == self@.load32(address),
    {
        if address % 4 != 0 {
            return Err(GenericError { kind: ErrorKind::UnalignedLoad { address } });
        }
        proof {
            lemma_mapping_bounds(address);
        }
        match resolve(address) {
            Some((kind, offset)) => Ok(
                match kind {
                    MemoryRegionType::RAM => Memory::load_generic(&self.ram, offset),
                    MemoryRegionType::ExpansionRegion => Memory::load_generic(
                        &self.expansion_region_1,
                        offset,
                    ),
                    MemoryRegionType::Scratchpad => Memory::load_generic(&self.scratchpad, offset),
                    MemoryRegionType::HardwareRegisters => Memory::load_generic(
                        &self.hardware_registers,
                        offset,
                    ),
                    MemoryRegionType::BIOS => self.bios.load32(offset),
                    MemoryRegionType::IOPorts => Memory::load_generic(&self.io_ports, offset),
                    MemoryRegionType::MemlControl => Memlcontrol::read_32(offset),
                    MemoryRegionType::RAMSize => Memory::load_generic(&self.ram_size, offset),
                    MemoryRegionType::CacheControl => Memory::load_generic(
                        &self.cache_control,
                        offset,
                    ),
                },
            ),
            None => Err(GenericError { kind: ErrorKind::UnmappedLoad { address } }),
        }
    }

    /// Stores `word` at `address`.
    pub fn store32(&mut self, address: u32, word: u32) -> (stored: Result<(), GenericError>)
        requires
            old(self).wf(),
        ensures
            (final(self)@, stored) == old(self)@.store32(address, word),
            final(self).wf(),
    {
        if address % 4 != 0 {
            return Err(GenericError { kind: ErrorKind::UnalignedStore { address } });
        }
        proof {
            lemma_mapping_bounds(address);
        }
        match resolve(address) {
            Some((kind, offset)) => {
                match kind {
                    MemoryRegionType::RAM => Memory::store_generic(&mut self.ram, offset, word),
                    MemoryRegionType::ExpansionRegion => Memory::store_generic(
                        &mut self.expansion_region_1,
                        offset,
                        word,
                    ),
                    MemoryRegionType::Scratchpad => Memory::store_generic(
                        &mut self.scratchpad,
                        offset,
                        word,
                    ),
                    MemoryRegionType::HardwareRegisters => Memory::store_generic(
                        &mut self.hardware_registers,
                        offset,
                        word,
                    ),
                    MemoryRegionType::BIOS => (),  // BIOS is read-only
                    MemoryRegionType::IOPorts => Memory::store_generic(
                        &mut self.io_ports,
                        offset,
                        word,
                    ),
                    MemoryRegionType::MemlControl => if let Some(outcome) = Memlcontrol::store_32(
                        offset,
                        word,
                    ) {
                        return outcome;
                    },
                    MemoryRegionType::RAMSize => Memory::store_generic(
                        &mut self.ram_size,
                        offset,
                        word,
                    ),
                    MemoryRegionType::CacheControl => Memory::store_generic(
                        &mut self.cache_control,
                        offset,
                        word,
                    ),
                }
                Ok(())
            },
            None => Err(GenericError { kind: ErrorKind::UnmappedStore { address } }),
        }
    }

    /// Installs a BIOS image.
    pub fn load_bios(&mut self, bios: Bios)
        ensures
            final(self)@ == old(self)@.with_bank(MemoryRegionType::BIOS, bios.data@),
            final(self).bios == bios,
    {
        self.bios = bios;
    }

    /// The little-endian word at `offset` of a buffer.
    pub fn load_generic(data: &Vec<u8>, offset: u32) -> (word: u32)
        requires
            offset + 4 <= data@.len(),
        ensures
            word == word_at(data@, offset as int),
    {
        assert(data@.len() == data.len());
        let offset = offset as usize;
        let b0 = data[offset] as u32;
        let b1 = data[offset + 1] as u32;
        let b2 = data[offset + 2] as u32;
        let b3 = data[offset + 3] as u32;
        proof {
            lemma_word_by_shifts(b0, b1, b2, b3);
        }
        b0 | (b1 << 8) | (b2 << 16) | (b3 << 24)
    }

    /// Writes a little-endian word at `offset` of a buffer.
    pub fn store_generic(data: &mut Vec<u8>, offset: u32, word: u32)
        requires
            offset + 4 <= old(data)@.len(),
        ensures
            final(data)@ == write_word(old(data)@, offset as int, word),
    {
        assert(data@.len() == data.len());
        let address = offset as usize;
        proof {
            lemma_bytes_by_masks(word);
        }
        let b0 = (word & 0xff) as u8;
        let b1 = ((word & 0xff00) >> 8) as u8;
        let b2 = ((word & 0xff0000) >> 16) as u8;
        let b3 = ((word & 0xff000000) >> 24) as u8;

        data[address] = b0;
        data[address + 1] = b1;
        data[address + 2] = b2;
        data[address + 3] = b3;
    }
}

/// A word that was stored to a writable device is the word that a load from
/// the same address returns.
pub proof fn lemma_store_then_load(memory: MemoryView, address: u32, word: u32)
    requires
        memory.wf(),
        address % 4 == 0,
        mapping(address) matches Some((kind, _)) && MemoryView::writable(kind),
    ensures
        ({
            let (after, stored) = memory.store32(address, word);
            stored == Ok::<(), GenericError>(()) && after.wf() && after.load32(address) == Ok::<
                u32,
                GenericError,
            >(word)
        }),
{
    lemma_mapping_bounds(address);
    let (kind, offset) = mapping(address)->0;
    lemma_write_then_read(memory.bank(kind), offset as int, word);
}

/// A word that was stored through one segment is the word that a load
/// through any address with the same mapping returns, and a load from any
/// other aligned address returns what it returned before the store.
pub proof fn lemma_store_reaches_its_word_only(
    memory: MemoryView,
    address: u32,
    word: u32,
    other: u32,
)
    requires
        memory.wf(),
        address % 4 == 0,
        other % 4 == 0,
        mapping(address) matches Some((kind, _)) && MemoryView::writable(kind),
    ensures
        ({
            let (after, _) = memory.store32(address, word);
            if mapping(other) == mapping(address) {
                after.load32(other) == Ok::<u32, GenericError>(word)
            } else {
                after.load32(other) == memory.load32(other)
            }
        }),
{
    lemma_mapping_bounds(address);
    lemma_mapping_bounds(other);
    let (kind, offset) = mapping(address)->0;
    lemma_write_then_read(memory.bank(kind), offset as int, word);
    if let Some((other_kind, other_offset)) = mapping(other) {
        if other_kind == kind && other_offset != offset {
            lemma_write_keeps_others(memory.bank(kind), offset as int, word, other_offset as int);
        }
    }
}

/// An access to an address that is no multiple of four fails with the
/// alignment error of its direction, and a store leaves the bus as it was.
pub proof fn lemma_unaligned_access_fails(memory: MemoryView, address: u32, word: u32)
    requires
        address % 4 != 0,
    ensures
        memory.load32(address) == Err::<u32, GenericError>(
            GenericError { kind: ErrorKind::UnalignedLoad { address } },
        ),
        memory.store32(address, word) == (
            memory,
            Err::<(), GenericError>(GenericError { kind: ErrorKind::UnalignedStore { address } }),
        ),
{
}

/// A store to an address of the BIOS succeeds and changes nothing: a load
/// from the address still returns the word of the image.
pub proof fn lemma_bios_store_is_ignored(memory: MemoryView, address: u32, word: u32)
    requires
        address % 4 == 0,
        mapping(address) matches Some((kind, _)) && kind == MemoryRegionType::BIOS,
    ensures
        memory.store32(address, word) == (memory, Ok::<(), GenericError>(())),
        ({
            let (after, _) = memory.store32(address, word);
            let (_, offset) = mapping(address)->0;
            after.load32(address) == memory.load32(address) && memory.load32(address) == Ok::<
                u32,
                GenericError,
            >(word_at(memory.bios, offset as int))
        }),
{
}

/// With a complete BIOS image installed a word can be loaded from every
/// address.
pub proof fn lemma_bios_makes_readable(memory: MemoryView, address: u32)
    requires
        memory.has_bios(),
    ensures
        memory.readable(address),
{
    lemma_mapping_bounds(address);
}

/// A store changes no more than the bytes of one device, keeps every
/// buffer at its size, and never touches the BIOS image.
pub proof fn lemma_store_keeps_shape(memory: MemoryView, address: u32, word: u32)
    requires
        memory.wf(),
    ensures
        ({
            let (after, stored) = memory.store32(address, word);
            &&& after.wf()
            &&& after.bios == memory.bios
            &&& stored is Err ==> after == memory
        }),
{
    lemma_mapping_bounds(address);
    if address % 4 == 0 {
        if let Some((kind, offset)) = mapping(address) {
            if MemoryView::writable(kind) {
                lemma_write_then_read(memory.bank(kind), offset as int, word);
            }
        }
    }
}

} // verus!
