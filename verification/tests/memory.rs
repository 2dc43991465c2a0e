use rust_station::bios::{Bios, BIOS_SIZE};
use rust_station::generic_error::{ErrorKind, GenericError};
use rust_station::memlcontrol::{Memlcontrol, EXPANSION_1_BASE, EXPANSION_2_BASE};
use rust_station::memory::Memory;
use rust_station::memory_region::{regions, resolve, MemoryRegion, MemoryRegionType};

fn image_with(words: &[(usize, u32)]) -> Bios {
    let mut data = vec![0u8; BIOS_SIZE];
    for &(offset, word) in words {
        data[offset..offset + 4].copy_from_slice(&word.to_le_bytes());
    }
    Bios::new(data).unwrap()
}

fn bus() -> Memory {
    let mut memory = Memory::new();
    memory.load_bios(image_with(&[(0, 0x3C08_0013), (4, 0x3508_243F), (BIOS_SIZE - 4, 0xCAFE_F00D)]));
    memory
}

fn err(kind: ErrorKind) -> GenericError {
    GenericError { kind }
}

#[test]
fn region_contains_is_half_open() {
    let region = MemoryRegion { base: 0x1f80_1000, length: 0x24, kind: MemoryRegionType::MemlControl };
    assert_eq!(region.contains(0x1f80_0fff), None);
    assert_eq!(region.contains(0x1f80_1000), Some(0));
    assert_eq!(region.contains(0x1f80_1023), Some(0x23));
    assert_eq!(region.contains(0x1f80_1024), None);
}

#[test]
fn region_contains_at_the_top_of_the_address_space() {
    let region = MemoryRegion { base: 0xffff_fff0, length: 0x10, kind: MemoryRegionType::IOPorts };
    assert_eq!(region.contains(0xffff_ffef), None);
    assert_eq!(region.contains(0xffff_fff0), Some(0));
    assert_eq!(region.contains(0xffff_ffff), Some(0xf));
    let empty = MemoryRegion { base: 0x100, length: 0, kind: MemoryRegionType::RAM };
    assert_eq!(empty.contains(0x100), None);
}

#[test]
fn region_table_has_nineteen_entries_with_the_registers_first() {
    let table = regions();
    assert_eq!(table.len(), 19);
    let place = |kind: MemoryRegionType| table.iter().position(|r| r.kind == kind).unwrap();
    assert!(place(MemoryRegionType::MemlControl) < place(MemoryRegionType::HardwareRegisters));
    assert!(place(MemoryRegionType::RAMSize) < place(MemoryRegionType::HardwareRegisters));
    assert!(place(MemoryRegionType::CacheControl) < place(MemoryRegionType::IOPorts));
    for kind in [
        MemoryRegionType::RAM,
        MemoryRegionType::ExpansionRegion,
        MemoryRegionType::Scratchpad,
        MemoryRegionType::HardwareRegisters,
        MemoryRegionType::BIOS,
    ] {
        assert_eq!(table.iter().filter(|r| r.kind == kind).count(), 3);
    }
}

#[test]
fn resolve_each_kind_at_its_bounds() {
    let cases = [
        (0x0000_0000u32, MemoryRegionType::RAM, 0u32),
        (0x001f_fffc, MemoryRegionType::RAM, 0x1f_fffc),
        (0x8000_0100, MemoryRegionType::RAM, 0x100),
        (0xa01f_ffff, MemoryRegionType::RAM, 0x1f_ffff),
        (0x1f00_0000, MemoryRegionType::ExpansionRegion, 0),
        (0x9f7f_fffc, MemoryRegionType::ExpansionRegion, 0x7f_fffc),
        (0xbf00_0004, MemoryRegionType::ExpansionRegion, 4),
        (0x1f80_0000, MemoryRegionType::Scratchpad, 0),
        (0x9f80_03fc, MemoryRegionType::Scratchpad, 0x3fc),
        (0xbf80_0200, MemoryRegionType::Scratchpad, 0x200),
        (0x1f80_1000, MemoryRegionType::MemlControl, 0),
        (0x1f80_1020, MemoryRegionType::MemlControl, 0x20),
        (0x1f80_1024, MemoryRegionType::HardwareRegisters, 0x24),
        (0x1f80_1060, MemoryRegionType::RAMSize, 0),
        (0x1f80_1064, MemoryRegionType::HardwareRegisters, 0x64),
        (0x1f80_2ffc, MemoryRegionType::HardwareRegisters, 0x1ffc),
        (0x9f80_1000, MemoryRegionType::HardwareRegisters, 0),
        (0xbf80_1060, MemoryRegionType::HardwareRegisters, 0x60),
        (0x1fc0_0000, MemoryRegionType::BIOS, 0),
        (0x9fc7_fffc, MemoryRegionType::BIOS, 0x7_fffc),
        (0xbfc0_0000, MemoryRegionType::BIOS, 0),
        (0xfffe_0000, MemoryRegionType::IOPorts, 0),
        (0xfffe_012c, MemoryRegionType::IOPorts, 0x12c),
        (0xfffe_0130, MemoryRegionType::CacheControl, 0),
        (0xfffe_0134, MemoryRegionType::IOPorts, 0x134),
        (0xfffe_01fc, MemoryRegionType::IOPorts, 0x1fc),
    ];
    for (address, kind, offset) in cases {
        assert_eq!(resolve(address), Some((kind, offset)), "address {:#x}", address);
    }
}

#[test]
fn resolve_unmapped_addresses() {
    for address in [
        0x0020_0000u32, 0x1f80_0400, 0x1f80_3000, 0x1fc8_0000, 0x2000_0000, 0x7fff_fffc,
        0xc000_0000, 0xfffe_0200, 0xffff_fffc,
    ] {
        assert_eq!(resolve(address), None, "address {:#x}", address);
    }
}

#[test]
fn resolve_is_the_first_claim_in_table_order() {
    let table = regions();
    let mut address: u32 = 0;
    for _ in 0..100_000 {
        let expected = table
            .iter()
            .find_map(|region| region.contains(address).map(|offset| (region.kind, offset)));
        assert_eq!(resolve(address), expected);
        address = address.wrapping_add(0x0001_0F2C);
    }
}

#[test]
fn claims_overlap_only_at_the_three_registers() {
    let table = regions();
    let mut address: u32 = 0x1f80_0000;
    // every address of the window that holds the registers, and a sweep of the rest
    let mut probes: Vec<u32> = (0x1f80_0f00u32..0x1f80_1200).collect();
    probes.extend(0xfffe_0000u32..0xfffe_0200);
    for _ in 0..50_000 {
        probes.push(address);
        address = address.wrapping_add(0x0003_7FF1);
    }
    for address in probes {
        let claimants: Vec<MemoryRegionType> = table
            .iter()
            .filter(|region| region.contains(address).is_some())
            .map(|region| region.kind)
            .collect();
        match claimants.as_slice() {
            [] | [_] => {}
            [first, second] => {
                let pair = (*first, *second);
                assert!(
                    pair == (MemoryRegionType::MemlControl, MemoryRegionType::HardwareRegisters)
                        || pair == (MemoryRegionType::RAMSize, MemoryRegionType::HardwareRegisters)
                        || pair == (MemoryRegionType::CacheControl, MemoryRegionType::IOPorts),
                    "address {:#x}",
                    address
                );
            }
            _ => panic!("more than two regions claim {:#x}", address),
        }
    }
}

#[test]
fn new_bus_is_zeroed_at_its_sizes() {
    let memory = Memory::new();
    assert_eq!(memory.ram.len(), 2048 * 1024);
    assert_eq!(memory.expansion_region_1.len(), 8192 * 1024);
    assert_eq!(memory.scratchpad.len(), 1024);
    assert_eq!(memory.hardware_registers.len(), 8 * 1024);
    assert_eq!(memory.io_ports.len(), 512);
    assert_eq!(memory.ram_size.len(), 4);
    assert_eq!(memory.cache_control.len(), 4);
    assert_eq!(memory.bios.data.len(), 0);
    assert!(memory.ram.iter().all(|&b| b == 0));
    assert!(memory.scratchpad.iter().all(|&b| b == 0));
    assert!(memory.io_ports.iter().all(|&b| b == 0));
}

#[test]
fn bios_of_the_right_size_is_taken() {
    let bios = Bios::new(vec![0xAB; BIOS_SIZE]).unwrap();
    assert_eq!(bios.data.len(), 524_288);
    assert!(bios.data.iter().all(|&b| b == 0xAB));
}

#[test]
fn bios_of_another_size_is_refused() {
    for size in [0usize, 1, BIOS_SIZE - 1, BIOS_SIZE + 1, 2 * BIOS_SIZE] {
        let refused = Bios::new(vec![0; size]);
        assert_eq!(refused.err().map(|e| e.kind), Some(ErrorKind::InvalidBiosSize));
    }
}

#[test]
fn default_bios_holds_no_bytes() {
    assert!(Bios::default().data.is_empty());
}

#[test]
fn bios_words_are_little_endian() {
    let mut data = vec![0u8; BIOS_SIZE];
    data[8..12].copy_from_slice(&[0x78, 0x56, 0x34, 0x12]);
    let bios = Bios::new(data).unwrap();
    assert_eq!(bios.load32(8), 0x1234_5678);
    assert_eq!(bios.load32(0), 0);
    assert_eq!(bios.load32(6), 0x5678_0000);
    assert_eq!(bios.load32(10), 0x0000_1234);
}

#[test]
fn generic_load_and_store_are_little_endian() {
    let mut data = vec![0u8; 16];
    Memory::store_generic(&mut data, 4, 0x0000_0100);
    assert_eq!(&data[4..8], &[0x00, 0x01, 0x00, 0x00]);
    Memory::store_generic(&mut data, 8, 0xDEAD_BEEF);
    assert_eq!(&data[8..12], &[0xEF, 0xBE, 0xAD, 0xDE]);
    assert_eq!(Memory::load_generic(&data, 4), 0x0000_0100);
    assert_eq!(Memory::load_generic(&data, 8), 0xDEAD_BEEF);
    // a word that straddles two stored words
    assert_eq!(Memory::load_generic(&data, 6), 0xBEEF_0000);
    assert_eq!(&data[0..4], &[0, 0, 0, 0]);
    assert_eq!(&data[12..16], &[0, 0, 0, 0]);
}

#[test]
fn generic_store_then_load_returns_the_word() {
    let mut data = vec![0x55u8; 64];
    let mut word: u32 = 1;
    for offset in (0..61).step_by(3) {
        Memory::store_generic(&mut data, offset, word);
        assert_eq!(Memory::load_generic(&data, offset), word);
        word = word.wrapping_mul(0x9E37_79B1).wrapping_add(7);
    }
}

#[test]
fn store_then_load_in_each_writable_region() {
    let mut memory = bus();
    let addresses = [
        0x0000_0000u32, 0x0000_0100, 0x001f_fffc, 0x8000_0004, 0xa000_0008, 0x1f00_0000,
        0x9f7f_fffc, 0xbf00_1000, 0x1f80_0000, 0x9f80_03fc, 0xbf80_0010, 0x1f80_1024,
        0x1f80_1060, 0x1f80_2ffc, 0x9f80_1000, 0xbf80_1ffc, 0xfffe_0000, 0xfffe_0130,
        0xfffe_01fc,
    ];
    let mut word: u32 = 0x0123_4567;
    for address in addresses {
        assert_eq!(memory.store32(address, word), Ok(()), "address {:#x}", address);
        assert_eq!(memory.load32(address), Ok(word), "address {:#x}", address);
        word = word.wrapping_mul(0x9E37_79B1).wrapping_add(0x1234_5);
    }
}

#[test]
fn store_lands_in_the_bytes_of_its_device() {
    let mut memory = bus();
    assert_eq!(memory.store32(0x0000_0100, 0x1122_3344), Ok(()));
    assert_eq!(&memory.ram[0x100..0x104], &[0x44, 0x33, 0x22, 0x11]);
    assert_eq!(memory.store32(0x1f80_0008, 0xA1B2_C3D4), Ok(()));
    assert_eq!(&memory.scratchpad[8..12], &[0xD4, 0xC3, 0xB2, 0xA1]);
    assert_eq!(memory.store32(0x1f80_1060, 0x0000_0B88), Ok(()));
    assert_eq!(&memory.ram_size[..], &[0x88, 0x0B, 0x00, 0x00]);
    assert_eq!(memory.store32(0xfffe_0130, 0x0001_E988), Ok(()));
    assert_eq!(&memory.cache_control[..], &[0x88, 0xE9, 0x01, 0x00]);
    assert_eq!(memory.store32(0x1f80_1810, 0x0000_0007), Ok(()));
    assert_eq!(&memory.hardware_registers[0x810..0x814], &[7, 0, 0, 0]);
    assert_eq!(memory.store32(0xfffe_0004, 0x0000_0009), Ok(()));
    assert_eq!(&memory.io_ports[4..8], &[9, 0, 0, 0]);
    assert_eq!(memory.store32(0x1f00_0010, 0x0000_000A), Ok(()));
    assert_eq!(&memory.expansion_region_1[0x10..0x14], &[0x0A, 0, 0, 0]);
}

#[test]
fn mirrors_share_one_backing_store() {
    let mut memory = bus();
    assert_eq!(memory.store32(0x0000_0040, 0xAABB_CCDD), Ok(()));
    assert_eq!(memory.load32(0x8000_0040), Ok(0xAABB_CCDD));
    assert_eq!(memory.load32(0xa000_0040), Ok(0xAABB_CCDD));
    assert_eq!(memory.store32(0xbf80_0020, 0x0BAD_C0DE), Ok(()));
    assert_eq!(memory.load32(0x1f80_0020), Ok(0x0BAD_C0DE));
    assert_eq!(memory.load32(0x9f80_0020), Ok(0x0BAD_C0DE));
    assert_eq!(memory.store32(0x9f00_0100, 0x600D_F00D), Ok(()));
    assert_eq!(memory.load32(0x1f00_0100), Ok(0x600D_F00D));
    assert_eq!(memory.store32(0xbf80_1100, 0x0000_1234), Ok(()));
    assert_eq!(memory.load32(0x1f80_1100), Ok(0x0000_1234));
}

#[test]
fn store_leaves_other_words_alone() {
    let mut memory = bus();
    assert_eq!(memory.store32(0x0000_0100, 0x1111_1111), Ok(()));
    assert_eq!(memory.store32(0x0000_0104, 0x2222_2222), Ok(()));
    assert_eq!(memory.store32(0x0000_00fc, 0x3333_3333), Ok(()));
    assert_eq!(memory.load32(0x0000_0100), Ok(0x1111_1111));
    assert_eq!(memory.load32(0x0000_0104), Ok(0x2222_2222));
    assert_eq!(memory.load32(0x0000_00fc), Ok(0x3333_3333));
    assert_eq!(memory.load32(0x0000_0108), Ok(0));
    assert_eq!(memory.load32(0x1f80_0100), Ok(0));
}

#[test]
fn unaligned_load_fails_with_the_address() {
    let memory = bus();
    for address in [0xBFC0_0001u32, 0xBFC0_0002, 0xBFC0_0003, 0x0000_0101, 0x0020_0001, 0xffff_ffff] {
        assert_eq!(memory.load32(address), Err(err(ErrorKind::UnalignedLoad { address })));
    }
}

#[test]
fn unaligned_store_fails_and_changes_nothing() {
    let mut memory = bus();
    memory.store32(0x100, 0x0102_0304).unwrap();
    let ram = memory.ram.clone();
    for address in [0x0000_0101u32, 0x0000_0102, 0x0000_0103, 0x1f80_1001, 0xBFC0_0001, 0x0020_0003] {
        assert_eq!(
            memory.store32(address, 0xFFFF_FFFF),
            Err(err(ErrorKind::UnalignedStore { address }))
        );
    }
    assert_eq!(memory.ram, ram);
    assert_eq!(memory.load32(0x100), Ok(0x0102_0304));
    assert!(memory.hardware_registers.iter().all(|&b| b == 0));
}

#[test]
fn unaligned_load32_rejected() {
    let memory = bus();
    let failed = memory.load32(0xBFC0_0001);
    assert_eq!(failed, Err(err(ErrorKind::UnalignedLoad { address: 0xBFC0_0001 })));
    assert_eq!(
        failed.unwrap_err().message(),
        "LOAD32_UNALIGNED_WORD_BOUNDARY (from 0xbfc00001)"
    );
}

#[test]
fn unmapped_access_fails() {
    let mut memory = bus();
    for address in [0x0020_0000u32, 0x2000_0000, 0x1fc8_0000, 0xfffe_0200] {
        assert_eq!(memory.load32(address), Err(err(ErrorKind::UnmappedLoad { address })));
        assert_eq!(memory.store32(address, 1), Err(err(ErrorKind::UnmappedStore { address })));
    }
}

#[test]
fn alignment_is_checked_before_the_mapping() {
    let mut memory = bus();
    assert_eq!(
        memory.load32(0x2000_0002),
        Err(err(ErrorKind::UnalignedLoad { address: 0x2000_0002 }))
    );
    assert_eq!(
        memory.store32(0x2000_0002, 0),
        Err(err(ErrorKind::UnalignedStore { address: 0x2000_0002 }))
    );
}

#[test]
fn bios_is_read_through_every_segment() {
    let memory = bus();
    for base in [0x1fc0_0000u32, 0x9fc0_0000, 0xbfc0_0000] {
        assert_eq!(memory.load32(base), Ok(0x3C08_0013));
        assert_eq!(memory.load32(base + 4), Ok(0x3508_243F));
        assert_eq!(memory.load32(base + 8), Ok(0));
        assert_eq!(memory.load32(base + 0x7_fffc), Ok(0xCAFE_F00D));
    }
}

#[test]
fn store_to_the_bios_is_ignored() {
    let mut memory = bus();
    let image = memory.bios.data.clone();
    for address in [0x1fc0_0000u32, 0x9fc0_0004, 0xbfc0_0000, 0xbfc7_fffc] {
        let before = memory.load32(address);
        assert_eq!(memory.store32(address, 0xFFFF_FFFF), Ok(()));
        assert_eq!(memory.load32(address), before);
        // doing it again changes nothing either
        assert_eq!(memory.store32(address, 0x1234_5678), Ok(()));
        assert_eq!(memory.load32(address), before);
    }
    assert_eq!(memory.bios.data, image);
    assert_eq!(memory.load32(0xbfc0_0000), Ok(0x3C08_0013));
}

#[test]
fn memlcontrol_accepts_the_canonical_bases_only() {
    assert_eq!(Memlcontrol::store_32(0, 0x1f00_0000), None);
    assert_eq!(Memlcontrol::store_32(4, 0x1f80_2000), None);
    assert_eq!(
        Memlcontrol::store_32(0, 0x1f80_2000),
        Some(Err(err(ErrorKind::BadExpansion1Base { word: 0x1f80_2000 })))
    );
    assert_eq!(
        Memlcontrol::store_32(4, 0x1f00_0000),
        Some(Err(err(ErrorKind::BadExpansion2Base { word: 0x1f00_0000 })))
    );
    for offset in [1u32, 8, 0x10, 0x20, 0x24, 0xffff_ffff] {
        assert_eq!(
            Memlcontrol::store_32(offset, 0x1f00_0000),
            Some(Err(err(ErrorKind::UnhandledMemlcontrolWrite { offset, word: 0x1f00_0000 })))
        );
    }
}

#[test]
fn memlcontrol_reads_its_constants() {
    assert_eq!(EXPANSION_1_BASE, 0x1f00_0000);
    assert_eq!(EXPANSION_2_BASE, 0x1f80_2000);
    assert_eq!(Memlcontrol::read_32(0), 0x1f00_0000);
    assert_eq!(Memlcontrol::read_32(4), 0x1f80_2000);
    for offset in [1u32, 8, 0x20, 0xffff_ffff] {
        assert_eq!(Memlcontrol::read_32(offset), 0);
    }
}

#[test]
fn memlcontrol_on_the_bus() {
    let mut memory = bus();
    assert_eq!(memory.load32(0x1f80_1000), Ok(0x1f00_0000));
    assert_eq!(memory.load32(0x1f80_1004), Ok(0x1f80_2000));
    assert_eq!(memory.load32(0x1f80_1008), Ok(0));
    assert_eq!(memory.load32(0x1f80_1020), Ok(0));
    assert_eq!(memory.store32(0x1f80_1000, 0x1f00_0000), Ok(()));
    assert_eq!(memory.store32(0x1f80_1004, 0x1f80_2000), Ok(()));
    assert_eq!(
        memory.store32(0x1f80_1000, 0x1f00_0004),
        Err(err(ErrorKind::BadExpansion1Base { word: 0x1f00_0004 }))
    );
    assert_eq!(
        memory.store32(0x1f80_1004, 0),
        Err(err(ErrorKind::BadExpansion2Base { word: 0 }))
    );
    assert_eq!(
        memory.store32(0x1f80_1010, 0x0013_243f),
        Err(err(ErrorKind::UnhandledMemlcontrolWrite { offset: 0x10, word: 0x0013_243f }))
    );
    // nothing was kept
    assert!(memory.hardware_registers.iter().all(|&b| b == 0));
    assert_eq!(memory.load32(0x1f80_1000), Ok(0x1f00_0000));
    // the mirrors of the window are plain hardware registers
    assert_eq!(memory.store32(0x9f80_1000, 0xDEAD_0000), Ok(()));
    assert_eq!(memory.load32(0x9f80_1000), Ok(0xDEAD_0000));
    assert_eq!(memory.load32(0x1f80_1000), Ok(0x1f00_0000));
}

#[test]
fn load_bios_replaces_the_image_only() {
    let mut memory = Memory::new();
    memory.store32(0x40, 0x5555_AAAA).unwrap();
    memory.load_bios(image_with(&[(0, 0x1111_1111)]));
    assert_eq!(memory.load32(0xbfc0_0000), Ok(0x1111_1111));
    assert_eq!(memory.load32(0x40), Ok(0x5555_AAAA));
    memory.load_bios(image_with(&[(0, 0x2222_2222)]));
    assert_eq!(memory.load32(0xbfc0_0000), Ok(0x2222_2222));
    assert_eq!(memory.load32(0x40), Ok(0x5555_AAAA));
}

#[test]
fn bus_without_an_image_serves_every_other_device() {
    let mut memory = Memory::new();
    assert_eq!(memory.store32(0x0000_0010, 0x600D_CAFE), Ok(()));
    assert_eq!(memory.load32(0x0000_0010), Ok(0x600D_CAFE));
    assert_eq!(memory.load32(0x1f80_1004), Ok(0x1f80_2000));
    assert_eq!(memory.store32(0xbfc0_0000, 1), Ok(()));
    assert_eq!(
        memory.load32(0xbfc0_0002),
        Err(err(ErrorKind::UnalignedLoad { address: 0xbfc0_0002 }))
    );
}

#[test]
fn bus_is_ready_with_an_image_and_every_buffer_at_its_size() {
    let mut memory = Memory::new();
    assert!(!memory.is_ready());
    memory.load_bios(image_with(&[]));
    assert!(memory.is_ready());
    memory.store32(0x100, 5).unwrap();
    assert!(memory.is_ready());
    memory.ram.pop();
    assert!(!memory.is_ready());
    memory.ram.push(0);
    assert!(memory.is_ready());
    memory.cache_control.push(0);
    assert!(!memory.is_ready());
    memory.cache_control.pop();
    memory.bios.data.pop();
    assert!(!memory.is_ready());
    memory.load_bios(Bios::default());
    assert!(!memory.is_ready());
}
