use hpm_rt::Family;
use hpm_rt::{Memory, MemoryType};

const KINDS: [MemoryType; 8] = [
    MemoryType::Ilm,
    MemoryType::Dlm,
    MemoryType::AxiSram0,
    MemoryType::AxiSram1,
    MemoryType::AhbSram,
    MemoryType::ApbSram,
    MemoryType::Xpi0,
    MemoryType::Xpi1,
];

#[test]
fn hpm6700_6400_has_every_documented_region() {
    let d = Family::HPM6700_6400();
    let expected: [(u32, u32); 8] = [
        (0x0000_0000, 256 * 1024),
        (0x0008_0000, 256 * 1024),
        (0x0108_0000, 512 * 1024),
        (0x0110_0000, 512 * 1024),
        (0xF030_0000, 32 * 1024),
        (0xF40F_0000, 8 * 1024),
        (0x8000_0000, 0),
        (0x9000_0000, 0),
    ];
    for (kind, (base, size)) in KINDS.iter().zip(expected.iter()) {
        assert_eq!(d.memory(*kind), Some(Memory::new(*kind, *base, *size)));
        assert!(d.has_memory(*kind));
    }
}

#[test]
fn hpm6300_lacks_axi_sram_1_and_apb_sram() {
    let d = Family::HPM6300();
    let expected: [Option<(u32, u32)>; 8] = [
        Some((0x0000_0000, 128 * 1024)),
        Some((0x0008_0000, 128 * 1024)),
        Some((0x0108_0000, 512 * 1024)),
        None,
        Some((0xF030_0000, 32 * 1024)),
        None,
        Some((0x8000_0000, 0)),
        Some((0x9000_0000, 0)),
    ];
    for (kind, e) in KINDS.iter().zip(expected.iter()) {
        assert_eq!(d.memory(*kind), e.map(|(b, s)| Memory::new(*kind, b, s)));
        assert_eq!(d.has_memory(*kind), e.is_some());
    }
}

#[test]
fn memory_accessors_return_fields() {
    let m = Memory::new(MemoryType::AhbSram, 0xF030_0000, 0x8000);
    assert_eq!(m.mem_type(), MemoryType::AhbSram);
    assert_eq!(m.base(), 0xF030_0000);
    assert_eq!(m.size(), 0x8000);
}

#[test]
fn memory_names() {
    let names = [
        "ILM",
        "DLM",
        "AXI_SRAM_0",
        "AXI_SRAM_1",
        "AHB_SRAM",
        "APB_SRAM",
        "XPI0",
        "XPI1",
    ];
    for (kind, name) in KINDS.iter().zip(names.iter()) {
        assert_eq!(kind.as_str(), *name);
    }
}
