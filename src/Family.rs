//! Memory maps of the supported HPMicro device families.
//!
//! The flash regions start with a length of zero: the size of the attached
//! flash is set on the builder.
use vstd::prelude::*;

use crate::device::{Device, Memory, MemoryType};

verus! {

/// Memory map of the HPM6700/6400 series.
pub open spec fn hpm6700_6400() -> Device {
    Device {
        ilm: Some(Memory { mem_type: MemoryType::Ilm, base: 0x0000_0000, size: 0x4_0000 }),
        dlm: Some(Memory { mem_type: MemoryType::Dlm, base: 0x0008_0000, size: 0x4_0000 }),
        axi_sram_0: Some(
            Memory { mem_type: MemoryType::AxiSram0, base: 0x0108_0000, size: 0x8_0000 },
        ),
        axi_sram_1: Some(
            Memory { mem_type: MemoryType::AxiSram1, base: 0x0110_0000, size: 0x8_0000 },
        ),
        ahb_sram: Some(
            Memory { mem_type: MemoryType::AhbSram, base: 0xF030_0000, size: 0x8000 },
        ),
        apb_sram: Some(Memory { mem_type: MemoryType::ApbSram, base: 0xF40F_0000, size: 0x2000 }),
        xpi0: Some(Memory { mem_type: MemoryType::Xpi0, base: 0x8000_0000, size: 0 }),
        xpi1: Some(Memory { mem_type: MemoryType::Xpi1, base: 0x9000_0000, size: 0 }),
    }
}

/// Memory map of the HPM6300 series, which has no AXI SRAM 1 and no APB SRAM.
pub open spec fn hpm6300() -> Device {
    Device {
        ilm: Some(Memory { mem_type: MemoryType::Ilm, base: 0x0000_0000, size: 0x2_0000 }),
        dlm: Some(Memory { mem_type: MemoryType::Dlm, base: 0x0008_0000, size: 0x2_0000 }),
        axi_sram_0: Some(
            Memory { mem_type: MemoryType::AxiSram0, base: 0x0108_0000, size: 0x8_0000 },
        ),
        axi_sram_1: None,
        ahb_sram: Some(
            Memory { mem_type: MemoryType::AhbSram, base: 0xF030_0000, size: 0x8000 },
        ),
        apb_sram: None,
        xpi0: Some(Memory { mem_type: MemoryType::Xpi0, base: 0x8000_0000, size: 0 }),
        xpi1: Some(Memory { mem_type: MemoryType::Xpi1, base: 0x9000_0000, size: 0 }),
    }
}

/// The HPM6700/6400 series.
pub fn HPM6700_6400() -> (d: Device)
    ensures
        d == hpm6700_6400(),
{
    Device {
        ilm: Some(Memory { mem_type: MemoryType::Ilm, base: 0x0000_0000, size: 0x4_0000 }),
        dlm: Some(Memory { mem_type: MemoryType::Dlm, base: 0x0008_0000, size: 0x4_0000 }),
        axi_sram_0: Some(
            Memory { mem_type: MemoryType::AxiSram0, base: 0x0108_0000, size: 0x8_0000 },
        ),
        axi_sram_1: Some(
            Memory { mem_type: MemoryType::AxiSram1, base: 0x0110_0000, size: 0x8_0000 },
        ),
        ahb_sram: Some(
            Memory { mem_type: MemoryType::AhbSram, base: 0xF030_0000, size: 0x8000 },
        ),
        apb_sram: Some(Memory { mem_type: MemoryType::ApbSram, base: 0xF40F_0000, size: 0x2000 }),
        xpi0: Some(Memory { mem_type: MemoryType::Xpi0, base: 0x8000_0000, size: 0 }),
        xpi1: Some(Memory { mem_type: MemoryType::Xpi1, base: 0x9000_0000, size: 0 }),
    }
}

/// The HPM6300 series.
pub fn HPM6300() -> (d: Device)
    ensures
        d == hpm6300(),
{
    Device {
        ilm: Some(Memory { mem_type: MemoryType::Ilm, base: 0x0000_0000, size: 0x2_0000 }),
        dlm: Some(Memory { mem_type: MemoryType::Dlm, base: 0x0008_0000, size: 0x2_0000 }),
        axi_sram_0: Some(
            Memory { mem_type: MemoryType::AxiSram0, base: 0x0108_0000, size: 0x8_0000 },
        ),
        axi_sram_1: None,
        ahb_sram: Some(
            Memory { mem_type: MemoryType::AhbSram, base: 0xF030_0000, size: 0x8000 },
        ),
        apb_sram: None,
        xpi0: Some(Memory { mem_type: MemoryType::Xpi0, base: 0x8000_0000, size: 0 }),
        xpi1: Some(Memory { mem_type: MemoryType::Xpi1, base: 0x9000_0000, size: 0 }),
    }
}

/// Every region of a catalog device is tagged with the memory class it is
/// stored under, and the HPM6300 lacks exactly AXI SRAM 1 and APB SRAM.
pub proof fn lemma_catalog_regions(k: MemoryType)
    ensures
        hpm6700_6400().has(k),
        hpm6700_6400().region(k)->Some_0.mem_type == k,
        hpm6300().has(k) <==> (k != MemoryType::AxiSram1 && k != MemoryType::ApbSram),
        hpm6300().has(k) ==> hpm6300().region(k)->Some_0.mem_type == k,
{
}

} // verus!
