//! Physical memories and the device model that holds them.
use vstd::prelude::*;

verus! {

/// A class of physical memory that a section can be placed in.
///
/// The order of the variants is the order in which memories are listed in
/// the generated memory table.
#[derive(Debug, Clone, Copy, PartialEq, Eq, Structural)]
pub enum MemoryType {
    /// Instruction local memory (ILM).
    Ilm,
    /// Data local memory (DLM).
    Dlm,
    /// AXI SRAM 0.
    AxiSram0,
    /// AXI SRAM 1.
    AxiSram1,
    /// AHB SRAM.
    AhbSram,
    /// APB SRAM.
    ApbSram,
    /// External flash accessed through the XPI0 bus.
    Xpi0,
    /// External flash accessed through the XPI1 bus.
    Xpi1,
}

/// The name under which a memory appears in the linker script.
pub open spec fn memory_name(m: MemoryType) -> Seq<char> {
    match m {
        MemoryType::Ilm => "ILM"@,
        MemoryType::Dlm => "DLM"@,
        MemoryType::AxiSram0 => "AXI_SRAM_0"@,
        MemoryType::AxiSram1 => "AXI_SRAM_1"@,
        MemoryType::AhbSram => "AHB_SRAM"@,
        MemoryType::ApbSram => "APB_SRAM"@,
        MemoryType::Xpi0 => "XPI0"@,
        MemoryType::Xpi1 => "XPI1"@,
    }
}

impl MemoryType {
    /// The name of this memory in the linker script (`ILM`, `AXI_SRAM_0`, ...).
    pub fn as_str(&self) -> (r: &'static str)
        ensures
            r@ == memory_name(*self),
    {
        match self {
            MemoryType::Ilm => "ILM",
            MemoryType::Dlm => "DLM",
            MemoryType::AxiSram0 => "AXI_SRAM_0",
            MemoryType::AxiSram1 => "AXI_SRAM_1",
            MemoryType::AhbSram => "AHB_SRAM",
            MemoryType::ApbSram => "APB_SRAM",
            MemoryType::Xpi0 => "XPI0",
            MemoryType::Xpi1 => "XPI1",
        }
    }
}

/// One contiguous range of physical memory.
#[derive(Debug, Clone, Copy, PartialEq, Eq, Structural)]
pub struct Memory {
    pub mem_type: MemoryType,
    pub base: u32,
    pub size: u32,
}

impl Memory {
    /// A memory of class `mem_type` starting at `base` and `size` bytes long.
    pub fn new(mem_type: MemoryType, base: u32, size: u32) -> (r: Memory)
        ensures
            r.mem_type == mem_type,
            r.base == base,
            r.size == size,
    {
        Memory { mem_type, base, size }
    }

    /// The class of this memory.
    pub fn mem_type(&self) -> (r: MemoryType)
        ensures
            r == self.mem_type,
    {
        self.mem_type
    }

    /// The start address.
    pub fn base(&self) -> (r: u32)
        ensures
            r == self.base,
    {
        self.base
    }

    /// The length in bytes.
    pub fn size(&self) -> (r: u32)
        ensures
            r == self.size,
    {
        self.size
    }
}

/// The memories of one device family; `None` where the family lacks one.
#[derive(Debug, Clone, Copy, PartialEq, Eq, Structural)]
pub struct Device {
    pub ilm: Option<Memory>,
    pub dlm: Option<Memory>,
    pub axi_sram_0: Option<Memory>,
    pub axi_sram_1: Option<Memory>,
    pub ahb_sram: Option<Memory>,
    pub apb_sram: Option<Memory>,
    pub xpi0: Option<Memory>,
    pub xpi1: Option<Memory>,
}

impl Device {
    /// The region that this device defines for memory class `kind`.
    pub open spec fn region(self, kind: MemoryType) -> Option<Memory> {
        match kind {
            MemoryType::Ilm => self.ilm,
            MemoryType::Dlm => self.dlm,
            MemoryType::AxiSram0 => self.axi_sram_0,
            MemoryType::AxiSram1 => self.axi_sram_1,
            MemoryType::AhbSram => self.ahb_sram,
            MemoryType::ApbSram => self.apb_sram,
            MemoryType::Xpi0 => self.xpi0,
            MemoryType::Xpi1 => self.xpi1,
        }
    }

    /// Whether the device has a memory of class `kind`.
    pub open spec fn has(self, kind: MemoryType) -> bool {
        self.region(kind) is Some
    }

    /// The region defined for memory class `kind`, if any.
    pub fn memory(&self, kind: MemoryType) -> (r: Option<Memory>)
        ensures
            r == self.region(kind),
    {
        match kind {
            MemoryType::Ilm => self.ilm,
            MemoryType::Dlm => self.dlm,
            MemoryType::AxiSram0 => self.axi_sram_0,
            MemoryType::AxiSram1 => self.axi_sram_1,
            MemoryType::AhbSram => self.ahb_sram,
            MemoryType::ApbSram => self.apb_sram,
            MemoryType::Xpi0 => self.xpi0,
            MemoryType::Xpi1 => self.xpi1,
        }
    }

    /// Whether the device has a memory of class `kind`.
    pub fn has_memory(&self, kind: MemoryType) -> (r: bool)
        ensures
            r == self.has(kind),
    {
        self.memory(kind).is_some()
    }
}

} // verus!
