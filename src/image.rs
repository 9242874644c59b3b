//! The runtime builder: section placement, its validation against the
//! device, and the linker script that it renders.
use vstd::prelude::*;

use crate::device::{Device, Memory, MemoryType};
use crate::flash::{config_words, instance_memory, XpiNorConfigurationOption};
use crate::linker::{
    alias_line, bytes_section, memory_table, output_boot_header, output_bytes, region_alias,
    write_memory,
};
use crate::text::{decimal, push_decimal};

verus! {

/// Stack size of a new builder, in bytes.
pub const DEFAULT_STACK_SIZE: usize = 8192;

/// Name of the generated linker script.
pub const DEFAULT_LINKER_SCRIPT_NAME: &'static str = "hpmrt-link.ld";

/// Offset of the flash configuration option from the start of the boot flash.
pub const NOR_CFG_OPTION_OFFSET: u32 = 0x400;

/// A logical section of the image.
#[derive(Debug, Clone, Copy, PartialEq, Eq, Structural)]
pub enum Section {
    /// Code.
    Text,
    /// Read-only data.
    Rodata,
    /// Initialized data.
    Data,
    /// Zero-initialized data.
    Bss,
    /// The stack.
    Stack,
    /// The heap.
    Heap,
}

/// The name of a section in region aliases (`TEXT`, `RODATA`, ...).
pub open spec fn section_name(s: Section) -> Seq<char> {
    match s {
        Section::Text => "TEXT"@,
        Section::Rodata => "RODATA"@,
        Section::Data => "DATA"@,
        Section::Bss => "BSS"@,
        Section::Stack => "STACK"@,
        Section::Heap => "HEAP"@,
    }
}

impl Section {
    /// The name of the section in region aliases.
    pub fn as_str(&self) -> (r: &'static str)
        ensures
            r@ == section_name(*self),
    {
        match self {
            Section::Text => "TEXT",
            Section::Rodata => "RODATA",
            Section::Data => "DATA",
            Section::Bss => "BSS",
            Section::Stack => "STACK",
            Section::Heap => "HEAP",
        }
    }
}

/// Why a configuration cannot be rendered.
#[derive(Debug, Clone, Copy, PartialEq, Eq, Structural)]
pub enum ConfigError {
    /// `section` is placed in, or loaded from, `memory`, which the device lacks.
    MissingMemory { section: Section, memory: MemoryType },
}

/// Where a section lives, and where its initial contents are loaded from.
#[derive(Debug, Clone, Copy, PartialEq, Eq, Structural)]
pub struct Region {
    /// The memory the section lives in at run time.
    pub memory: MemoryType,
    /// The memory its initial contents are copied from, if any.
    pub load_memory: Option<MemoryType>,
}

/// The memory that a section's contents are loaded from: its load memory
/// where it has one, else the memory it lives in.
pub open spec fn load_source(r: Region) -> MemoryType {
    match r.load_memory {
        Some(m) => m,
        None => r.memory,
    }
}

/// The first memory of placement `r` of `section` that `dev` lacks: the run
/// memory first, then the load memory.
pub open spec fn placement_error(dev: Device, r: Region, section: Section) -> Option<ConfigError> {
    if !dev.has(r.memory) {
        Some(ConfigError::MissingMemory { section, memory: r.memory })
    } else if r.load_memory is Some && !dev.has(r.load_memory->Some_0) {
        Some(ConfigError::MissingMemory { section, memory: r.load_memory->Some_0 })
    } else {
        None
    }
}

/// `a` where it is an error, else `b`.
pub open spec fn first_of(a: Option<ConfigError>, b: Option<ConfigError>) -> Option<ConfigError> {
    if a is Some {
        a
    } else {
        b
    }
}

/// The regions of `dev` that exist, in memory class order.
pub open spec fn present_memories(dev: Device) -> Seq<Memory> {
    opt_seq(dev.ilm) + opt_seq(dev.dlm) + opt_seq(dev.axi_sram_0) + opt_seq(dev.axi_sram_1)
        + opt_seq(dev.ahb_sram) + opt_seq(dev.apb_sram) + opt_seq(dev.xpi0) + opt_seq(dev.xpi1)
}

/// The one region of `m`, or none.
pub open spec fn opt_seq(m: Option<Memory>) -> Seq<Memory> {
    match m {
        Some(x) => seq![x],
        None => seq![],
    }
}

/// The alias directives for a list of (name, memory) pairs, in order.
pub open spec fn alias_lines(aliases: Seq<(Seq<char>, MemoryType)>) -> Seq<char>
    decreases aliases.len(),
{
    if aliases.len() == 0 {
        seq![]
    } else {
        alias_lines(aliases.drop_last()) + alias_line(aliases.last().0, aliases.last().1)
    }
}

/// Appends the alias of `name` to `memory`, extending the aliases
/// already written after `base`.
fn write_alias_step(
    out: &mut String,
    memory: MemoryType,
    name: &str,
    base: Ghost<Seq<char>>,
    done: Ghost<Seq<(Seq<char>, MemoryType)>>,
)
    requires
        old(out)@ == base@ + alias_lines(done@),
    ensures
        final(out)@ == base@ + alias_lines(done@.push((name@, memory))),
{
    region_alias(out, memory, name);
    assert(done@.push((name@, memory)).drop_last() =~= done@);
    assert(out@ =~= base@ + alias_lines(done@.push((name@, memory))));
}

/// The entry point definition of an image that boots from flash.
pub open spec fn flash_entry() -> Seq<char> {
    "PROVIDE(_stext = __app_load_addr__);\n"@
}

/// The entry point definition of an image that runs from local memory.
pub open spec fn ram_entry() -> Seq<char> {
    "PROVIDE(_stext = ORIGIN(REGION_TEXT));\n"@
}

/// The section that places the flash configuration option `c` in the boot flash.
pub open spec fn nor_cfg_section(c: XpiNorConfigurationOption) -> Seq<char> {
    bytes_section(
        ".nor_cfg_option"@,
        "ORIGIN(REGION_BOOT_FLASH)"@,
        NOR_CFG_OPTION_OFFSET,
        config_words(c),
        "REGION_BOOT_FLASH"@,
    )
}

/// Boot image builder.
#[derive(Debug, Clone, Copy, PartialEq, Eq, Structural)]
pub struct RuntimeBuilder {
    /// The memories of the target device.
    pub device: Device,
    /// The flash configuration option when booting from flash; `None` when
    /// the image runs from local memory.
    pub xpi_nor_conf_info: Option<XpiNorConfigurationOption>,
    /// Placement of the code.
    pub text: Region,
    /// Placement of the read-only data.
    pub rodata: Region,
    /// Placement of the initialized data.
    pub data: Region,
    /// Placement of the zero-initialized data.
    pub bss: Region,
    /// Placement of the stack.
    pub stack: Region,
    /// Placement of the heap.
    pub heap: Region,
    /// Stack size in bytes.
    pub stack_size: usize,
}

impl RuntimeBuilder {
    /// The sections in the order they are checked and aliased.
    pub open spec fn placements(self) -> Seq<(Section, Region)> {
        seq![
            (Section::Text, self.text),
            (Section::Rodata, self.rodata),
            (Section::Data, self.data),
            (Section::Bss, self.bss),
            (Section::Stack, self.stack),
            (Section::Heap, self.heap),
        ]
    }

    /// The first placement that names a memory the device lacks, if any.
    pub open spec fn validation_error(self) -> Option<ConfigError> {
        let d = self.device;
        first_of(
            placement_error(d, self.text, Section::Text),
            first_of(
                placement_error(d, self.rodata, Section::Rodata),
                first_of(
                    placement_error(d, self.data, Section::Data),
                    first_of(
                        placement_error(d, self.bss, Section::Bss),
                        first_of(
                            placement_error(d, self.stack, Section::Stack),
                            placement_error(d, self.heap, Section::Heap),
                        ),
                    ),
                ),
            ),
        )
    }

    /// The region aliases, in order: the six sections, then, when booting
    /// from flash, where code, read-only data and data are loaded from.
    pub open spec fn aliases(self) -> Seq<(Seq<char>, MemoryType)> {
        let run = seq![
            ("TEXT"@, self.text.memory),
            ("RODATA"@, self.rodata.memory),
            ("DATA"@, self.data.memory),
            ("BSS"@, self.bss.memory),
            ("STACK"@, self.stack.memory),
            ("HEAP"@, self.heap.memory),
        ];
        if self.xpi_nor_conf_info is Some {
            run + seq![
                ("LOAD_TEXT"@, load_source(self.text)),
                ("LOAD_RODATA"@, load_source(self.rodata)),
                ("LOAD_DATA"@, load_source(self.data)),
            ]
        } else {
            run
        }
    }

    /// What follows the stack size: the boot flash alias, the flash
    /// configuration option, the boot header and the entry point when
    /// booting from flash; only the entry point otherwise.
    pub open spec fn boot_part(self, boot_header: Seq<char>) -> Seq<char> {
        match self.xpi_nor_conf_info {
            Some(c) => alias_line("BOOT_FLASH"@, instance_memory(c.instance)) + nor_cfg_section(c)
                + boot_header + flash_entry(),
            None => ram_entry(),
        }
    }

    /// The linker script of this configuration, ending in `template`.
    pub open spec fn script(self, boot_header: Seq<char>, template: Seq<char>) -> Seq<char> {
        memory_table(present_memories(self.device)) + alias_lines(self.aliases())
            + "PROVIDE(_stack_size = "@ + decimal(self.stack_size as nat) + ");\n"@
            + self.boot_part(boot_header) + template
    }
}

/// The placement of a section that lives in `memory` and has no initial contents.
pub open spec fn uninit(memory: MemoryType) -> Region {
    Region { memory, load_memory: None }
}

/// The placement of a section that lives in `memory` and is loaded from `load`.
pub open spec fn loaded(memory: MemoryType, load: MemoryType) -> Region {
    Region { memory, load_memory: Some(load) }
}

/// The memory a section is loaded from: its load memory where it has one,
/// else the memory it lives in.
pub fn load_or_run(r: &Region) -> (m: MemoryType)
    ensures
        m == load_source(*r),
{
    match r.load_memory {
        Some(m) => m,
        None => r.memory,
    }
}

/// Appends the region of `m`, if there is one.
fn push_present(memories: &mut Vec<Memory>, m: Option<Memory>)
    ensures
        final(memories)@ == old(memories)@ + opt_seq(m),
{
    if let Some(x) = m {
        memories.push(x);
    }
    assert(memories@ =~= old(memories)@ + opt_seq(m));
}

/// The regions that `dev` defines, in memory class order.
pub fn present(dev: &Device) -> (r: Vec<Memory>)
    ensures
        r@ == present_memories(*dev),
{
    let mut memories: Vec<Memory> = Vec::new();
    push_present(&mut memories, dev.ilm);
    push_present(&mut memories, dev.dlm);
    push_present(&mut memories, dev.axi_sram_0);
    push_present(&mut memories, dev.axi_sram_1);
    push_present(&mut memories, dev.ahb_sram);
    push_present(&mut memories, dev.apb_sram);
    push_present(&mut memories, dev.xpi0);
    push_present(&mut memories, dev.xpi1);
    assert(memories@ =~= present_memories(*dev));
    memories
}

impl RuntimeBuilder {
    /// A builder for an image that boots from the flash described by
    /// `xpi_config`: code and read-only data live in that flash, data is
    /// loaded from it into DLM, and the zero-initialized data, stack and heap
    /// live in DLM.
    pub fn from_flash(family: Device, xpi_config: XpiNorConfigurationOption) -> (r: Self)
        ensures
            r.device == family,
            r.xpi_nor_conf_info == Some(xpi_config),
            r.text == loaded(instance_memory(xpi_config.instance), instance_memory(xpi_config.instance)),
            r.rodata == loaded(instance_memory(xpi_config.instance), instance_memory(xpi_config.instance)),
            r.data == loaded(MemoryType::Dlm, instance_memory(xpi_config.instance)),
            r.bss == uninit(MemoryType::Dlm),
            r.stack == uninit(MemoryType::Dlm),
            r.heap == uninit(MemoryType::Dlm),
            r.stack_size == DEFAULT_STACK_SIZE,
    {
        let boot_flash = MemoryType::from(xpi_config.instance);
        Self {
            device: family,
            xpi_nor_conf_info: Some(xpi_config),
            text: Region { memory: boot_flash, load_memory: Some(boot_flash) },
            rodata: Region { memory: boot_flash, load_memory: Some(boot_flash) },
            data: Region { memory: MemoryType::Dlm, load_memory: Some(boot_flash) },
            bss: Region { memory: MemoryType::Dlm, load_memory: None },
            stack: Region { memory: MemoryType::Dlm, load_memory: None },
            heap: Region { memory: MemoryType::Dlm, load_memory: None },
            stack_size: DEFAULT_STACK_SIZE,
        }
    }

    /// A builder for an image that runs from local memory: code and
    /// read-only data live in ILM, data is loaded from ILM into DLM, and the
    /// zero-initialized data, stack and heap live in DLM.
    pub fn from_ram(device: Device) -> (r: Self)
        ensures
            r.device == device,
            r.xpi_nor_conf_info is None,
            r.text == loaded(MemoryType::Ilm, MemoryType::Ilm),
            r.rodata == loaded(MemoryType::Ilm, MemoryType::Ilm),
            r.data == loaded(MemoryType::Dlm, MemoryType::Ilm),
            r.bss == uninit(MemoryType::Dlm),
            r.stack == uninit(MemoryType::Dlm),
            r.heap == uninit(MemoryType::Dlm),
            r.stack_size == DEFAULT_STACK_SIZE,
    {
        Self {
            device,
            xpi_nor_conf_info: None,
            text: Region { memory: MemoryType::Ilm, load_memory: Some(MemoryType::Ilm) },
            rodata: Region { memory: MemoryType::Ilm, load_memory: Some(MemoryType::Ilm) },
            data: Region { memory: MemoryType::Dlm, load_memory: Some(MemoryType::Ilm) },
            bss: Region { memory: MemoryType::Dlm, load_memory: None },
            stack: Region { memory: MemoryType::Dlm, load_memory: None },
            heap: Region { memory: MemoryType::Dlm, load_memory: None },
            stack_size: DEFAULT_STACK_SIZE,
        }
    }

    /// Sets the size of the flash connected to XPI0, which the device must have.
    pub fn xpi0_flash_size(self, size: u32) -> (r: Self)
        requires
            self.device.xpi0 is Some,
        ensures
            r == (Self {
                device: Device {
                    xpi0: Some(Memory { size, ..self.device.xpi0->Some_0 }),
                    ..self.device
                },
                ..self
            }),
    {
        let mut builder = self;
        let mut xpi0 = builder.device.xpi0.unwrap();
        xpi0.size = size;
        builder.device.xpi0 = Some(xpi0);
        builder
    }

    /// Sets the size of the flash connected to XPI1, which the device must have.
    pub fn xpi1_flash_size(self, size: u32) -> (r: Self)
        requires
            self.device.xpi1 is Some,
        ensures
            r == (Self {
                device: Device {
                    xpi1: Some(Memory { size, ..self.device.xpi1->Some_0 }),
                    ..self.device
                },
                ..self
            }),
    {
        let mut builder = self;
        let mut xpi1 = builder.device.xpi1.unwrap();
        xpi1.size = size;
        builder.device.xpi1 = Some(xpi1);
        builder
    }

    /// Places the read-only data in `memory`.
    pub fn rodata(self, memory: MemoryType) -> (r: Self)
        ensures
            r == (Self { rodata: Region { memory, ..self.rodata }, ..self }),
    {
        let mut builder = self;
        builder.rodata.memory = memory;
        builder
    }

    /// Places the initialized data in `memory`.
    pub fn data(self, memory: MemoryType) -> (r: Self)
        ensures
            r == (Self { data: Region { memory, ..self.data }, ..self }),
    {
        let mut builder = self;
        builder.data.memory = memory;
        builder
    }

    /// Places the zero-initialized data in `memory`.
    pub fn bss(self, memory: MemoryType) -> (r: Self)
        ensures
            r == (Self { bss: Region { memory, ..self.bss }, ..self }),
    {
        let mut builder = self;
        builder.bss.memory = memory;
        builder
    }

    /// Places the stack in `memory` and makes it `size` bytes long.
    pub fn stack(self, memory: MemoryType, size: usize) -> (r: Self)
        ensures
            r == (Self { stack: Region { memory, ..self.stack }, stack_size: size, ..self }),
    {
        let mut builder = self;
        builder.stack.memory = memory;
        builder.stack_size = size;
        builder
    }

    /// Checks that the device has the memory that `section` lives in and,
    /// where it has one, the memory it is loaded from.
    pub fn check_section_placement(&self, region: &Region, section: Section) -> (r: Result<
        (),
        ConfigError,
    >)
        ensures
            r == match placement_error(self.device, *region, section) {
                Some(e) => Err(e),
                None => Ok(()),
            },
    {
        if !self.device.has_memory(region.memory) {
            return Err(ConfigError::MissingMemory { section, memory: region.memory });
        }
        if let Some(load) = region.load_memory {
            if !self.device.has_memory(load) {
                return Err(ConfigError::MissingMemory { section, memory: load });
            }
        }
        Ok(())
    }

    /// Checks every placement in order and reports the first memory that the
    /// device lacks.
    pub fn validate(&self) -> (r: Result<(), ConfigError>)
        ensures
            r == match self.validation_error() {
                Some(e) => Err(e),
                None => Ok(()),
            },
    {
        let text = self.check_section_placement(&self.text, Section::Text);
        if text.is_err() {
            return text;
        }
        let rodata = self.check_section_placement(&self.rodata, Section::Rodata);
        if rodata.is_err() {
            return rodata;
        }
        let data = self.check_section_placement(&self.data, Section::Data);
        if data.is_err() {
            return data;
        }
        let bss = self.check_section_placement(&self.bss, Section::Bss);
        if bss.is_err() {
            return bss;
        }
        let stack = self.check_section_placement(&self.stack, Section::Stack);
        if stack.is_err() {
            return stack;
        }
        self.check_section_placement(&self.heap, Section::Heap)
    }

    /// Appends the region aliases of this configuration.
    fn write_aliases(&self, out: &mut String)
        ensures
            final(out)@ == old(out)@ + alias_lines(self.aliases()),
    {
        let ghost base = out@;
        let ghost run = seq![
            ("TEXT"@, self.text.memory),
            ("RODATA"@, self.rodata.memory),
            ("DATA"@, self.data.memory),
            ("BSS"@, self.bss.memory),
            ("STACK"@, self.stack.memory),
            ("HEAP"@, self.heap.memory),
        ];
        assert(out@ =~= base + alias_lines(run.take(0)));
        write_alias_step(out, self.text.memory, "TEXT", Ghost(base), Ghost(run.take(0)));
        assert(run.take(0).push(run[0]) =~= run.take(1));
        write_alias_step(out, self.rodata.memory, "RODATA", Ghost(base), Ghost(run.take(1)));
        assert(run.take(1).push(run[1]) =~= run.take(2));
        write_alias_step(out, self.data.memory, "DATA", Ghost(base), Ghost(run.take(2)));
        assert(run.take(2).push(run[2]) =~= run.take(3));
        write_alias_step(out, self.bss.memory, "BSS", Ghost(base), Ghost(run.take(3)));
        assert(run.take(3).push(run[3]) =~= run.take(4));
        write_alias_step(out, self.stack.memory, "STACK", Ghost(base), Ghost(run.take(4)));
        assert(run.take(4).push(run[4]) =~= run.take(5));
        write_alias_step(out, self.heap.memory, "HEAP", Ghost(base), Ghost(run.take(5)));
        assert(run.take(5).push(run[5]) =~= run);
        if self.xpi_nor_conf_info.is_some() {
            let ghost all = run + seq![
                ("LOAD_TEXT"@, load_source(self.text)),
                ("LOAD_RODATA"@, load_source(self.rodata)),
                ("LOAD_DATA"@, load_source(self.data)),
            ];
            assert(run =~= all.take(6));
            write_alias_step(out, load_or_run(&self.text), "LOAD_TEXT", Ghost(base), Ghost(all.take(6)));
            assert(all.take(6).push(all[6]) =~= all.take(7));
            write_alias_step(out, load_or_run(&self.rodata), "LOAD_RODATA", Ghost(base), Ghost(all.take(7)));
            assert(all.take(7).push(all[7]) =~= all.take(8));
            write_alias_step(out, load_or_run(&self.data), "LOAD_DATA", Ghost(base), Ghost(all.take(8)));
            assert(all.take(8).push(all[8]) =~= all);
            assert(all =~= self.aliases());
        } else {
            assert(run =~= self.aliases());
        }
    }

    /// Appends the part of the script that follows the stack size.
    fn write_boot_part(&self, out: &mut String, boot_header: &str)
        ensures
            final(out)@ == old(out)@ + self.boot_part(boot_header@),
    {
        match self.xpi_nor_conf_info {
            Some(c) => {
                region_alias(out, MemoryType::from(c.instance), "BOOT_FLASH");
                let words = c.words();
                output_bytes(
                    out,
                    ".nor_cfg_option",
                    "ORIGIN(REGION_BOOT_FLASH)",
                    NOR_CFG_OPTION_OFFSET,
                    words.as_slice(),
                    "REGION_BOOT_FLASH",
                );
                output_boot_header(out, boot_header);
                out.append("PROVIDE(_stext = __app_load_addr__);\n");
            },
            None => {
                out.append("PROVIDE(_stext = ORIGIN(REGION_TEXT));\n");
            },
        }
        assert(out@ =~= old(out)@ + self.boot_part(boot_header@));
    }

    /// Renders the linker script: the memory table, the region aliases, the
    /// stack size, the boot part, and `template` appended unchanged. The
    /// boot part holds `boot_header` unchanged when booting from flash.
    /// Fails, rendering nothing, with the first placement that names a memory
    /// the device lacks.
    pub fn linker_script(&self, boot_header: &str, template: &str) -> (r: Result<String, ConfigError>)
        ensures
            match r {
                Ok(s) => self.validation_error() is None && s@ == self.script(boot_header@, template@),
                Err(e) => self.validation_error() == Some(e),
            },
    {
        let checked = self.validate();
        if let Err(e) = checked {
            return Err(e);
        }
        let memories = present(&self.device);
        let mut out = String::new();
        write_memory(&mut out, &memories);
        self.write_aliases(&mut out);
        out.append("PROVIDE(_stack_size = ");
        push_decimal(&mut out, self.stack_size);
        out.append(");\n");
        self.write_boot_part(&mut out, boot_header);
        out.append(template);
        assert(out@ =~= self.script(boot_header@, template@));
        Ok(out)
    }
}

/// The build script directive that adds `out_dir` to the linker's search path.
pub fn link_search_directive(out_dir: &str) -> (r: String)
    ensures
        r@ == "cargo:rustc-link-search="@ + out_dir@,
{
    let mut r = String::from_str("cargo:rustc-link-search=");
    r.append(out_dir);
    r
}

/// The build script directive that passes the generated script to the linker.
pub fn link_arg_directive() -> (r: String)
    ensures
        r@ == "cargo:rustc-link-arg=-T"@ + DEFAULT_LINKER_SCRIPT_NAME@,
{
    let mut r = String::from_str("cargo:rustc-link-arg=-T");
    r.append(DEFAULT_LINKER_SCRIPT_NAME);
    r
}

/// A configuration passes validation exactly when every placement names
/// only memories that the device has.
pub proof fn lemma_valid_iff_all_present(b: RuntimeBuilder)
    ensures
        b.validation_error() is None <==> forall|i: int|
            0 <= i < 6 ==> (#[trigger] placement_error(
                b.device,
                b.placements()[i].1,
                b.placements()[i].0,
            )) is None,
{
    let ps = b.placements();
    if b.validation_error() is None {
        assert forall|i: int| 0 <= i < 6 implies (#[trigger] placement_error(
            b.device,
            ps[i].1,
            ps[i].0,
        )) is None by {
            assert(i == 0 || i == 1 || i == 2 || i == 3 || i == 4 || i == 5);
        }
    } else {
        assert(placement_error(b.device, ps[0].1, ps[0].0) is Some || placement_error(
            b.device,
            ps[1].1,
            ps[1].0,
        ) is Some || placement_error(b.device, ps[2].1, ps[2].0) is Some || placement_error(
            b.device,
            ps[3].1,
            ps[3].0,
        ) is Some || placement_error(b.device, ps[4].1, ps[4].0) is Some || placement_error(
            b.device,
            ps[5].1,
            ps[5].0,
        ) is Some);
    }
}

/// When placement `i` is the first that names a memory the device lacks,
/// validation fails with exactly that placement's section and the memory it
/// lacks.
pub proof fn lemma_first_missing_reported(b: RuntimeBuilder, i: int)
    requires
        0 <= i < 6,
        forall|j: int|
            0 <= j < i ==> (#[trigger] placement_error(
                b.device,
                b.placements()[j].1,
                b.placements()[j].0,
            )) is None,
        placement_error(b.device, b.placements()[i].1, b.placements()[i].0) is Some,
    ensures
        b.validation_error() == placement_error(b.device, b.placements()[i].1, b.placements()[i].0),
        b.validation_error() == Some(
            ConfigError::MissingMemory {
                section: b.placements()[i].0,
                memory: if b.device.has(b.placements()[i].1.memory) {
                    b.placements()[i].1.load_memory->Some_0
                } else {
                    b.placements()[i].1.memory
                },
            },
        ),
{
    let ps = b.placements();
    if i > 0 {
        assert(placement_error(b.device, ps[0].1, ps[0].0) is None);
    }
    if i > 1 {
        assert(placement_error(b.device, ps[1].1, ps[1].0) is None);
    }
    if i > 2 {
        assert(placement_error(b.device, ps[2].1, ps[2].0) is None);
    }
    if i > 3 {
        assert(placement_error(b.device, ps[3].1, ps[3].0) is None);
    }
    if i > 4 {
        assert(placement_error(b.device, ps[4].1, ps[4].0) is None);
    }
}

/// The script binds each of the six sections, in the fixed order TEXT,
/// RODATA, DATA, BSS, STACK, HEAP, to the memory it lives in; the load
/// aliases follow only when booting from flash; and no alias name repeats,
/// so each of the six names is bound exactly once.
pub proof fn lemma_aliases_fixed_order(b: RuntimeBuilder)
    ensures
        b.aliases().len() == if b.xpi_nor_conf_info is Some {
            9int
        } else {
            6int
        },
        forall|i: int|
            0 <= i < 6 ==> #[trigger] b.aliases()[i] == (
                section_name(b.placements()[i].0),
                b.placements()[i].1.memory,
            ),
        forall|i: int, j: int|
            0 <= i < j < b.aliases().len() ==> #[trigger] b.aliases()[i].0 != #[trigger] b.aliases()[j].0,
{
    reveal_strlit("TEXT");
    reveal_strlit("RODATA");
    reveal_strlit("DATA");
    reveal_strlit("BSS");
    reveal_strlit("STACK");
    reveal_strlit("HEAP");
    reveal_strlit("LOAD_TEXT");
    reveal_strlit("LOAD_RODATA");
    reveal_strlit("LOAD_DATA");
    let a = b.aliases();
    assert forall|i: int, j: int| 0 <= i < j < a.len() implies #[trigger] a[i].0 != #[trigger] a[j].0 by {
        assert(a[i].0.len() != a[j].0.len() || a[i].0[0] != a[j].0[0] || a[i].0[1] != a[j].0[1]
            || a[i].0[5] != a[j].0[5]);
    }
}

/// An image that runs from local memory binds no boot flash region and
/// holds neither the flash configuration option nor the boot header: its
/// script does not depend on the boot header at all, and ends with the
/// entry point at the start of the code region followed by the template.
pub proof fn lemma_ram_boot_has_no_boot_flash(
    b: RuntimeBuilder,
    header_a: Seq<char>,
    header_b: Seq<char>,
    template: Seq<char>,
)
    requires
        b.xpi_nor_conf_info is None,
    ensures
        b.script(header_a, template) == b.script(header_b, template),
        b.boot_part(header_a) == ram_entry(),
        forall|i: int| 0 <= i < b.aliases().len() ==> #[trigger] b.aliases()[i].0 != "BOOT_FLASH"@,
        b.script(header_a, template) == memory_table(present_memories(b.device)) + alias_lines(
            b.aliases(),
        ) + "PROVIDE(_stack_size = "@ + decimal(b.stack_size as nat) + ");\n"@ + ram_entry()
            + template,
{
    reveal_strlit("TEXT");
    reveal_strlit("RODATA");
    reveal_strlit("DATA");
    reveal_strlit("BSS");
    reveal_strlit("STACK");
    reveal_strlit("HEAP");
    reveal_strlit("BOOT_FLASH");
    let a = b.aliases();
    assert forall|i: int| 0 <= i < a.len() implies #[trigger] a[i].0 != "BOOT_FLASH"@ by {
        assert(a[i].0.len() != "BOOT_FLASH"@.len() || a[i].0[0] != "BOOT_FLASH"@[0]);
    }
}

} // verus!
