use hpm_rt::image::{link_arg_directive, link_search_directive, DEFAULT_STACK_SIZE};
use hpm_rt::linker::{output_bytes, region_alias};
use hpm_rt::text::{push_decimal, push_hex, push_hex8};
use hpm_rt::Family;
use hpm_rt::{
    ConfigError, Instance, MemoryType, Region, RuntimeBuilder, Section, XpiNorConfigurationOption,
};

const HPM6300_TABLE: &str = "MEMORY\n{\n\
ILM : ORIGIN = 0x00000000, LENGTH = 0x00020000\n\
DLM : ORIGIN = 0x00080000, LENGTH = 0x00020000\n\
AXI_SRAM_0 : ORIGIN = 0x01080000, LENGTH = 0x00080000\n\
AHB_SRAM : ORIGIN = 0xF0300000, LENGTH = 0x00008000\n\
XPI0 : ORIGIN = 0x80000000, LENGTH = 0x00000000\n\
XPI1 : ORIGIN = 0x90000000, LENGTH = 0x00000000\n\
}\n";

fn alias_names(script: &str) -> Vec<String> {
    script
        .lines()
        .filter(|l| l.starts_with("REGION_ALIAS(\"REGION_"))
        .map(|l| {
            let rest = &l["REGION_ALIAS(\"REGION_".len()..];
            rest[..rest.find('"').unwrap()].to_string()
        })
        .collect()
}

#[test]
fn write_memory() {
    let script =
        RuntimeBuilder::from_flash(Family::HPM6700_6400(), XpiNorConfigurationOption::new())
            .xpi0_flash_size(512 * 1024)
            .linker_script("", "")
            .unwrap();
    println!("{}", script);
    assert!(script.contains("XPI0 : ORIGIN = 0x80000000, LENGTH = 0x00080000\n"));
    assert!(script.contains("XPI1 : ORIGIN = 0x90000000, LENGTH = 0x00000000\n"));
}

#[test]
fn ram_script_on_hpm6300_is_exact() {
    let script = RuntimeBuilder::from_ram(Family::HPM6300())
        .linker_script("BOOT HEADER\n", "/* tail */\n")
        .unwrap();
    let expected = format!(
        "{}{}",
        HPM6300_TABLE,
        "REGION_ALIAS(\"REGION_TEXT\", ILM);\n\
REGION_ALIAS(\"REGION_RODATA\", ILM);\n\
REGION_ALIAS(\"REGION_DATA\", DLM);\n\
REGION_ALIAS(\"REGION_BSS\", DLM);\n\
REGION_ALIAS(\"REGION_STACK\", DLM);\n\
REGION_ALIAS(\"REGION_HEAP\", DLM);\n\
PROVIDE(_stack_size = 8192);\n\
PROVIDE(_stext = ORIGIN(REGION_TEXT));\n\
/* tail */\n"
    );
    assert_eq!(script, expected);
}

#[test]
fn flash_script_on_hpm6700_is_exact() {
    let script =
        RuntimeBuilder::from_flash(Family::HPM6700_6400(), XpiNorConfigurationOption::new())
            .xpi0_flash_size(8 * 1024 * 1024)
            .linker_script("HEADER\n", "TAIL\n")
            .unwrap();
    let expected = "MEMORY\n{\n\
ILM : ORIGIN = 0x00000000, LENGTH = 0x00040000\n\
DLM : ORIGIN = 0x00080000, LENGTH = 0x00040000\n\
AXI_SRAM_0 : ORIGIN = 0x01080000, LENGTH = 0x00080000\n\
AXI_SRAM_1 : ORIGIN = 0x01100000, LENGTH = 0x00080000\n\
AHB_SRAM : ORIGIN = 0xF0300000, LENGTH = 0x00008000\n\
APB_SRAM : ORIGIN = 0xF40F0000, LENGTH = 0x00002000\n\
XPI0 : ORIGIN = 0x80000000, LENGTH = 0x00800000\n\
XPI1 : ORIGIN = 0x90000000, LENGTH = 0x00000000\n\
}\n\
REGION_ALIAS(\"REGION_TEXT\", XPI0);\n\
REGION_ALIAS(\"REGION_RODATA\", XPI0);\n\
REGION_ALIAS(\"REGION_DATA\", DLM);\n\
REGION_ALIAS(\"REGION_BSS\", DLM);\n\
REGION_ALIAS(\"REGION_STACK\", DLM);\n\
REGION_ALIAS(\"REGION_HEAP\", DLM);\n\
REGION_ALIAS(\"REGION_LOAD_TEXT\", XPI0);\n\
REGION_ALIAS(\"REGION_LOAD_RODATA\", XPI0);\n\
REGION_ALIAS(\"REGION_LOAD_DATA\", XPI0);\n\
PROVIDE(_stack_size = 8192);\n\
REGION_ALIAS(\"REGION_BOOT_FLASH\", XPI0);\n\
SECTIONS\n{\n.nor_cfg_option ORIGIN(REGION_BOOT_FLASH):\n{\n. += 0x400;\n\
LONG(0xFCF90002); LONG(0x00000007); LONG(0x00000000);\n\
} > REGION_BOOT_FLASH\n}\n\
HEADER\n\
PROVIDE(_stext = __app_load_addr__);\n\
TAIL\n";
    assert_eq!(script, expected);
}

#[test]
fn flash_boot_on_hpm6700_sets_xpi0_size_and_boot_flash() {
    let script =
        RuntimeBuilder::from_flash(Family::HPM6700_6400(), XpiNorConfigurationOption::new())
            .xpi0_flash_size(8 * 1024 * 1024)
            .linker_script("", "")
            .unwrap();
    assert!(script
        .lines()
        .any(|l| l == "XPI0 : ORIGIN = 0x80000000, LENGTH = 0x00800000"));
    assert!(script
        .lines()
        .any(|l| l == "REGION_ALIAS(\"REGION_BOOT_FLASH\", XPI0);"));
}

#[test]
fn ram_boot_on_hpm6300_has_no_boot_flash() {
    let script = RuntimeBuilder::from_ram(Family::HPM6300())
        .linker_script("BOOT_FLASH header that must not appear", "")
        .unwrap();
    assert!(script.contains("PROVIDE(_stext = ORIGIN(REGION_TEXT));"));
    assert!(!script.contains("BOOT_FLASH"));
    assert!(!script.contains(".nor_cfg_option"));
    assert!(!script.contains("LOAD_TEXT"));
}

#[test]
fn valid_builders_emit_six_aliases_in_order() {
    let six = ["TEXT", "RODATA", "DATA", "BSS", "STACK", "HEAP"];
    let ram = RuntimeBuilder::from_ram(Family::HPM6700_6400())
        .rodata(MemoryType::AxiSram0)
        .data(MemoryType::AxiSram1)
        .bss(MemoryType::AhbSram)
        .stack(MemoryType::ApbSram, 1024)
        .linker_script("", "")
        .unwrap();
    assert_eq!(alias_names(&ram), six);
    assert!(ram.contains("REGION_ALIAS(\"REGION_RODATA\", AXI_SRAM_0);\n"));
    assert!(ram.contains("REGION_ALIAS(\"REGION_DATA\", AXI_SRAM_1);\n"));
    assert!(ram.contains("REGION_ALIAS(\"REGION_BSS\", AHB_SRAM);\n"));
    assert!(ram.contains("REGION_ALIAS(\"REGION_STACK\", APB_SRAM);\n"));
    assert!(ram.contains("PROVIDE(_stack_size = 1024);\n"));

    let flash = RuntimeBuilder::from_flash(Family::HPM6300(), XpiNorConfigurationOption::new())
        .linker_script("", "")
        .unwrap();
    let names = alias_names(&flash);
    assert_eq!(names[..6], six);
    assert_eq!(names[6..], ["LOAD_TEXT", "LOAD_RODATA", "LOAD_DATA", "BOOT_FLASH"]);
}

#[test]
fn missing_memory_names_section_and_memory() {
    let cases: [(RuntimeBuilder, Section, MemoryType); 4] = [
        (
            RuntimeBuilder::from_ram(Family::HPM6300()).rodata(MemoryType::AxiSram1),
            Section::Rodata,
            MemoryType::AxiSram1,
        ),
        (
            RuntimeBuilder::from_ram(Family::HPM6300()).data(MemoryType::ApbSram),
            Section::Data,
            MemoryType::ApbSram,
        ),
        (
            RuntimeBuilder::from_ram(Family::HPM6300()).bss(MemoryType::ApbSram),
            Section::Bss,
            MemoryType::ApbSram,
        ),
        (
            RuntimeBuilder::from_ram(Family::HPM6300()).stack(MemoryType::AxiSram1, 4096),
            Section::Stack,
            MemoryType::AxiSram1,
        ),
    ];
    for (b, section, memory) in cases {
        assert_eq!(
            b.linker_script("", ""),
            Err(ConfigError::MissingMemory { section, memory })
        );
        assert_eq!(b.validate(), Err(ConfigError::MissingMemory { section, memory }));
    }
}

#[test]
fn first_missing_memory_wins() {
    let b = RuntimeBuilder::from_ram(Family::HPM6300())
        .stack(MemoryType::ApbSram, 1024)
        .data(MemoryType::AxiSram1);
    assert_eq!(
        b.linker_script("", ""),
        Err(ConfigError::MissingMemory { section: Section::Data, memory: MemoryType::AxiSram1 })
    );
}

#[test]
fn missing_load_memory_is_reported() {
    let mut b = RuntimeBuilder::from_ram(Family::HPM6300());
    b.text = Region { memory: MemoryType::Ilm, load_memory: Some(MemoryType::ApbSram) };
    assert_eq!(
        b.check_section_placement(&b.text, Section::Text),
        Err(ConfigError::MissingMemory { section: Section::Text, memory: MemoryType::ApbSram })
    );
    assert_eq!(b.check_section_placement(&b.data, Section::Data), Ok(()));
}

#[test]
fn constructors_set_defaults() {
    let cfg = XpiNorConfigurationOption::new().instance(Instance::Xpi1);
    let f = RuntimeBuilder::from_flash(Family::HPM6700_6400(), cfg);
    assert_eq!(f.text, Region { memory: MemoryType::Xpi1, load_memory: Some(MemoryType::Xpi1) });
    assert_eq!(f.data, Region { memory: MemoryType::Dlm, load_memory: Some(MemoryType::Xpi1) });
    assert_eq!(f.bss, Region { memory: MemoryType::Dlm, load_memory: None });
    assert_eq!(f.stack_size, DEFAULT_STACK_SIZE);
    assert_eq!(f.xpi_nor_conf_info, Some(cfg));

    let r = RuntimeBuilder::from_ram(Family::HPM6300());
    assert_eq!(r.text, Region { memory: MemoryType::Ilm, load_memory: Some(MemoryType::Ilm) });
    assert_eq!(r.rodata, Region { memory: MemoryType::Ilm, load_memory: Some(MemoryType::Ilm) });
    assert_eq!(r.data, Region { memory: MemoryType::Dlm, load_memory: Some(MemoryType::Ilm) });
    assert_eq!(r.heap, Region { memory: MemoryType::Dlm, load_memory: None });
    assert_eq!(r.xpi_nor_conf_info, None);
}

#[test]
fn xpi1_boot_uses_xpi1_everywhere() {
    let cfg = XpiNorConfigurationOption::new().instance(Instance::Xpi1);
    let script = RuntimeBuilder::from_flash(Family::HPM6700_6400(), cfg)
        .xpi1_flash_size(16 * 1024 * 1024)
        .linker_script("", "")
        .unwrap();
    assert!(script.contains("XPI1 : ORIGIN = 0x90000000, LENGTH = 0x01000000\n"));
    assert!(script.contains("REGION_ALIAS(\"REGION_TEXT\", XPI1);\n"));
    assert!(script.contains("REGION_ALIAS(\"REGION_LOAD_DATA\", XPI1);\n"));
    assert!(script.contains("REGION_ALIAS(\"REGION_BOOT_FLASH\", XPI1);\n"));
}

#[test]
fn flash_size_setters_change_only_their_region() {
    let b = RuntimeBuilder::from_ram(Family::HPM6700_6400()).xpi1_flash_size(4 * 1024 * 1024);
    assert_eq!(b.device.memory(MemoryType::Xpi1).unwrap().size(), 0x40_0000);
    assert_eq!(b.device.memory(MemoryType::Xpi1).unwrap().base(), 0x9000_0000);
    assert_eq!(b.device.memory(MemoryType::Xpi0).unwrap().size(), 0);
}

#[test]
fn section_names() {
    assert_eq!(Section::Text.as_str(), "TEXT");
    assert_eq!(Section::Rodata.as_str(), "RODATA");
    assert_eq!(Section::Data.as_str(), "DATA");
    assert_eq!(Section::Bss.as_str(), "BSS");
    assert_eq!(Section::Stack.as_str(), "STACK");
    assert_eq!(Section::Heap.as_str(), "HEAP");
}

#[test]
fn cargo_directives() {
    assert_eq!(link_search_directive("/tmp/out"), "cargo:rustc-link-search=/tmp/out");
    assert_eq!(link_arg_directive(), "cargo:rustc-link-arg=-Thpmrt-link.ld");
}

#[test]
fn number_formatting() {
    let mut s = String::new();
    push_decimal(&mut s, 0);
    s.push(' ');
    push_decimal(&mut s, 1234567890);
    s.push(' ');
    push_hex(&mut s, 0);
    s.push(' ');
    push_hex(&mut s, 0x400);
    s.push(' ');
    push_hex8(&mut s, 0xABC);
    s.push(' ');
    push_hex8(&mut s, u32::MAX);
    assert_eq!(s, "0 1234567890 0 400 00000ABC FFFFFFFF");
}

#[test]
fn directive_writers() {
    let mut s = String::new();
    region_alias(&mut s, MemoryType::AhbSram, "NOINIT");
    output_bytes(&mut s, ".sec", "0x1000", 0x20, &[1, 0xDEADBEEF], "REGION_X");
    assert_eq!(
        s,
        "REGION_ALIAS(\"REGION_NOINIT\", AHB_SRAM);\n\
SECTIONS\n{\n.sec 0x1000:\n{\n. += 0x20;\nLONG(0x00000001); LONG(0xDEADBEEF);\n} > REGION_X\n}\n"
    );
}
