use hpm_rt::{
    FlashType, Instance, MemoryType, PinGroup, PortConnection, QuadIOEnableSequence,
    XpiNorConfigurationOption,
};

fn bytes_of(c: &XpiNorConfigurationOption) -> Vec<u8> {
    let mut out = Vec::new();
    c.write(&mut out);
    out
}

#[test]
fn default_option_is_default_pattern() {
    let c = XpiNorConfigurationOption::new();
    assert_eq!(c.words(), [0xFCF9_0002, 0x0000_0007, 0x0000_0000]);
    assert_eq!(
        bytes_of(&c),
        vec![0x02, 0x00, 0xF9, 0xFC, 0x07, 0x00, 0x00, 0x00, 0x00, 0x00, 0x00, 0x00]
    );
}

#[test]
fn encoding_twice_gives_identical_bytes() {
    let c = XpiNorConfigurationOption::new()
        .flash_type(FlashType::OctaBusDdr)
        .pin_group(PinGroup::Group2);
    let a = bytes_of(&c);
    let b = bytes_of(&c);
    assert_eq!(a.len(), 12);
    assert_eq!(a, b);
}

#[test]
fn write_appends_to_existing_bytes() {
    let mut out = vec![0xAA];
    XpiNorConfigurationOption::new().write(&mut out);
    assert_eq!(out.len(), 13);
    assert_eq!(out[0], 0xAA);
    assert_eq!(out[1], 0x02);
}

#[test]
fn flash_type_sits_in_top_bits_of_second_word() {
    let c = XpiNorConfigurationOption::new().flash_type(FlashType::EcoXipDdr);
    assert_eq!(c.words(), [0xFCF9_0002, 0x8000_0007, 0x0000_0000]);
    let c = XpiNorConfigurationOption::new().flash_type(FlashType::Read144);
    assert_eq!(bytes_of(&c)[4..8], [0x07, 0x00, 0x00, 0x20]);
}

#[test]
fn enable_sequence_sits_at_bit_16_of_second_word() {
    let c = XpiNorConfigurationOption::new()
        .quad_io_enable_sequence(QuadIOEnableSequence::Status2Bit1ProgrammedBy0x31);
    assert_eq!(c.words(), [0xFCF9_0002, 0x0004_0007, 0x0000_0000]);
    let c = XpiNorConfigurationOption::new()
        .quad_io_enable_sequence(QuadIOEnableSequence::NotNeeded);
    assert_eq!(c.words()[1], 0x0000_0007);
}

#[test]
fn pin_group_and_port_sit_in_third_word() {
    let c = XpiNorConfigurationOption::new().pin_group(PinGroup::Group2);
    assert_eq!(c.words(), [0xFCF9_0002, 0x0000_0007, 0x0000_1000]);
    let c = XpiNorConfigurationOption::new().connect_port(PortConnection::PortBCs0PortBCs1);
    assert_eq!(c.words(), [0xFCF9_0002, 0x0000_0007, 0x0000_0400]);
}

#[test]
fn every_field_set_at_once() {
    let c = XpiNorConfigurationOption::new()
        .flash_type(FlashType::HyperBus3v3)
        .quad_io_enable_sequence(QuadIOEnableSequence::Status2Bit7)
        .pin_group(PinGroup::Group2)
        .connect_port(PortConnection::PortACs0PortBCs0);
    assert_eq!(c.words(), [0xFCF9_0002, 0x5003_0007, 0x0000_1200]);
    assert_eq!(
        bytes_of(&c),
        vec![0x02, 0x00, 0xF9, 0xFC, 0x07, 0x00, 0x03, 0x50, 0x00, 0x12, 0x00, 0x00]
    );
}

#[test]
fn first_byte_is_two_for_any_option() {
    let types = [FlashType::SfdpSdr, FlashType::SfdpDdr, FlashType::XccelaDdr];
    let ports = [PortConnection::PortACs0, PortConnection::PortACs0PortACs1];
    for t in types {
        for p in ports {
            let c = XpiNorConfigurationOption::new().flash_type(t).connect_port(p);
            assert_eq!(bytes_of(&c)[0], 0x02);
        }
    }
}

#[test]
fn instance_names_and_memories() {
    assert_eq!(Instance::Xpi0.as_str(), "XPI0");
    assert_eq!(Instance::Xpi1.as_str(), "XPI1");
    assert_eq!(MemoryType::from(Instance::Xpi0), MemoryType::Xpi0);
    assert_eq!(MemoryType::from(Instance::Xpi1), MemoryType::Xpi1);
}

#[test]
fn instance_does_not_change_encoding() {
    let c = XpiNorConfigurationOption::new().instance(Instance::Xpi1);
    assert_eq!(c.instance, Instance::Xpi1);
    assert_eq!(c.words(), XpiNorConfigurationOption::new().words());
}
