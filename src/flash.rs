//! The XPI NOR flash configuration option read by the boot ROM.
use vstd::prelude::*;

use crate::device::MemoryType;

verus! {

/// Flash type.
#[derive(Debug, Clone, Copy, PartialEq, Eq, Structural)]
pub enum FlashType {
    /// SFDP SDR
    SfdpSdr,
    /// SFDP DDR
    SfdpDdr,
    /// 1-4-4 Read by 0xEB
    Read144,
    /// 1-2-2 Read by 0xBB
    Read122,
    /// HyperBus 1V8
    HyperBus1v8,
    /// HyperBus 3V3
    HyperBus3v3,
    /// OctaBus DDR
    OctaBusDdr,
    /// Xccela DDR
    XccelaDdr,
    /// EcoXiP DDR
    EcoXipDdr,
}

/// Flash interface type.
#[derive(Debug, Clone, Copy, PartialEq, Eq, Structural)]
pub enum FlashInterface {
    /// Standard SPI
    Standard,
    /// Dual SPI
    Dual,
    /// Quad SPI
    Quad,
    /// Octa SPI
    Octa,
}

/// Quad I/O enable sequence.
#[derive(Debug, Clone, Copy, PartialEq, Eq, Structural)]
pub enum QuadIOEnableSequence {
    /// Not needed, or detected automatically
    NotNeeded,
    /// QE bit is at bit 6 in Status Register 1
    Status1Bit6,
    /// QE bit is at bit 1 in Status Register 2
    Status2Bit1,
    /// QE bit is at bit 7 in Status Register 2
    Status2Bit7,
    /// QE bit is at bit 1 in Status Register 2 and should be programmed by 0x31
    Status2Bit1ProgrammedBy0x31,
}

/// Flash I/O voltage.
#[derive(Debug, Clone, Copy, PartialEq, Eq, Structural)]
pub enum IOVoltage {
    /// IO voltage 3.3V
    Voltage3v3,
    /// IO voltage 1.8V
    Voltage1v8,
}

/// XPI pin group.
#[derive(Debug, Clone, Copy, PartialEq, Eq, Structural)]
pub enum PinGroup {
    /// Group 1
    Group1,
    /// Group 2
    Group2,
}

/// XPI connection type.
#[derive(Debug, Clone, Copy, PartialEq, Eq, Structural)]
pub enum PortConnection {
    /// Port A with CS0
    PortACs0,
    /// Port B with CS0
    PortBCs0,
    /// Port A with CS0 + Port B with CS0
    PortACs0PortBCs0,
    /// Port A with CS0 + Port A with CS1
    PortACs0PortACs1,
    /// Port B with CS0 + Port B with CS1
    PortBCs0PortBCs1,
}

/// Sector erase size.
#[derive(Debug, Clone, Copy, PartialEq, Eq, Structural)]
pub enum SectorEraseSize {
    /// 4 KBytes
    Erase4KB,
    /// 32 KBytes
    Erase32KB,
    /// 64 KBytes
    Erase64KB,
    /// 256 KBytes
    Erase256KB,
}

/// Sector size.
#[derive(Debug, Clone, Copy, PartialEq, Eq, Structural)]
pub enum SectorSize {
    /// 4 KBytes
    Size4KB,
    /// 32 KBytes
    Size32KB,
    /// 64 KBytes
    Size64KB,
    /// 256 KBytes
    Size256KB,
}

/// Flash size.
#[derive(Debug, Clone, Copy, PartialEq, Eq, Structural)]
pub enum FlashSize {
    /// 4 MBytes
    Size4MB,
    /// 8 MBytes
    Size8MB,
    /// 16 MBytes
    Size16MB,
}

/// The XPI instance that the boot flash is connected to.
#[derive(Debug, Clone, Copy, PartialEq, Eq, Structural)]
pub enum Instance {
    /// XPI 0
    Xpi0,
    /// XPI 1
    Xpi1,
}

/// The memory class of the flash behind XPI instance `i`.
pub open spec fn instance_memory(i: Instance) -> MemoryType {
    match i {
        Instance::Xpi0 => MemoryType::Xpi0,
        Instance::Xpi1 => MemoryType::Xpi1,
    }
}

impl Instance {
    /// The name of the instance (`XPI0` or `XPI1`).
    pub fn as_str(&self) -> (r: &'static str)
        ensures
            r@ == match *self {
                Instance::Xpi0 => "XPI0"@,
                Instance::Xpi1 => "XPI1"@,
            },
    {
        match self {
            Instance::Xpi0 => "XPI0",
            Instance::Xpi1 => "XPI1",
        }
    }
}

impl From<Instance> for MemoryType {
    fn from(value: Instance) -> (r: MemoryType)
        ensures
            r == instance_memory(value),
    {
        match value {
            Instance::Xpi0 => MemoryType::Xpi0,
            Instance::Xpi1 => MemoryType::Xpi1,
        }
    }
}

impl vstd::std_specs::convert::FromSpecImpl<Instance> for MemoryType {
    open spec fn obeys_from_spec() -> bool {
        true
    }

    open spec fn from_spec(v: Instance) -> MemoryType {
        instance_memory(v)
    }
}

/// The field value of a flash type.
pub open spec fn flash_type_code(t: FlashType) -> u32 {
    match t {
        FlashType::SfdpSdr => 0,
        FlashType::SfdpDdr => 1,
        FlashType::Read144 => 2,
        FlashType::Read122 => 3,
        FlashType::HyperBus1v8 => 4,
        FlashType::HyperBus3v3 => 5,
        FlashType::OctaBusDdr => 6,
        FlashType::XccelaDdr => 7,
        FlashType::EcoXipDdr => 8,
    }
}

/// The field value of a quad I/O enable sequence.
pub open spec fn sequence_code(s: QuadIOEnableSequence) -> u32 {
    match s {
        QuadIOEnableSequence::NotNeeded => 0,
        QuadIOEnableSequence::Status1Bit6 => 1,
        QuadIOEnableSequence::Status2Bit1 => 2,
        QuadIOEnableSequence::Status2Bit7 => 3,
        QuadIOEnableSequence::Status2Bit1ProgrammedBy0x31 => 4,
    }
}

/// The field value of a pin group.
pub open spec fn pin_group_code(g: PinGroup) -> u32 {
    match g {
        PinGroup::Group1 => 0,
        PinGroup::Group2 => 1,
    }
}

/// The field value of a port connection.
pub open spec fn port_code(p: PortConnection) -> u32 {
    match p {
        PortConnection::PortACs0 => 0,
        PortConnection::PortBCs0 => 1,
        PortConnection::PortACs0PortBCs0 => 2,
        PortConnection::PortACs0PortACs1 => 3,
        PortConnection::PortBCs0PortBCs1 => 4,
    }
}

impl FlashType {
    /// The value of this flash type in the configuration option.
    pub fn code(&self) -> (r: u32)
        ensures
            r == flash_type_code(*self),
    {
        match self {
            FlashType::SfdpSdr => 0,
            FlashType::SfdpDdr => 1,
            FlashType::Read144 => 2,
            FlashType::Read122 => 3,
            FlashType::HyperBus1v8 => 4,
            FlashType::HyperBus3v3 => 5,
            FlashType::OctaBusDdr => 6,
            FlashType::XccelaDdr => 7,
            FlashType::EcoXipDdr => 8,
        }
    }
}

impl QuadIOEnableSequence {
    /// The value of this sequence in the configuration option.
    pub fn code(&self) -> (r: u32)
        ensures
            r == sequence_code(*self),
    {
        match self {
            QuadIOEnableSequence::NotNeeded => 0,
            QuadIOEnableSequence::Status1Bit6 => 1,
            QuadIOEnableSequence::Status2Bit1 => 2,
            QuadIOEnableSequence::Status2Bit7 => 3,
            QuadIOEnableSequence::Status2Bit1ProgrammedBy0x31 => 4,
        }
    }
}

impl PinGroup {
    /// The value of this pin group in the configuration option.
    pub fn code(&self) -> (r: u32)
        ensures
            r == pin_group_code(*self),
    {
        match self {
            PinGroup::Group1 => 0,
            PinGroup::Group2 => 1,
        }
    }
}

impl PortConnection {
    /// The value of this port connection in the configuration option.
    pub fn code(&self) -> (r: u32)
        ensures
            r == port_code(*self),
    {
        match self {
            PortConnection::PortACs0 => 0,
            PortConnection::PortBCs0 => 1,
            PortConnection::PortACs0PortBCs0 => 2,
            PortConnection::PortACs0PortACs1 => 3,
            PortConnection::PortBCs0PortBCs1 => 4,
        }
    }
}

/// The first word of the option before any field is set.
pub const DEFAULT_WORD_0: u32 = 0xFCF9_0002;

/// The second word of the option before any field is set.
pub const DEFAULT_WORD_1: u32 = 0x0000_0007;

/// The third word of the option before any field is set.
pub const DEFAULT_WORD_2: u32 = 0x0000_0000;

/// XPI NOR flash configuration option.
#[derive(Debug, Clone, Copy, PartialEq, Eq, Structural)]
pub struct XpiNorConfigurationOption {
    /// Type of the connected flash.
    pub flash_type: FlashType,
    /// How quad I/O mode is enabled.
    pub quad_io_enable_sequence: QuadIOEnableSequence,
    /// Pin group that the flash is connected to.
    pub pin_group: PinGroup,
    /// Port and chip selects that the flash is connected to.
    pub connect_port: PortConnection,
    /// XPI instance that the flash is connected to.
    pub instance: Instance,
}

/// The option with every field at its first value, on XPI0.
pub open spec fn default_option() -> XpiNorConfigurationOption {
    XpiNorConfigurationOption {
        flash_type: FlashType::SfdpSdr,
        quad_io_enable_sequence: QuadIOEnableSequence::NotNeeded,
        pin_group: PinGroup::Group1,
        connect_port: PortConnection::PortACs0,
        instance: Instance::Xpi0,
    }
}

/// The three words of option `c`: the default pattern with the flash type in
/// bits 28..31 and the enable sequence from bit 16 of the second word, and
/// the pin group from bit 12 and the port connection from bit 8 of the third.
pub open spec fn config_words(c: XpiNorConfigurationOption) -> Seq<u32> {
    seq![
        DEFAULT_WORD_0,
        DEFAULT_WORD_1 | (flash_type_code(c.flash_type) << 28u32) | (sequence_code(
            c.quad_io_enable_sequence,
        ) << 16u32),
        DEFAULT_WORD_2 | (pin_group_code(c.pin_group) << 12u32) | (port_code(c.connect_port)
            << 8u32),
    ]
}

/// The four bytes of `w`, least significant first.
pub open spec fn le_bytes(w: u32) -> Seq<u8> {
    seq![(w & 0xFF) as u8, ((w >> 8u32) & 0xFF) as u8, ((w >> 16u32) & 0xFF) as u8, (w >> 24u32) as u8]
}

/// The twelve bytes of option `c`: its three words, little-endian.
pub open spec fn config_bytes(c: XpiNorConfigurationOption) -> Seq<u8> {
    let w = config_words(c);
    le_bytes(w[0]) + le_bytes(w[1]) + le_bytes(w[2])
}

/// Encoding is a function of the option alone: encoding equal options gives
/// byte-identical results, always twelve bytes long.
pub proof fn lemma_encoding_deterministic(a: XpiNorConfigurationOption, b: XpiNorConfigurationOption)
    requires
        a == b,
    ensures
        config_bytes(a) == config_bytes(b),
        config_bytes(a).len() == 12,
{
}

/// The first byte of every encoded option is 0x02: no field lies in the
/// first word.
pub proof fn lemma_first_byte(c: XpiNorConfigurationOption)
    ensures
        config_bytes(c)[0] == 0x02,
{
    assert((0xFCF9_0002u32 & 0xFF) as u8 == 0x02u8) by (bit_vector);
}

/// The default option encodes to the default pattern unchanged.
pub proof fn lemma_default_pattern()
    ensures
        config_words(default_option()) == seq![DEFAULT_WORD_0, DEFAULT_WORD_1, DEFAULT_WORD_2],
{
    assert(7u32 | (0u32 << 28u32) | (0u32 << 16u32) == 7u32) by (bit_vector);
    assert(0u32 | (0u32 << 12u32) | (0u32 << 8u32) == 0u32) by (bit_vector);
    assert(config_words(default_option()) =~= seq![DEFAULT_WORD_0, DEFAULT_WORD_1, DEFAULT_WORD_2]);
}

proof fn lemma_second_word_fields(a: u32, b: u32)
    requires
        a < 16,
        b < 16,
    ensures
        (7u32 | (a << 28u32) | (b << 16u32)) >> 28u32 == a,
        ((7u32 | (a << 28u32) | (b << 16u32)) >> 16u32) & 0xF == b,
        (7u32 | (a << 28u32) | (b << 16u32)) & 0xFFF_FFFF == 7u32 | (b << 16u32),
        (7u32 | (a << 28u32) | (b << 16u32)) & 0xFFFF == 7,
{
    assert((7u32 | (a << 28u32) | (b << 16u32)) >> 28u32 == a) by (bit_vector)
        requires
            a < 16,
            b < 16,
    ;
    assert(((7u32 | (a << 28u32) | (b << 16u32)) >> 16u32) & 0xF == b) by (bit_vector)
        requires
            a < 16,
            b < 16,
    ;
    assert((7u32 | (a << 28u32) | (b << 16u32)) & 0xFFF_FFFF == 7u32 | (b << 16u32)) by (bit_vector)
        requires
            a < 16,
            b < 16,
    ;
    assert((7u32 | (a << 28u32) | (b << 16u32)) & 0xFFFF == 7) by (bit_vector)
        requires
            a < 16,
            b < 16,
    ;
}

proof fn lemma_third_word_fields(p: u32, q: u32)
    requires
        p < 16,
        q < 16,
    ensures
        ((0u32 | (p << 12u32) | (q << 8u32)) >> 12u32) & 0xF == p,
        ((0u32 | (p << 12u32) | (q << 8u32)) >> 8u32) & 0xF == q,
        (0u32 | (p << 12u32) | (q << 8u32)) & 0xFFFF_00FF == 0,
{
    assert(((0u32 | (p << 12u32) | (q << 8u32)) >> 12u32) & 0xF == p) by (bit_vector)
        requires
            p < 16,
            q < 16,
    ;
    assert(((0u32 | (p << 12u32) | (q << 8u32)) >> 8u32) & 0xF == q) by (bit_vector)
        requires
            p < 16,
            q < 16,
    ;
    assert((0u32 | (p << 12u32) | (q << 8u32)) & 0xFFFF_00FF == 0) by (bit_vector)
        requires
            p < 16,
            q < 16,
    ;
}

/// Every field reads back from its own bits of the encoding, and the bits
/// outside the fields keep the default pattern: the field ranges do not
/// overlap, so the order in which fields are set does not matter.
pub proof fn lemma_fields_disjoint(c: XpiNorConfigurationOption)
    ensures
        config_words(c)[0] == DEFAULT_WORD_0,
        config_words(c)[1] >> 28u32 == flash_type_code(c.flash_type),
        (config_words(c)[1] >> 16u32) & 0xF == sequence_code(c.quad_io_enable_sequence),
        config_words(c)[1] & 0xFFFF == DEFAULT_WORD_1,
        (config_words(c)[2] >> 12u32) & 0xF == pin_group_code(c.pin_group),
        (config_words(c)[2] >> 8u32) & 0xF == port_code(c.connect_port),
        config_words(c)[2] & 0xFFFF_00FF == DEFAULT_WORD_2,
{
    lemma_second_word_fields(flash_type_code(c.flash_type), sequence_code(c.quad_io_enable_sequence));
    lemma_third_word_fields(pin_group_code(c.pin_group), port_code(c.connect_port));
}

/// Appends the four bytes of `w`, least significant first.
fn push_le_word(out: &mut Vec<u8>, w: u32)
    ensures
        final(out)@ == old(out)@ + le_bytes(w),
{
    out.push((w & 0xFF) as u8);
    out.push(((w >> 8) & 0xFF) as u8);
    out.push(((w >> 16) & 0xFF) as u8);
    out.push((w >> 24) as u8);
    assert(out@ =~= old(out)@ + le_bytes(w));
}

impl XpiNorConfigurationOption {
    /// The default option: SFDP SDR flash on pin group 1, port A with CS0, of XPI0.
    pub fn new() -> (r: Self)
        ensures
            r == default_option(),
    {
        Self {
            flash_type: FlashType::SfdpSdr,
            quad_io_enable_sequence: QuadIOEnableSequence::NotNeeded,
            pin_group: PinGroup::Group1,
            connect_port: PortConnection::PortACs0,
            instance: Instance::Xpi0,
        }
    }

    /// Sets the type of the flash connected to XPI.
    pub fn flash_type(self, flash_type: FlashType) -> (r: Self)
        ensures
            r == (Self { flash_type, ..self }),
    {
        Self { flash_type, ..self }
    }

    /// Sets the quad I/O enable sequence.
    pub fn quad_io_enable_sequence(self, sequence: QuadIOEnableSequence) -> (r: Self)
        ensures
            r == (Self { quad_io_enable_sequence: sequence, ..self }),
    {
        Self { quad_io_enable_sequence: sequence, ..self }
    }

    /// Sets the XPI pin group used to connect to the flash.
    pub fn pin_group(self, group: PinGroup) -> (r: Self)
        ensures
            r == (Self { pin_group: group, ..self }),
    {
        Self { pin_group: group, ..self }
    }

    /// Sets the XPI port used to connect to the flash.
    pub fn connect_port(self, port: PortConnection) -> (r: Self)
        ensures
            r == (Self { connect_port: port, ..self }),
    {
        Self { connect_port: port, ..self }
    }

    /// Sets the XPI instance that the flash is connected to.
    pub fn instance(self, instance: Instance) -> (r: Self)
        ensures
            r == (Self { instance, ..self }),
    {
        Self { instance, ..self }
    }

    /// The three words of the option.
    pub fn words(&self) -> (r: [u32; 3])
        ensures
            r@ == config_words(*self),
    {
        let w1 = DEFAULT_WORD_1 | (self.flash_type.code() << 28) | (
        self.quad_io_enable_sequence.code() << 16);
        let w2 = DEFAULT_WORD_2 | (self.pin_group.code() << 12) | (self.connect_port.code() << 8);
        let r = [DEFAULT_WORD_0, w1, w2];
        assert(r@ =~= config_words(*self));
        r
    }

    /// Appends the twelve bytes of the option: its three words, little-endian.
    pub fn write(&self, out: &mut Vec<u8>)
        ensures
            final(out)@ == old(out)@ + config_bytes(*self),
    {
        let w = self.words();
        push_le_word(out, w[0]);
        push_le_word(out, w[1]);
        push_le_word(out, w[2]);
        assert(out@ =~= old(out)@ + config_bytes(*self));
    }
}

} // verus!
