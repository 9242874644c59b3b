//! Memory layout generation for HPMicro RISC-V microcontrollers.
//!
//! A `RuntimeBuilder` describes where each section of a firmware image
//! lives on a device family, checks that every chosen memory exists on that
//! device, and renders the linker script that places the sections.

pub mod device;
#[allow(non_snake_case)]
pub mod Family;
pub mod flash;
pub mod image;
pub mod linker;
pub mod text;

pub use device::{Device, Memory, MemoryType};
pub use flash::{
    FlashInterface, FlashSize, FlashType, IOVoltage, Instance, PinGroup, PortConnection,
    QuadIOEnableSequence, SectorEraseSize, SectorSize, XpiNorConfigurationOption,
};
pub use image::{ConfigError, Region, RuntimeBuilder, Section};
