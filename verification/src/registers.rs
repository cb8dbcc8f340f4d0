//! The chip's register map: fixed 8-bit register addresses from the
//! datasheet, the output-routing selection, and the record of one register
//! write as it goes over the bus.

use vstd::prelude::*;

verus! {

/// Identification register (chip family and revision).
pub const REG_ID: u8 = 0x01;
/// Power control 1: master power state of the codec.
pub const REG_POWER_CTL1: u8 = 0x02;
/// Power control 2: output-device routing.
pub const REG_POWER_CTL2: u8 = 0x04;
/// Clocking control.
pub const REG_CLOCKING_CTL: u8 = 0x05;
/// Interface control 1: master/slave mode and audio standard.
pub const REG_INTERFACE_CTL1: u8 = 0x06;
/// Analog zero-cross and soft-ramp settings.
pub const REG_ANALOG_ZC_SR_SETT: u8 = 0x0A;
/// Miscellaneous control, among it the digital soft ramp.
pub const REG_MISC_CTL: u8 = 0x0E;
/// Playback control 2, among it speaker mono mode.
pub const REG_PLAYBACK_CTL2: u8 = 0x0F;
/// PCM channel A volume.
pub const REG_PCMA_VOL: u8 = 0x1A;
/// PCM channel B volume.
pub const REG_PCMB_VOL: u8 = 0x1B;
/// Tone control (bass and treble).
pub const REG_TONE_CTL: u8 = 0x1F;
/// Master volume, channel A.
pub const REG_MASTER_A_VOL: u8 = 0x20;
/// Master volume, channel B.
pub const REG_MASTER_B_VOL: u8 = 0x21;
/// Headphone volume, channel A.
pub const REG_HEADPHONE_A_VOL: u8 = 0x22;
/// Headphone volume, channel B.
pub const REG_HEADPHONE_B_VOL: u8 = 0x23;
/// Speaker volume (attenuation), channel A.
pub const REG_SPEAKER_A_VOL: u8 = 0x24;
/// Speaker volume (attenuation), channel B.
pub const REG_SPEAKER_B_VOL: u8 = 0x25;

/// Mask that keeps the device-family bits of the identification register
/// and drops the revision bits.
pub const ID_MASK: u8 = 0xF8;

/// One register write as it goes over the bus: the device's bus address,
/// the register address inside the device, and the one data byte. Every
/// write on this bus targets exactly one register with exactly one byte.
#[derive(Clone, Copy, Debug, PartialEq, Eq, Structural)]
pub struct RegWrite {
    /// The 7-bit bus address of the device written to.
    pub address: u8,
    /// The register inside the device.
    pub register: u8,
    /// The data byte written.
    pub value: u8,
}

/// Builds a [`RegWrite`]; shorthand for the write-sequence specifications.
pub open spec fn rw(address: u8, register: u8, value: u8) -> RegWrite {
    RegWrite { address, register, value }
}

/// One register read as it completed on the bus: the device's bus address,
/// the register read, and the one data byte that came back.
#[derive(Clone, Copy, Debug, PartialEq, Eq, Structural)]
pub struct RegRead {
    /// The 7-bit bus address of the device read from.
    pub address: u8,
    /// The register inside the device.
    pub register: u8,
    /// The data byte the device answered with.
    pub value: u8,
}

/// Builds a [`RegRead`]; shorthand for the read-history specifications.
pub open spec fn rr(address: u8, register: u8, value: u8) -> RegRead {
    RegRead { address, register, value }
}

/// The output path the chip drives, chosen once at construction. Each
/// variant is a fixed bit pattern for power control 2.
#[derive(Clone, Copy, Debug, PartialEq, Eq, Structural)]
pub enum OutputDevice {
    Speaker,
    Headphone,
    Both,
    Auto,
}

impl OutputDevice {
    /// The routing bit pattern written to power control 2 for this path.
    pub open spec fn value_spec(self) -> u8 {
        match self {
            OutputDevice::Speaker => 0xFA,
            OutputDevice::Headphone => 0xAF,
            OutputDevice::Both => 0xAA,
            OutputDevice::Auto => 0x05,
        }
    }

    pub(crate) fn value(self) -> (r: u8)
        ensures
            r == self.value_spec(),
    {
        match self {
            OutputDevice::Speaker => 0xFA,
            OutputDevice::Headphone => 0xAF,
            OutputDevice::Both => 0xAA,
            OutputDevice::Auto => 0x05,
        }
    }
}

} // verus!
