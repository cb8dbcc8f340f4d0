//! Volume scaling: the caller-facing percent in 0..=100 is rescaled
//! linearly to the chip's native 0..=255 level, then folded into the
//! wrap-around attenuation encoding the master-volume registers use.
//!
//! Percents above 100 are clamped to 100; that is this driver's documented
//! policy for out-of-range input.

use vstd::prelude::*;

verus! {

/// The volume percent actually used: values above 100 are clamped to 100.
pub open spec fn clamped_percent(percent: u8) -> u8 {
    if percent > 100 {
        100u8
    } else {
        percent
    }
}

/// Linear rescaling of a percent in 0..=100 to the chip's native 0..=255
/// volume level, rounded to the nearest step.
pub open spec fn native_level(percent: u8) -> u8
    recommends
        percent <= 100,
{
    (((percent as int) * 255 + 50) / 100) as u8
}

/// The byte written to both master-volume registers for a native level.
/// The chip's attenuation encoding wraps: levels above 0xE6 become small
/// offsets (native minus 0xE7), the rest are shifted up by 0x19. The two
/// constants are fixed by the chip's register semantics.
pub open spec fn encoded_level(native: u8) -> u8 {
    if native > 0xE6 {
        ((native as int) - 0xE7) as u8
    } else {
        ((native as int) + 0x19) as u8
    }
}

/// Inverse of [`encoded_level`]: the native level an encoded register byte
/// stands for, used to compare loudness across the wrap boundary.
pub open spec fn decoded_level(encoded: u8) -> u8 {
    if encoded <= 0x18 {
        ((encoded as int) + 0xE7) as u8
    } else {
        ((encoded as int) - 0x19) as u8
    }
}

/// The master-volume register byte for a caller-facing percent.
pub open spec fn master_volume_byte_spec(percent: u8) -> u8 {
    encoded_level(native_level(clamped_percent(percent)))
}

/// Folds a native 0..=255 level into the chip's attenuation encoding.
pub fn encode_native(native: u8) -> (r: u8)
    ensures
        r == encoded_level(native),
{
    if native > 0xE6 {
        native - 0xE7
    } else {
        native + 0x19
    }
}

/// Reads an encoded master-volume byte back as the native level it
/// stands for.
pub fn decode_encoded(encoded: u8) -> (r: u8)
    ensures
        r == decoded_level(encoded),
{
    if encoded <= 0x18 {
        encoded + 0xE7
    } else {
        encoded - 0x19
    }
}

/// The byte the driver writes to both master-volume registers for a
/// percent; clamps, rescales and encodes in one step.
pub fn master_volume_byte(percent: u8) -> (r: u8)
    ensures
        r == master_volume_byte_spec(percent),
{
    let p: u8 = if percent > 100 {
        100
    } else {
        percent
    };
    let wide: u32 = ((p as u32) * 255 + 50) / 100;
    assert(wide <= 255) by {
        assert((p as u32) * 255 + 50 <= 25550);
    };
    encode_native(wide as u8)
}

} // verus!
