//! The driver's laws: properties that relate several operations or hold
//! over the whole input range, stated over the same spec functions the
//! operations' contracts use, and proved once and for all.

use vstd::prelude::*;
use crate::controller::init_writes;
use crate::controller::play_log_delta;
use crate::controller::play_writes;
use crate::controller::resume_writes;
use crate::registers::rw;
use crate::registers::OutputDevice;
use crate::registers::RegWrite;
use crate::registers::REG_PLAYBACK_CTL2;
use crate::registers::REG_POWER_CTL1;
use crate::registers::REG_SPEAKER_A_VOL;
use crate::registers::REG_SPEAKER_B_VOL;
use crate::volume::clamped_percent;
use crate::volume::decoded_level;
use crate::volume::encoded_level;
use crate::volume::master_volume_byte_spec;
use crate::volume::native_level;

verus! {

/// The attenuation encoding loses nothing: decoding an encoded native
/// level gives the native level back, across the wrap boundary too.
pub proof fn lemma_encoding_round_trip(native: u8)
    ensures
        decoded_level(encoded_level(native)) == native,
{
}

/// Rescaling percents to native levels is monotonic: a higher percent
/// never gives a lower native level.
pub proof fn lemma_native_level_monotonic(p1: u8, p2: u8)
    requires
        p1 <= p2,
        p2 <= 100,
    ensures
        native_level(p1) <= native_level(p2),
{
    let x = (p1 as int) * 255 + 50;
    let y = (p2 as int) * 255 + 50;
    vstd::arithmetic::div_mod::lemma_div_pos_is_pos(x, 100);
    vstd::arithmetic::div_mod::lemma_div_is_ordered(x, y, 100);
    vstd::arithmetic::div_mod::lemma_div_is_ordered(y, 25550, 100);
}

/// Volume scaling is monotonic in acoustic level: for percents p1 <= p2,
/// the byte the driver writes to the master-volume registers for p2
/// stands for an acoustic level at least that of p1 — read through the
/// documented decoding, not by raw byte comparison, since the encoding
/// wraps.
pub proof fn lemma_volume_scaling_monotonic(p1: u8, p2: u8)
    requires
        p1 <= p2,
        p2 <= 100,
    ensures
        decoded_level(master_volume_byte_spec(p1)) <= decoded_level(master_volume_byte_spec(p2)),
{
    lemma_native_level_monotonic(p1, p2);
    lemma_encoding_round_trip(native_level(p1));
    lemma_encoding_round_trip(native_level(p2));
    assert(clamped_percent(p1) == p1);
    assert(clamped_percent(p2) == p2);
}

/// Starting playback is idempotent at the register level: from the
/// playing state `play` adds nothing to the write history, so two
/// consecutive plays put the power-up script on the bus exactly once.
pub proof fn lemma_play_idempotent(address: u8)
    ensures
        play_log_delta(false, address) == Seq::<RegWrite>::empty(),
        play_log_delta(true, address) + play_log_delta(false, address) == play_writes(address),
{
    assert(play_writes(address) + Seq::<RegWrite>::empty() =~= play_writes(address));
}

/// `stop` then `resume` restores the playing power value bit for bit:
/// the power-control write `resume` ends with is identical to the one
/// `play` ends with.
pub proof fn lemma_resume_restores_play_power(address: u8)
    ensures
        resume_writes(address).last() == play_writes(address).last(),
        resume_writes(address).last() == rw(address, REG_POWER_CTL1, 0x9E),
{
}

/// Construction for the headphone path never touches the speaker
/// attenuation registers or speaker mono mode.
pub proof fn lemma_headphone_init_skips_speaker(address: u8, volume: u8)
    ensures
        forall|i: int|
            0 <= i < init_writes(address, OutputDevice::Headphone, volume).len() ==> {
                let reg = (#[trigger] init_writes(address, OutputDevice::Headphone, volume)[
                    i
                ]).register;
                reg != REG_SPEAKER_A_VOL && reg != REG_SPEAKER_B_VOL && reg != REG_PLAYBACK_CTL2
            },
{
}

/// Construction for every output path other than headphone issues the
/// speaker mono-mode write and both speaker attenuation writes.
pub proof fn lemma_other_init_configures_speaker(address: u8, device: OutputDevice, volume: u8)
    requires
        device != OutputDevice::Headphone,
    ensures
        init_writes(address, device, volume).contains(rw(address, REG_PLAYBACK_CTL2, 0x06)),
        init_writes(address, device, volume).contains(rw(address, REG_SPEAKER_A_VOL, 0x00)),
        init_writes(address, device, volume).contains(rw(address, REG_SPEAKER_B_VOL, 0x00)),
{
    let s = init_writes(address, device, volume);
    assert(s[6] == rw(address, REG_PLAYBACK_CTL2, 0x06));
    assert(s[7] == rw(address, REG_SPEAKER_A_VOL, 0x00));
    assert(s[8] == rw(address, REG_SPEAKER_B_VOL, 0x00));
}

} // verus!
