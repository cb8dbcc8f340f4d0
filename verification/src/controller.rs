//! The device controller: owns the bus handle, remembers the device's bus
//! address, the transport state and whether writes are verified, and
//! drives the construction and transport write sequences.
//!
//! Every operation's contract pins the exact register writes it appends to
//! the bus history; with verification on, also the exact read-backs — a
//! successful verified write means the byte read back equaled the byte
//! written — and in every mode the exact number of transactions attempted,
//! so no operation retries or reads behind the contract's back. On failure
//! an operation stops at the first bad write, so the history extends by a
//! prefix of the operation's sequence (the failing write itself may
//! already be in the history when only its read-back verification failed).

use vstd::prelude::*;
use crate::bus::DriverError;
use crate::bus::RegisterBus;
use crate::registers::rr;
use crate::registers::rw;
use crate::registers::OutputDevice;
use crate::registers::RegRead;
use crate::registers::RegWrite;
use crate::registers::ID_MASK;
use crate::registers::REG_ANALOG_ZC_SR_SETT;
use crate::registers::REG_CLOCKING_CTL;
use crate::registers::REG_HEADPHONE_A_VOL;
use crate::registers::REG_HEADPHONE_B_VOL;
use crate::registers::REG_ID;
use crate::registers::REG_INTERFACE_CTL1;
use crate::registers::REG_MASTER_A_VOL;
use crate::registers::REG_MASTER_B_VOL;
use crate::registers::REG_MISC_CTL;
use crate::registers::REG_PCMA_VOL;
use crate::registers::REG_PCMB_VOL;
use crate::registers::REG_PLAYBACK_CTL2;
use crate::registers::REG_POWER_CTL1;
use crate::registers::REG_POWER_CTL2;
use crate::registers::REG_SPEAKER_A_VOL;
use crate::registers::REG_SPEAKER_B_VOL;
use crate::registers::REG_TONE_CTL;
use crate::volume::master_volume_byte;
use crate::volume::master_volume_byte_spec;

verus! {

/// True when every write in `s` targets the device at `address`.
pub open spec fn all_addressed(s: Seq<RegWrite>, address: u8) -> bool {
    forall|i: int| 0 <= i < s.len() ==> (#[trigger] s[i]).address == address
}

/// The read-backs a verifying driver appends beside a script of writes:
/// one read per write, each echoing the byte just written. A successful
/// verified operation's read history grows by exactly this.
pub open spec fn echo_reads(s: Seq<RegWrite>) -> Seq<RegRead> {
    s.map(|i: int, w: RegWrite| rr(w.address, w.register, w.value))
}

/// The two master-volume writes for a percent: both stereo registers
/// always receive the identical encoded byte.
pub open spec fn volume_writes(address: u8, percent: u8) -> Seq<RegWrite> {
    seq![
        rw(address, REG_MASTER_A_VOL, master_volume_byte_spec(percent)),
        rw(address, REG_MASTER_B_VOL, master_volume_byte_spec(percent)),
    ]
}

/// The writes that open the speaker path: mono mode and zeroed speaker
/// attenuation. Empty for the headphone-only path, which never touches
/// these registers.
pub open spec fn speaker_writes(address: u8, device: OutputDevice) -> Seq<RegWrite> {
    if device == OutputDevice::Headphone {
        Seq::<RegWrite>::empty()
    } else {
        seq![
            rw(address, REG_PLAYBACK_CTL2, 0x06),
            rw(address, REG_SPEAKER_A_VOL, 0x00),
            rw(address, REG_SPEAKER_B_VOL, 0x00),
        ]
    }
}

/// The construction sequence, strictly ordered: power the codec down,
/// select the output routing, auto-detect the clock, set slave mode and
/// audio standard, set the master volume, open the speaker path if one is
/// routed, disable both soft ramps, and set the tone and PCM tuning
/// defaults.
pub open spec fn init_writes(address: u8, device: OutputDevice, percent: u8) -> Seq<RegWrite> {
    seq![
        rw(address, REG_POWER_CTL1, 0x01),
        rw(address, REG_POWER_CTL2, device.value_spec()),
        rw(address, REG_CLOCKING_CTL, 0x81),
        rw(address, REG_INTERFACE_CTL1, 0x04),
    ] + volume_writes(address, percent) + speaker_writes(address, device) + seq![
        rw(address, REG_ANALOG_ZC_SR_SETT, 0x00),
        rw(address, REG_MISC_CTL, 0x04),
        rw(address, REG_TONE_CTL, 0x0F),
        rw(address, REG_PCMA_VOL, 0x0A),
        rw(address, REG_PCMB_VOL, 0x0A),
    ]
}

/// The writes that mute the output: route everything off and drop the
/// headphone volumes to the fixed low (but not silent) value — the chip
/// has no true digital mute bit for this path.
pub open spec fn mute_writes(address: u8) -> Seq<RegWrite> {
    seq![
        rw(address, REG_POWER_CTL2, 0xFF),
        rw(address, REG_HEADPHONE_A_VOL, 0x01),
        rw(address, REG_HEADPHONE_B_VOL, 0x01),
    ]
}

/// The writes that unmute the output: headphone volumes back to the 0 dB
/// reference.
pub open spec fn unmute_writes(address: u8) -> Seq<RegWrite> {
    seq![rw(address, REG_HEADPHONE_A_VOL, 0x00), rw(address, REG_HEADPHONE_B_VOL, 0x00)]
}

/// What `play` issues when the driver is stopped: enable the digital soft
/// ramp, unmute, then power the codec up.
pub open spec fn play_writes(address: u8) -> Seq<RegWrite> {
    seq![rw(address, REG_MISC_CTL, 0x06)] + unmute_writes(address) + seq![
        rw(address, REG_POWER_CTL1, 0x9E),
    ]
}

/// What `play` appends to the write history for the transport state it
/// starts from: the full power-up script from the stopped state, nothing
/// when already playing.
pub open spec fn play_log_delta(stopped: bool, address: u8) -> Seq<RegWrite> {
    if stopped {
        play_writes(address)
    } else {
        Seq::<RegWrite>::empty()
    }
}

/// What `pause` issues: mute first, then the power-save value.
pub open spec fn pause_writes(address: u8) -> Seq<RegWrite> {
    mute_writes(address) + seq![rw(address, REG_POWER_CTL1, 0x01)]
}

/// What `resume` issues: unmute, then the same powered value `play` uses.
pub open spec fn resume_writes(address: u8) -> Seq<RegWrite> {
    unmute_writes(address) + seq![rw(address, REG_POWER_CTL1, 0x9E)]
}

/// What `stop` issues: mute first, disable the digital soft ramp, then
/// power the DAC and speaker down.
pub open spec fn stop_writes(address: u8) -> Seq<RegWrite> {
    mute_writes(address) + seq![
        rw(address, REG_MISC_CTL, 0x04),
        rw(address, REG_POWER_CTL1, 0x9F),
    ]
}

/// Driver for the codec. Owns the bus exclusively for its lifetime; the
/// handle is moved in at construction and comes back out of `release` or
/// a failed construction.
#[derive(Debug)]
pub struct CS43L22<B: RegisterBus> {
    bus: B,
    address: u8,
    stopped: bool,
    verify: bool,
}

impl<B: RegisterBus> CS43L22<B> {
    /// The history of register writes on the driver's bus.
    pub closed spec fn writes(&self) -> Seq<RegWrite> {
        self.bus.writes()
    }

    /// The history of register reads on the driver's bus, each with the
    /// byte the device answered.
    pub closed spec fn reads(&self) -> Seq<RegRead> {
        self.bus.reads()
    }

    /// How many transactions the driver's bus has attempted, failed ones
    /// too: the driver retries nothing.
    pub closed spec fn attempts(&self) -> nat {
        self.bus.attempts()
    }

    /// The device bus address the driver was constructed with.
    pub closed spec fn device_address(&self) -> u8 {
        self.address
    }

    /// The transport state: true from construction or `stop`/`pause`
    /// until the next `play`/`resume`.
    pub closed spec fn is_stopped(&self) -> bool {
        self.stopped
    }

    /// Whether every register write is verified by an immediate
    /// read-back.
    pub closed spec fn verifies_writes(&self) -> bool {
        self.verify
    }

    /// The address and configuration of `other` are those of `self`:
    /// no operation after construction changes them.
    pub open spec fn same_device(self, other: Self) -> bool {
        other.device_address() == self.device_address() && other.verifies_writes()
            == self.verifies_writes()
    }

    /// Writes one register of the device, and when verification is on,
    /// reads it back and reports a mismatch as a distinct error.
    fn write_register(&mut self, register: u8, value: u8) -> (r: Result<(), DriverError<B::Error>>)
        ensures
            old(self).same_device(*final(self)),
            final(self).is_stopped() == old(self).is_stopped(),
            r is Ok ==> final(self).writes() == old(self).writes().push(
                rw(old(self).device_address(), register, value),
            ),
            r is Err ==> final(self).writes() == old(self).writes() || final(self).writes() == old(self).writes().push(rw(old(self).device_address(), register, value)),
            r matches Err(DriverError::WriteVerification { register: vr, expected, actual })
                ==> vr == register && expected == value && actual != value && final(self).writes()
                == old(self).writes().push(rw(old(self).device_address(), register, value))
                && final(self).reads() == old(self).reads().push(
                rr(old(self).device_address(), register, actual),
            ) && final(self).attempts() == old(self).attempts() + 2,
            !old(self).verifies_writes() ==> !(r matches Err(
                DriverError::WriteVerification { .. },
            )),
            !old(self).verifies_writes() ==> final(self).reads() == old(self).reads() && final(self).attempts() == old(self).attempts() + 1,
            !old(self).verifies_writes() && r is Err ==> final(self).writes() == old(self).writes(),
            old(self).verifies_writes() ==> old(self).attempts() + 1 <= final(self).attempts()
                <= old(self).attempts() + 2,
            old(self).verifies_writes() && r is Ok ==> final(self).reads() == old(self).reads().push(rr(old(self).device_address(), register, value)) && final(self).attempts() == old(self).attempts() + 2,
            old(self).verifies_writes() && (r matches Err(DriverError::Bus(_)))
                ==> final(self).reads() == old(self).reads(),
    {
        let addr = self.address;
        match self.bus.write_register(addr, register, value) {
            Ok(()) => {},
            Err(e) => {
                return Err(DriverError::Bus(e));
            },
        }
        if self.verify {
            match self.bus.read_register(addr, register) {
                Ok(read_back) => {
                    if read_back != value {
                        return Err(
                            DriverError::WriteVerification {
                                register,
                                expected: value,
                                actual: read_back,
                            },
                        );
                    }
                },
                Err(e) => {
                    return Err(DriverError::Bus(e));
                },
            }
        }
        Ok(())
    }

    /// Reads one register of the device back: a single read, no retries.
    fn read_register(&mut self, register: u8) -> (r: Result<u8, DriverError<B::Error>>)
        ensures
            old(self).same_device(*final(self)),
            final(self).is_stopped() == old(self).is_stopped(),
            final(self).writes() == old(self).writes(),
            final(self).attempts() == old(self).attempts() + 1,
            r matches Ok(v) ==> final(self).reads() == old(self).reads().push(
                rr(old(self).device_address(), register, v),
            ),
            r is Err ==> final(self).reads() == old(self).reads(),
            !(r matches Err(DriverError::WriteVerification { .. })),
    {
        match self.bus.read_register(self.address, register) {
            Ok(v) => Ok(v),
            Err(e) => Err(DriverError::Bus(e)),
        }
    }

    /// Issues a fixed script of writes in order, stopping at the first
    /// failure.
    fn write_steps(&mut self, steps: &Vec<RegWrite>) -> (r: Result<(), DriverError<B::Error>>)
        requires
            all_addressed(steps@, old(self).device_address()),
        ensures
            old(self).same_device(*final(self)),
            final(self).is_stopped() == old(self).is_stopped(),
            r is Ok ==> final(self).writes() == old(self).writes() + steps@,
            r is Err ==> exists|i: int|
                0 <= i <= steps@.len() && final(self).writes() == old(self).writes()
                    + steps@.take(i),
            r matches Err(DriverError::WriteVerification { expected, actual, .. }) ==> actual
                != expected,
            !old(self).verifies_writes() ==> !(r matches Err(
                DriverError::WriteVerification { .. },
            )),
            !old(self).verifies_writes() ==> final(self).reads() == old(self).reads(),
            !old(self).verifies_writes() && r is Ok ==> final(self).attempts() == old(self).attempts() + steps@.len(),
            old(self).verifies_writes() && r is Ok ==> final(self).reads() == old(self).reads()
                + echo_reads(steps@) && final(self).attempts() == old(self).attempts() + 2
                * steps@.len(),
    {
        let mut i: usize = 0;
        proof {
            assert(old(self).writes() + steps@.take(0) =~= old(self).writes());
            assert(old(self).reads() + echo_reads(steps@.take(0)) =~= old(self).reads());
        }
        while i < steps.len()
            invariant
                i <= steps@.len(),
                all_addressed(steps@, old(self).device_address()),
                old(self).same_device(*self),
                self.is_stopped() == old(self).is_stopped(),
                self.writes() == old(self).writes() + steps@.take(i as int),
                !old(self).verifies_writes() ==> self.reads() == old(self).reads()
                    && self.attempts() == old(self).attempts() + i,
                old(self).verifies_writes() ==> self.reads() == old(self).reads() + echo_reads(
                    steps@.take(i as int),
                ) && self.attempts() == old(self).attempts() + 2 * i,
            decreases steps@.len() - i,
        {
            let s = steps[i];
            let ghost before = self.writes();
            let ghost reads_before = self.reads();
            match self.write_register(s.register, s.value) {
                Ok(()) => {
                    proof {
                        assert(steps@[i as int].address == old(self).device_address());
                        assert(rw(old(self).device_address(), s.register, s.value) == steps@[
                            i as int
                        ]);
                        assert(before.push(steps@[i as int]) =~= old(self).writes() + steps@.take(
                            i as int + 1,
                        ));
                        if old(self).verifies_writes() {
                            assert(rr(old(self).device_address(), s.register, s.value)
                                == echo_reads(steps@.take(i as int + 1))[i as int]);
                            assert(reads_before.push(
                                echo_reads(steps@.take(i as int + 1))[i as int],
                            ) =~= old(self).reads() + echo_reads(steps@.take(i as int + 1)));
                        }
                    }
                },
                Err(e) => {
                    proof {
                        assert(steps@[i as int].address == old(self).device_address());
                        assert(rw(old(self).device_address(), s.register, s.value) == steps@[
                            i as int
                        ]);
                        assert(before.push(steps@[i as int]) =~= old(self).writes() + steps@.take(
                            i as int + 1,
                        ));
                        if self.writes() == before {
                            assert(self.writes() == old(self).writes() + steps@.take(i as int));
                        } else {
                            assert(self.writes() == old(self).writes() + steps@.take(
                                i as int + 1,
                            ));
                        }
                    }
                    return Err(e);
                },
            }
            i = i + 1;
        }
        proof {
            assert(steps@.take(steps@.len() as int) =~= steps@);
        }
        Ok(())
    }

    /// Constructs the driver and runs the construction sequence. On
    /// success the driver is in the stopped state; any step failing
    /// aborts the sequence, and the bus handle comes back beside the
    /// error, so no partially configured driver is ever observable.
    ///
    /// `volume` is the initial volume percent (values above 100 are
    /// clamped to 100); `verify` turns read-back verification of every
    /// write on.
    pub fn new(bus: B, address: u8, output_device: OutputDevice, volume: u8, verify: bool) -> (r:
        Result<Self, (B, DriverError<B::Error>)>)
        ensures
            r matches Ok(c) ==> c.writes() == bus.writes() + init_writes(
                address,
                output_device,
                volume,
            ) && c.is_stopped() && c.device_address() == address && c.verifies_writes() == verify
                && (verify ==> c.reads() == bus.reads() + echo_reads(init_writes(address, output_device, volume))
                    && c.attempts() == bus.attempts() + 2 * init_writes(address, output_device, volume).len())
                && (!verify ==> c.reads() == bus.reads() && c.attempts() == bus.attempts()
                    + init_writes(address, output_device, volume).len()),
            r matches Err((b, e)) ==> (exists|i: int|
                0 <= i <= init_writes(address, output_device, volume).len() && b.writes()
                    == bus.writes() + init_writes(address, output_device, volume).take(i)) && (
            e matches DriverError::WriteVerification { expected, actual, .. } ==> actual
                != expected) && (!verify ==> !(e matches DriverError::WriteVerification { .. }))
                && (!verify ==> b.reads() == bus.reads()),
    {
        let steps = init_step_vec(address, output_device, volume);
        let mut c = CS43L22 { bus, address, stopped: true, verify };
        match c.write_steps(&steps) {
            Ok(()) => Ok(c),
            Err(e) => Err((c.release(), e)),
        }
    }

    /// Consumes the driver and hands the bus handle back, with no further
    /// register writes: the chip stays in whatever state it was left.
    pub fn release(self) -> (r: B)
        ensures
            r.writes() == self.writes(),
            r.reads() == self.reads(),
            r.attempts() == self.attempts(),
    {
        self.bus
    }

    /// Reads the identification register and masks off the revision bits,
    /// leaving the fixed device-family code.
    pub fn read_id(&mut self) -> (r: Result<u8, DriverError<B::Error>>)
        ensures
            old(self).same_device(*final(self)),
            final(self).is_stopped() == old(self).is_stopped(),
            final(self).writes() == old(self).writes(),
            final(self).attempts() == old(self).attempts() + 1,
            r matches Ok(v) ==> v & ID_MASK == v,
            r matches Ok(v) ==> exists|b: u8|
                final(self).reads() == old(self).reads().push(
                    rr(old(self).device_address(), REG_ID, b),
                ) && v == (b & ID_MASK),
            r is Err ==> final(self).reads() == old(self).reads(),
            !(r matches Err(DriverError::WriteVerification { .. })),
    {
        match self.read_register(REG_ID) {
            Ok(id) => {
                proof {
                    assert((id & 0xF8u8) & 0xF8u8 == id & 0xF8u8) by (bit_vector);
                    assert(ID_MASK == 0xF8u8);
                    assert(self.reads() == old(self).reads().push(
                        rr(old(self).device_address(), REG_ID, id),
                    ));
                }
                Ok(id & ID_MASK)
            },
            Err(e) => Err(e),
        }
    }

    /// Starts playback. From the playing state this is a no-op: repeated
    /// calls issue no redundant power writes, which could click audibly.
    /// From the stopped state it enables the digital soft ramp, unmutes,
    /// and powers the codec up.
    pub fn play(&mut self) -> (r: Result<(), DriverError<B::Error>>)
        ensures
            old(self).same_device(*final(self)),
            !old(self).is_stopped() ==> r is Ok && final(self).writes() == old(self).writes()
                && final(self).reads() == old(self).reads() && final(self).attempts() == old(self).attempts(),
            r is Ok ==> !final(self).is_stopped() && final(self).writes() == old(self).writes()
                + play_log_delta(old(self).is_stopped(), old(self).device_address()),
            !old(self).verifies_writes() ==> final(self).reads() == old(self).reads(),
            old(self).is_stopped() && r is Ok && !old(self).verifies_writes() ==> final(self).attempts() == old(self).attempts() + play_writes(old(self).device_address()).len(),
            old(self).is_stopped() && r is Ok && old(self).verifies_writes() ==> final(self).reads()
                == old(self).reads() + echo_reads(play_writes(old(self).device_address()))
                && final(self).attempts() == old(self).attempts() + 2 * play_writes(
                old(self).device_address(),
            ).len(),
            r is Err ==> final(self).is_stopped() == old(self).is_stopped() && exists|i: int|
                0 <= i <= play_writes(old(self).device_address()).len() && final(self).writes()
                    == old(self).writes() + play_writes(old(self).device_address()).take(i),
            r matches Err(DriverError::WriteVerification { expected, actual, .. }) ==> actual
                != expected,
            !old(self).verifies_writes() ==> !(r matches Err(
                DriverError::WriteVerification { .. },
            )),
    {
        if !self.stopped {
            proof {
                assert(old(self).writes() + play_log_delta(false, old(self).device_address())
                    =~= old(self).writes());
            }
            return Ok(());
        }
        let ghost a = old(self).device_address();
        match self.write_register(REG_MISC_CTL, 0x06) {
            Ok(()) => {},
            Err(e) => {
                proof {
                    assert(old(self).writes() + play_writes(a).take(0) =~= old(self).writes());
                    assert(old(self).writes() + play_writes(a).take(1) =~= old(self).writes().push(rw(a, REG_MISC_CTL, 0x06)));
                }
                return Err(e);
            },
        }
        let ghost mid = self.writes();
        proof {
            assert(mid =~= old(self).writes() + play_writes(a).take(1));
        }
        match self.set_mute(false) {
            Ok(()) => {},
            Err(e) => {
                proof {
                    let j = choose|j: int|
                        0 <= j <= unmute_writes(a).len() && self.writes() == mid + unmute_writes(
                            a,
                        ).take(j);
                    assert(self.writes() =~= old(self).writes() + play_writes(a).take(1 + j));
                }
                return Err(e);
            },
        }
        let ghost mid2 = self.writes();
        proof {
            assert(mid2 =~= old(self).writes() + play_writes(a).take(3));
        }
        match self.write_register(REG_POWER_CTL1, 0x9E) {
            Ok(()) => {},
            Err(e) => {
                proof {
                    assert(mid2.push(rw(a, REG_POWER_CTL1, 0x9E)) =~= old(self).writes()
                        + play_writes(a).take(4));
                    if self.writes() == mid2 {
                        assert(self.writes() == old(self).writes() + play_writes(a).take(3));
                    } else {
                        assert(self.writes() == old(self).writes() + play_writes(a).take(4));
                    }
                }
                return Err(e);
            },
        }
        self.stopped = false;
        proof {
            assert(self.writes() =~= old(self).writes() + play_writes(a));
            if old(self).verifies_writes() {
                assert(self.reads() =~= old(self).reads() + echo_reads(play_writes(a)));
            }
        }
        Ok(())
    }

    /// Pauses playback: mutes the output first, then puts the codec in
    /// power-save mode. Safe to repeat; the driver counts as stopped
    /// afterwards, so `resume` (or `play`) starts it again.
    pub fn pause(&mut self) -> (r: Result<(), DriverError<B::Error>>)
        ensures
            old(self).same_device(*final(self)),
            r is Ok ==> final(self).is_stopped() && final(self).writes() == old(self).writes()
                + pause_writes(old(self).device_address()),
            r is Err ==> final(self).is_stopped() == old(self).is_stopped() && exists|i: int|
                0 <= i <= pause_writes(old(self).device_address()).len() && final(self).writes()
                    == old(self).writes() + pause_writes(old(self).device_address()).take(i),
            !old(self).verifies_writes() ==> final(self).reads() == old(self).reads(),
            r is Ok && !old(self).verifies_writes() ==> final(self).attempts() == old(self).attempts() + pause_writes(old(self).device_address()).len(),
            r is Ok && old(self).verifies_writes() ==> final(self).reads() == old(self).reads()
                + echo_reads(pause_writes(old(self).device_address())) && final(self).attempts()
                == old(self).attempts() + 2 * pause_writes(old(self).device_address()).len(),
            r matches Err(DriverError::WriteVerification { expected, actual, .. }) ==> actual
                != expected,
            !old(self).verifies_writes() ==> !(r matches Err(
                DriverError::WriteVerification { .. },
            )),
    {
        let ghost a = old(self).device_address();
        match self.set_mute(true) {
            Ok(()) => {},
            Err(e) => {
                proof {
                    let j = choose|j: int|
                        0 <= j <= mute_writes(a).len() && self.writes() == old(self).writes()
                            + mute_writes(a).take(j);
                    assert(self.writes() =~= old(self).writes() + pause_writes(a).take(j));
                }
                return Err(e);
            },
        }
        let ghost mid = self.writes();
        proof {
            assert(mid =~= old(self).writes() + pause_writes(a).take(3));
        }
        match self.write_register(REG_POWER_CTL1, 0x01) {
            Ok(()) => {},
            Err(e) => {
                proof {
                    assert(mid.push(rw(a, REG_POWER_CTL1, 0x01)) =~= old(self).writes()
                        + pause_writes(a).take(4));
                    if self.writes() == mid {
                        assert(self.writes() == old(self).writes() + pause_writes(a).take(3));
                    } else {
                        assert(self.writes() == old(self).writes() + pause_writes(a).take(4));
                    }
                }
                return Err(e);
            },
        }
        self.stopped = true;
        proof {
            assert(self.writes() =~= old(self).writes() + pause_writes(a));
            if old(self).verifies_writes() {
                assert(self.reads() =~= old(self).reads() + echo_reads(pause_writes(a)));
            }
        }
        Ok(())
    }

    /// Resumes playback: unmutes first, then writes the same powered
    /// value `play` uses to power control 1.
    pub fn resume(&mut self) -> (r: Result<(), DriverError<B::Error>>)
        ensures
            old(self).same_device(*final(self)),
            r is Ok ==> !final(self).is_stopped() && final(self).writes() == old(self).writes()
                + resume_writes(old(self).device_address()),
            r is Err ==> final(self).is_stopped() == old(self).is_stopped() && exists|i: int|
                0 <= i <= resume_writes(old(self).device_address()).len() && final(self).writes()
                    == old(self).writes() + resume_writes(old(self).device_address()).take(i),
            !old(self).verifies_writes() ==> final(self).reads() == old(self).reads(),
            r is Ok && !old(self).verifies_writes() ==> final(self).attempts() == old(self).attempts() + resume_writes(old(self).device_address()).len(),
            r is Ok && old(self).verifies_writes() ==> final(self).reads() == old(self).reads()
                + echo_reads(resume_writes(old(self).device_address())) && final(self).attempts()
                == old(self).attempts() + 2 * resume_writes(old(self).device_address()).len(),
            r matches Err(DriverError::WriteVerification { expected, actual, .. }) ==> actual
                != expected,
            !old(self).verifies_writes() ==> !(r matches Err(
                DriverError::WriteVerification { .. },
            )),
    {
        let ghost a = old(self).device_address();
        match self.set_mute(false) {
            Ok(()) => {},
            Err(e) => {
                proof {
                    let j = choose|j: int|
                        0 <= j <= unmute_writes(a).len() && self.writes() == old(self).writes()
                            + unmute_writes(a).take(j);
                    assert(self.writes() =~= old(self).writes() + resume_writes(a).take(j));
                }
                return Err(e);
            },
        }
        let ghost mid = self.writes();
        proof {
            assert(mid =~= old(self).writes() + resume_writes(a).take(2));
        }
        match self.write_register(REG_POWER_CTL1, 0x9E) {
            Ok(()) => {},
            Err(e) => {
                proof {
                    assert(mid.push(rw(a, REG_POWER_CTL1, 0x9E)) =~= old(self).writes()
                        + resume_writes(a).take(3));
                    if self.writes() == mid {
                        assert(self.writes() == old(self).writes() + resume_writes(a).take(2));
                    } else {
                        assert(self.writes() == old(self).writes() + resume_writes(a).take(3));
                    }
                }
                return Err(e);
            },
        }
        self.stopped = false;
        proof {
            assert(self.writes() =~= old(self).writes() + resume_writes(a));
            if old(self).verifies_writes() {
                assert(self.reads() =~= old(self).reads() + echo_reads(resume_writes(a)));
            }
        }
        Ok(())
    }

    /// Stops playback: mutes the output first, disables the digital soft
    /// ramp, then powers the DAC and speaker down.
    pub fn stop(&mut self) -> (r: Result<(), DriverError<B::Error>>)
        ensures
            old(self).same_device(*final(self)),
            r is Ok ==> final(self).is_stopped() && final(self).writes() == old(self).writes()
                + stop_writes(old(self).device_address()),
            r is Err ==> final(self).is_stopped() == old(self).is_stopped() && exists|i: int|
                0 <= i <= stop_writes(old(self).device_address()).len() && final(self).writes()
                    == old(self).writes() + stop_writes(old(self).device_address()).take(i),
            !old(self).verifies_writes() ==> final(self).reads() == old(self).reads(),
            r is Ok && !old(self).verifies_writes() ==> final(self).attempts() == old(self).attempts() + stop_writes(old(self).device_address()).len(),
            r is Ok && old(self).verifies_writes() ==> final(self).reads() == old(self).reads()
                + echo_reads(stop_writes(old(self).device_address())) && final(self).attempts()
                == old(self).attempts() + 2 * stop_writes(old(self).device_address()).len(),
            r matches Err(DriverError::WriteVerification { expected, actual, .. }) ==> actual
                != expected,
            !old(self).verifies_writes() ==> !(r matches Err(
                DriverError::WriteVerification { .. },
            )),
    {
        let ghost a = old(self).device_address();
        match self.set_mute(true) {
            Ok(()) => {},
            Err(e) => {
                proof {
                    let j = choose|j: int|
                        0 <= j <= mute_writes(a).len() && self.writes() == old(self).writes()
                            + mute_writes(a).take(j);
                    assert(self.writes() =~= old(self).writes() + stop_writes(a).take(j));
                }
                return Err(e);
            },
        }
        let ghost mid = self.writes();
        proof {
            assert(mid =~= old(self).writes() + stop_writes(a).take(3));
        }
        match self.write_register(REG_MISC_CTL, 0x04) {
            Ok(()) => {},
            Err(e) => {
                proof {
                    assert(mid.push(rw(a, REG_MISC_CTL, 0x04)) =~= old(self).writes()
                        + stop_writes(a).take(4));
                    if self.writes() == mid {
                        assert(self.writes() == old(self).writes() + stop_writes(a).take(3));
                    } else {
                        assert(self.writes() == old(self).writes() + stop_writes(a).take(4));
                    }
                }
                return Err(e);
            },
        }
        let ghost mid2 = self.writes();
        proof {
            assert(mid2 =~= old(self).writes() + stop_writes(a).take(4));
        }
        match self.write_register(REG_POWER_CTL1, 0x9F) {
            Ok(()) => {},
            Err(e) => {
                proof {
                    assert(mid2.push(rw(a, REG_POWER_CTL1, 0x9F)) =~= old(self).writes()
                        + stop_writes(a).take(5));
                    if self.writes() == mid2 {
                        assert(self.writes() == old(self).writes() + stop_writes(a).take(4));
                    } else {
                        assert(self.writes() == old(self).writes() + stop_writes(a).take(5));
                    }
                }
                return Err(e);
            },
        }
        self.stopped = true;
        proof {
            assert(self.writes() =~= old(self).writes() + stop_writes(a));
            if old(self).verifies_writes() {
                assert(self.reads() =~= old(self).reads() + echo_reads(stop_writes(a)));
            }
        }
        Ok(())
    }

    /// Sets the master volume from a percent; values above 100 are
    /// clamped to 100. Both stereo registers receive the identical
    /// encoded byte — there is no independent channel balance.
    pub fn set_volume(&mut self, volume: u8) -> (r: Result<(), DriverError<B::Error>>)
        ensures
            old(self).same_device(*final(self)),
            final(self).is_stopped() == old(self).is_stopped(),
            r is Ok ==> final(self).writes() == old(self).writes() + volume_writes(
                old(self).device_address(),
                volume,
            ),
            r is Err ==> exists|i: int|
                0 <= i <= volume_writes(old(self).device_address(), volume).len()
                    && final(self).writes() == old(self).writes() + volume_writes(
                    old(self).device_address(),
                    volume,
                ).take(i),
            !old(self).verifies_writes() ==> final(self).reads() == old(self).reads(),
            r is Ok && !old(self).verifies_writes() ==> final(self).attempts() == old(self).attempts() + volume_writes(old(self).device_address(), volume).len(),
            r is Ok && old(self).verifies_writes() ==> final(self).reads() == old(self).reads()
                + echo_reads(volume_writes(old(self).device_address(), volume)) && final(self).attempts()
                == old(self).attempts() + 2 * volume_writes(old(self).device_address(), volume).len(),
            r matches Err(DriverError::WriteVerification { expected, actual, .. }) ==> actual
                != expected,
            !old(self).verifies_writes() ==> !(r matches Err(
                DriverError::WriteVerification { .. },
            )),
    {
        let ghost a = old(self).device_address();
        let v = master_volume_byte(volume);
        match self.write_register(REG_MASTER_A_VOL, v) {
            Ok(()) => {},
            Err(e) => {
                proof {
                    assert(old(self).writes() + volume_writes(a, volume).take(0) =~= old(self).writes());
                    assert(old(self).writes() + volume_writes(a, volume).take(1) =~= old(self).writes().push(rw(a, REG_MASTER_A_VOL, master_volume_byte_spec(volume))));
                }
                return Err(e);
            },
        }
        let ghost mid = self.writes();
        proof {
            assert(mid =~= old(self).writes() + volume_writes(a, volume).take(1));
        }
        match self.write_register(REG_MASTER_B_VOL, v) {
            Ok(()) => {},
            Err(e) => {
                proof {
                    assert(mid.push(rw(a, REG_MASTER_B_VOL, master_volume_byte_spec(volume)))
                        =~= old(self).writes() + volume_writes(a, volume).take(2));
                    if self.writes() == mid {
                        assert(self.writes() == old(self).writes() + volume_writes(
                            a,
                            volume,
                        ).take(1));
                    } else {
                        assert(self.writes() == old(self).writes() + volume_writes(
                            a,
                            volume,
                        ).take(2));
                    }
                }
                return Err(e);
            },
        }
        proof {
            assert(self.writes() =~= old(self).writes() + volume_writes(a, volume));
            if old(self).verifies_writes() {
                assert(self.reads() =~= old(self).reads() + echo_reads(volume_writes(a, volume)));
            }
        }
        Ok(())
    }

    /// Mutes or unmutes the output path.
    fn set_mute(&mut self, mute: bool) -> (r: Result<(), DriverError<B::Error>>)
        ensures
            old(self).same_device(*final(self)),
            final(self).is_stopped() == old(self).is_stopped(),
            mute && r is Ok ==> final(self).writes() == old(self).writes() + mute_writes(
                old(self).device_address(),
            ),
            !mute && r is Ok ==> final(self).writes() == old(self).writes() + unmute_writes(
                old(self).device_address(),
            ),
            mute && r is Err ==> exists|i: int|
                0 <= i <= mute_writes(old(self).device_address()).len() && final(self).writes()
                    == old(self).writes() + mute_writes(old(self).device_address()).take(i),
            !mute && r is Err ==> exists|i: int|
                0 <= i <= unmute_writes(old(self).device_address()).len() && final(self).writes()
                    == old(self).writes() + unmute_writes(old(self).device_address()).take(i),
            r matches Err(DriverError::WriteVerification { expected, actual, .. }) ==> actual
                != expected,
            !old(self).verifies_writes() ==> !(r matches Err(
                DriverError::WriteVerification { .. },
            )),
            !old(self).verifies_writes() ==> final(self).reads() == old(self).reads(),
            mute && r is Ok && !old(self).verifies_writes() ==> final(self).attempts() == old(self).attempts() + mute_writes(old(self).device_address()).len(),
            mute && r is Ok && old(self).verifies_writes() ==> final(self).reads() == old(self).reads() + echo_reads(mute_writes(old(self).device_address())) && final(self).attempts() == old(self).attempts() + 2 * mute_writes(
                old(self).device_address(),
            ).len(),
            !mute && r is Ok && !old(self).verifies_writes() ==> final(self).attempts() == old(self).attempts() + unmute_writes(old(self).device_address()).len(),
            !mute && r is Ok && old(self).verifies_writes() ==> final(self).reads() == old(self).reads() + echo_reads(unmute_writes(old(self).device_address())) && final(self).attempts() == old(self).attempts() + 2 * unmute_writes(
                old(self).device_address(),
            ).len(),
    {
        let steps = mute_step_vec(self.address, mute);
        self.write_steps(&steps)
    }
}

/// Builds the construction script as data, so the sequence reads as
/// intent rather than scattered writes.
fn init_step_vec(address: u8, device: OutputDevice, volume: u8) -> (v: Vec<RegWrite>)
    ensures
        v@ == init_writes(address, device, volume),
        all_addressed(v@, address),
{
    let vol = master_volume_byte(volume);
    let mut v: Vec<RegWrite> = Vec::new();
    v.push(RegWrite { address, register: REG_POWER_CTL1, value: 0x01 });
    v.push(RegWrite { address, register: REG_POWER_CTL2, value: device.value() });
    v.push(RegWrite { address, register: REG_CLOCKING_CTL, value: 0x81 });
    v.push(RegWrite { address, register: REG_INTERFACE_CTL1, value: 0x04 });
    v.push(RegWrite { address, register: REG_MASTER_A_VOL, value: vol });
    v.push(RegWrite { address, register: REG_MASTER_B_VOL, value: vol });
    if device != OutputDevice::Headphone {
        v.push(RegWrite { address, register: REG_PLAYBACK_CTL2, value: 0x06 });
        v.push(RegWrite { address, register: REG_SPEAKER_A_VOL, value: 0x00 });
        v.push(RegWrite { address, register: REG_SPEAKER_B_VOL, value: 0x00 });
    }
    v.push(RegWrite { address, register: REG_ANALOG_ZC_SR_SETT, value: 0x00 });
    v.push(RegWrite { address, register: REG_MISC_CTL, value: 0x04 });
    v.push(RegWrite { address, register: REG_TONE_CTL, value: 0x0F });
    v.push(RegWrite { address, register: REG_PCMA_VOL, value: 0x0A });
    v.push(RegWrite { address, register: REG_PCMB_VOL, value: 0x0A });
    proof {
        assert(v@ =~= init_writes(address, device, volume));
        assert forall|i: int| 0 <= i < v@.len() implies (#[trigger] v@[i]).address == address by {}
    }
    v
}

/// Builds the mute or unmute script.
fn mute_step_vec(address: u8, mute: bool) -> (v: Vec<RegWrite>)
    ensures
        mute ==> v@ == mute_writes(address),
        !mute ==> v@ == unmute_writes(address),
        all_addressed(v@, address),
{
    let mut v: Vec<RegWrite> = Vec::new();
    if mute {
        v.push(RegWrite { address, register: REG_POWER_CTL2, value: 0xFF });
        v.push(RegWrite { address, register: REG_HEADPHONE_A_VOL, value: 0x01 });
        v.push(RegWrite { address, register: REG_HEADPHONE_B_VOL, value: 0x01 });
        proof {
            assert(v@ =~= mute_writes(address));
        }
    } else {
        v.push(RegWrite { address, register: REG_HEADPHONE_A_VOL, value: 0x00 });
        v.push(RegWrite { address, register: REG_HEADPHONE_B_VOL, value: 0x00 });
        proof {
            assert(v@ =~= unmute_writes(address));
        }
    }
    proof {
        assert forall|i: int| 0 <= i < v@.len() implies (#[trigger] v@[i]).address == address by {}
    }
    v
}

} // verus!
