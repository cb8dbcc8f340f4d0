use cs43l22::registers::REG_PLAYBACK_CTL2;
use cs43l22::registers::REG_SPEAKER_A_VOL;
use cs43l22::registers::REG_SPEAKER_B_VOL;
use cs43l22::DriverError;
use cs43l22::OutputDevice;
use cs43l22::RegWrite;
use cs43l22::SimFault;
use cs43l22::SimulatedBus;
use cs43l22::CS43L22;

const ADDR: u8 = 0x4A;

#[test]
fn init_sequence_speaker_exact() {
    let driver = match CS43L22::new(SimulatedBus::new(), ADDR, OutputDevice::Speaker, 100, false) {
        Ok(d) => d,
        Err(_) => panic!("construction failed"),
    };
    let bus = driver.release();
    let expected = vec![
        RegWrite { address: ADDR, register: 0x02, value: 0x01 }, // power down
        RegWrite { address: ADDR, register: 0x04, value: 0xFA }, // speaker routing
        RegWrite { address: ADDR, register: 0x05, value: 0x81 }, // clock auto-detect
        RegWrite { address: ADDR, register: 0x06, value: 0x04 }, // slave mode
        RegWrite { address: ADDR, register: 0x20, value: 0x18 }, // master volume A
        RegWrite { address: ADDR, register: 0x21, value: 0x18 }, // master volume B
        RegWrite { address: ADDR, register: 0x0F, value: 0x06 }, // speaker mono mode
        RegWrite { address: ADDR, register: 0x24, value: 0x00 }, // speaker attenuation A
        RegWrite { address: ADDR, register: 0x25, value: 0x00 }, // speaker attenuation B
        RegWrite { address: ADDR, register: 0x0A, value: 0x00 }, // analog soft ramp off
        RegWrite { address: ADDR, register: 0x0E, value: 0x04 }, // digital soft ramp off
        RegWrite { address: ADDR, register: 0x1F, value: 0x0F }, // tone control
        RegWrite { address: ADDR, register: 0x1A, value: 0x0A }, // PCM volume A
        RegWrite { address: ADDR, register: 0x1B, value: 0x0A }, // PCM volume B
    ];
    assert_eq!(bus.writes_vec(), expected);
}

#[test]
fn init_sequence_headphone_exact() {
    let driver = match CS43L22::new(SimulatedBus::new(), ADDR, OutputDevice::Headphone, 0, false) {
        Ok(d) => d,
        Err(_) => panic!("construction failed"),
    };
    let bus = driver.release();
    let expected = vec![
        RegWrite { address: ADDR, register: 0x02, value: 0x01 },
        RegWrite { address: ADDR, register: 0x04, value: 0xAF }, // headphone routing
        RegWrite { address: ADDR, register: 0x05, value: 0x81 },
        RegWrite { address: ADDR, register: 0x06, value: 0x04 },
        RegWrite { address: ADDR, register: 0x20, value: 0x19 }, // volume 0 percent
        RegWrite { address: ADDR, register: 0x21, value: 0x19 },
        RegWrite { address: ADDR, register: 0x0A, value: 0x00 },
        RegWrite { address: ADDR, register: 0x0E, value: 0x04 },
        RegWrite { address: ADDR, register: 0x1F, value: 0x0F },
        RegWrite { address: ADDR, register: 0x1A, value: 0x0A },
        RegWrite { address: ADDR, register: 0x1B, value: 0x0A },
    ];
    assert_eq!(bus.writes_vec(), expected);
}

#[test]
fn headphone_init_never_touches_speaker_path() {
    let driver = match CS43L22::new(SimulatedBus::new(), ADDR, OutputDevice::Headphone, 55, false) {
        Ok(d) => d,
        Err(_) => panic!("construction failed"),
    };
    let bus = driver.release();
    for w in bus.writes_vec() {
        assert_ne!(w.register, REG_SPEAKER_A_VOL);
        assert_ne!(w.register, REG_SPEAKER_B_VOL);
        assert_ne!(w.register, REG_PLAYBACK_CTL2);
    }
}

#[test]
fn non_headphone_init_configures_speaker_path() {
    for device in [OutputDevice::Speaker, OutputDevice::Both, OutputDevice::Auto] {
        let driver = match CS43L22::new(SimulatedBus::new(), ADDR, device, 55, false) {
            Ok(d) => d,
            Err(_) => panic!("construction failed"),
        };
        let bus = driver.release();
        let log = bus.writes_vec();
        assert!(log.iter().any(|w| w.register == REG_PLAYBACK_CTL2 && w.value == 0x06));
        assert!(log.iter().any(|w| w.register == REG_SPEAKER_A_VOL && w.value == 0x00));
        assert!(log.iter().any(|w| w.register == REG_SPEAKER_B_VOL && w.value == 0x00));
    }
}

#[test]
fn construction_fails_on_every_nth_write() {
    // the speaker-path construction sequence is 14 writes long; a bus that
    // fails on the nth write must abort construction, hand the bus back,
    // and leave exactly the first n-1 writes in the history
    for n in 0..14u64 {
        match CS43L22::new(
            SimulatedBus::failing_after_writes(n),
            ADDR,
            OutputDevice::Speaker,
            100,
            false,
        ) {
            Ok(_) => panic!("construction succeeded with a bus failing after {} writes", n),
            Err((bus, e)) => {
                assert_eq!(e, DriverError::Bus(SimFault));
                assert_eq!(bus.write_count(), n as usize);
            },
        }
    }
}

#[test]
fn headphone_construction_fails_on_every_nth_write() {
    // the headphone construction sequence is 11 writes long
    for n in 0..11u64 {
        match CS43L22::new(
            SimulatedBus::failing_after_writes(n),
            ADDR,
            OutputDevice::Headphone,
            50,
            false,
        ) {
            Ok(_) => panic!("construction succeeded with a bus failing after {} writes", n),
            Err((bus, e)) => {
                assert_eq!(e, DriverError::Bus(SimFault));
                assert_eq!(bus.write_count(), n as usize);
            },
        }
    }
    let driver = match CS43L22::new(
        SimulatedBus::failing_after_writes(11),
        ADDR,
        OutputDevice::Headphone,
        50,
        false,
    ) {
        Ok(d) => d,
        Err(_) => panic!("construction failed"),
    };
    assert_eq!(driver.release().write_count(), 11);
}

#[test]
fn every_write_targets_the_given_address() {
    // the chip family has two strap-selectable bus addresses; the driver
    // must follow whichever the caller supplies
    for addr in [0x4Au8, 0x4B] {
        let driver = match CS43L22::new(SimulatedBus::new(), addr, OutputDevice::Both, 70, false) {
            Ok(d) => d,
            Err(_) => panic!("construction failed"),
        };
        let bus = driver.release();
        for w in bus.writes_vec() {
            assert_eq!(w.address, addr);
        }
    }
}

#[test]
fn construction_succeeds_once_faults_run_out() {
    let driver = match CS43L22::new(
        SimulatedBus::failing_after_writes(14),
        ADDR,
        OutputDevice::Speaker,
        100,
        false,
    ) {
        Ok(d) => d,
        Err(_) => panic!("construction failed"),
    };
    let bus = driver.release();
    assert_eq!(bus.write_count(), 14);
}

#[test]
fn failed_construction_returns_prefix_of_sequence() {
    let whole = {
        let driver = match CS43L22::new(SimulatedBus::new(), ADDR, OutputDevice::Both, 33, false) {
            Ok(d) => d,
            Err(_) => panic!("construction failed"),
        };
        driver.release().writes_vec()
    };
    for n in 0..14u64 {
        match CS43L22::new(
            SimulatedBus::failing_after_writes(n),
            ADDR,
            OutputDevice::Both,
            33,
            false,
        ) {
            Ok(_) => panic!("expected failure"),
            Err((bus, _)) => {
                assert_eq!(bus.writes_vec().as_slice(), &whole[..n as usize]);
            },
        }
    }
}
