use cs43l22::registers::REG_ID;
use cs43l22::DriverError;
use cs43l22::OutputDevice;
use cs43l22::RegisterBus;
use cs43l22::SimFault;
use cs43l22::SimulatedBus;
use cs43l22::CS43L22;

const ADDR: u8 = 0x4A;

#[test]
fn verified_construction_succeeds_on_honest_bus() {
    let driver = match CS43L22::new(SimulatedBus::new(), ADDR, OutputDevice::Speaker, 100, true) {
        Ok(d) => d,
        Err(_) => panic!("construction failed"),
    };
    let bus = driver.release();
    // read-backs are not writes: the history holds the 14-step sequence only
    assert_eq!(bus.write_count(), 14);
}

#[test]
fn corrupt_readback_fails_first_verified_write() {
    match CS43L22::new(
        SimulatedBus::corrupting_reads_after(0),
        ADDR,
        OutputDevice::Speaker,
        100,
        true,
    ) {
        Ok(_) => panic!("construction succeeded against a corrupting bus"),
        Err((bus, e)) => {
            match e {
                DriverError::WriteVerification { register, expected, actual } => {
                    assert_eq!(register, 0x02); // power control 1, the first step
                    assert_eq!(expected, 0x01);
                    assert_ne!(actual, expected);
                },
                other => panic!("expected a write-verification error, got {:?}", other),
            }
            // the write itself landed before its read-back failed
            assert_eq!(bus.write_count(), 1);
        },
    }
}

#[test]
fn every_write_mismatch_is_detected() {
    // first take the whole sequence from an honest run, then corrupt the
    // read-back of each step in turn: each one must surface as a
    // write-verification error naming that step
    let whole = {
        let driver = match CS43L22::new(SimulatedBus::new(), ADDR, OutputDevice::Speaker, 100, false) {
            Ok(d) => d,
            Err(_) => panic!("construction failed"),
        };
        driver.release().writes_vec()
    };
    assert_eq!(whole.len(), 14);
    for n in 0..14u64 {
        match CS43L22::new(
            SimulatedBus::corrupting_reads_after(n),
            ADDR,
            OutputDevice::Speaker,
            100,
            true,
        ) {
            Ok(_) => panic!("corrupt read-back of step {} went unnoticed", n),
            Err((bus, e)) => {
                match e {
                    DriverError::WriteVerification { register, expected, actual } => {
                        assert_eq!(register, whole[n as usize].register);
                        assert_eq!(expected, whole[n as usize].value);
                        assert_ne!(actual, expected);
                    },
                    other => panic!("expected a write-verification error, got {:?}", other),
                }
                assert_eq!(bus.write_count(), n as usize + 1);
            },
        }
    }
}

#[test]
fn unverified_construction_ignores_corrupt_readback() {
    // with verification off the driver never reads back, so a corrupting
    // bus does no harm
    let driver = match CS43L22::new(
        SimulatedBus::corrupting_reads_after(0),
        ADDR,
        OutputDevice::Speaker,
        100,
        false,
    ) {
        Ok(d) => d,
        Err(_) => panic!("construction failed"),
    };
    assert_eq!(driver.release().write_count(), 14);
}

#[test]
fn readback_bus_failure_surfaces() {
    match CS43L22::new(SimulatedBus::failing_reads(), ADDR, OutputDevice::Speaker, 100, true) {
        Ok(_) => panic!("construction succeeded though every read-back fails"),
        Err((bus, e)) => {
            assert_eq!(e, DriverError::Bus(SimFault));
            // the first write landed; its read-back failed
            assert_eq!(bus.write_count(), 1);
        },
    }
}

#[test]
fn read_id_masks_revision_bits() {
    let mut bus = SimulatedBus::new();
    // family code 0xE0, revision 0x03, as the chip would report
    bus.write_register(ADDR, REG_ID, 0xE3).unwrap();
    let mut driver = match CS43L22::new(bus, ADDR, OutputDevice::Headphone, 50, false) {
        Ok(d) => d,
        Err(_) => panic!("construction failed"),
    };
    assert_eq!(driver.read_id().unwrap(), 0xE0);
}

#[test]
fn read_id_bus_error_propagates() {
    let mut driver = match CS43L22::new(
        SimulatedBus::failing_reads(),
        ADDR,
        OutputDevice::Headphone,
        50,
        false,
    ) {
        Ok(d) => d,
        Err(_) => panic!("construction failed"),
    };
    assert_eq!(driver.read_id(), Err(DriverError::Bus(SimFault)));
}

#[test]
fn verified_play_detects_mismatch() {
    // corrupt read-backs only after construction: play's first write is
    // the one that must report the mismatch
    let mut driver = match CS43L22::new(
        SimulatedBus::corrupting_reads_after(14),
        ADDR,
        OutputDevice::Speaker,
        100,
        true,
    ) {
        Ok(d) => d,
        Err(_) => panic!("construction failed"),
    };
    match driver.play() {
        Ok(()) => panic!("play succeeded against a corrupting bus"),
        Err(DriverError::WriteVerification { register, expected, actual }) => {
            assert_eq!(register, 0x0E); // the soft-ramp write
            assert_eq!(expected, 0x06);
            assert_ne!(actual, expected);
        },
        Err(other) => panic!("expected a write-verification error, got {:?}", other),
    }
}

#[test]
fn verified_construction_reads_back_every_write() {
    let driver = match CS43L22::new(SimulatedBus::new(), ADDR, OutputDevice::Speaker, 100, true) {
        Ok(d) => d,
        Err(_) => panic!("construction failed"),
    };
    let bus = driver.release();
    let writes = bus.writes_vec();
    let reads = bus.reads_vec();
    // one read-back per write, in order, each echoing the written byte
    assert_eq!(reads.len(), writes.len());
    for (w, r) in writes.iter().zip(reads.iter()) {
        assert_eq!(r.address, w.address);
        assert_eq!(r.register, w.register);
        assert_eq!(r.value, w.value);
    }
}

#[test]
fn unverified_operations_never_read() {
    let mut driver = match CS43L22::new(SimulatedBus::new(), ADDR, OutputDevice::Speaker, 100, false) {
        Ok(d) => d,
        Err(_) => panic!("construction failed"),
    };
    driver.play().unwrap();
    driver.set_volume(10).unwrap();
    driver.stop().unwrap();
    assert_eq!(driver.release().read_count(), 0);
}

#[test]
fn read_id_reads_the_identification_register() {
    let mut bus = SimulatedBus::new();
    bus.write_register(ADDR, REG_ID, 0xE3).unwrap();
    let mut driver = match CS43L22::new(bus, ADDR, OutputDevice::Headphone, 50, false) {
        Ok(d) => d,
        Err(_) => panic!("construction failed"),
    };
    assert_eq!(driver.read_id().unwrap(), 0xE0);
    let reads = driver.release().reads_vec();
    // the one read went to the identification register and saw the raw byte
    assert_eq!(reads.len(), 1);
    assert_eq!(reads[0].address, ADDR);
    assert_eq!(reads[0].register, REG_ID);
    assert_eq!(reads[0].value, 0xE3);
}
