//! Behaviour under bus failures: errors propagate unchanged and the cached
//! ranges are never left half-updated.

use mpu6886::AccelScaleRange;
use mpu6886::BusErrorKind;
use mpu6886::Error;
use mpu6886::GyroScaleRange;
use mpu6886::MockBus;
use mpu6886::Mpu6886;
use mpu6886::NoAcknowledgeSource;
use mpu6886::ACCEL_CONFIG_REG;
use mpu6886::CHIP_ID;
use mpu6886::GYRO_CONFIG_REG;
use mpu6886::WHO_AM_I_REG;

#[test]
fn a_failed_read_surfaces_its_bus_error_kind() {
    let kinds = [
        BusErrorKind::Bus,
        BusErrorKind::ArbitrationLoss,
        BusErrorKind::NoAcknowledge(NoAcknowledgeSource::Address),
        BusErrorKind::NoAcknowledge(NoAcknowledgeSource::Data),
        BusErrorKind::NoAcknowledge(NoAcknowledgeSource::Unknown),
        BusErrorKind::Overrun,
        BusErrorKind::Other,
    ];
    for &kind in &kinds {
        let mut bus = MockBus::new();
        bus.fail_at_op(0, kind);
        let mut drv = Mpu6886::new(bus);
        assert_eq!(drv.sleep(), Err(Error::I2cError(kind)));
    }
}

#[test]
fn a_failed_write_during_a_range_change_keeps_the_cache() {
    let mut bus = MockBus::new();
    // The read succeeds, the write that follows it fails.
    bus.fail_at_op(1, BusErrorKind::Overrun);
    let mut drv = Mpu6886::new(bus);
    assert_eq!(
        drv.set_accel_scale_range(AccelScaleRange::Range16g),
        Err(Error::I2cError(BusErrorKind::Overrun))
    );
    assert_eq!(drv.cached_accel_range(), AccelScaleRange::Range2g);
    let bus = drv.destroy();
    // The register was never written.
    assert_eq!(bus.reg(ACCEL_CONFIG_REG), 0);
}

#[test]
fn init_keeps_the_whole_cache_when_a_range_read_fails() {
    let mut bus = MockBus::new();
    bus.set_reg(WHO_AM_I_REG, CHIP_ID);
    bus.set_reg(ACCEL_CONFIG_REG, 3 << 3);
    bus.set_reg(GYRO_CONFIG_REG, 3 << 3);
    // Chip id and accelerometer range reads succeed, the gyroscope range
    // read fails: neither cached range may change.
    bus.fail_at_op(2, BusErrorKind::Bus);
    let mut drv = Mpu6886::new(bus);
    assert_eq!(drv.init(), Err(Error::I2cError(BusErrorKind::Bus)));
    assert_eq!(drv.cached_accel_range(), AccelScaleRange::Range2g);
    assert_eq!(drv.cached_gyro_range(), GyroScaleRange::Range250Dps);
}

#[test]
fn wake_keeps_the_whole_cache_when_a_range_read_fails() {
    let mut bus = MockBus::new();
    bus.set_reg(ACCEL_CONFIG_REG, 2 << 3);
    bus.set_reg(GYRO_CONFIG_REG, 2 << 3);
    // The read-modify-write succeeds, the accelerometer range read fails.
    bus.fail_at_op(2, BusErrorKind::NoAcknowledge(NoAcknowledgeSource::Data));
    let mut drv = Mpu6886::new(bus);
    assert_eq!(
        drv.wake(),
        Err(Error::I2cError(BusErrorKind::NoAcknowledge(NoAcknowledgeSource::Data)))
    );
    assert_eq!(drv.cached_accel_range(), AccelScaleRange::Range2g);
    assert_eq!(drv.cached_gyro_range(), GyroScaleRange::Range250Dps);
}

#[test]
fn reset_keeps_the_cache_when_the_write_fails() {
    let mut bus = MockBus::new();
    // The four transactions of the two range changes succeed; the reset
    // write after them is the fifth and fails.
    bus.fail_at_op(4, BusErrorKind::Bus);
    let mut drv = Mpu6886::new(bus);
    drv.set_accel_scale_range(AccelScaleRange::Range4g).unwrap();
    drv.set_gyro_scale_range(GyroScaleRange::Range1000Dps).unwrap();
    assert_eq!(drv.reset(), Err(Error::I2cError(BusErrorKind::Bus)));
    assert_eq!(drv.cached_accel_range(), AccelScaleRange::Range4g);
    assert_eq!(drv.cached_gyro_range(), GyroScaleRange::Range1000Dps);
}
