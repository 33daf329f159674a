//! Scale-range configuration: set/get round trips, field isolation, and the
//! cached ranges tracking the chip.

use mpu6886::AccelScaleRange;
use mpu6886::GyroScaleRange;
use mpu6886::MockBus;
use mpu6886::Mpu6886;
use mpu6886::ACCEL_CONFIG_REG;
use mpu6886::GYRO_CONFIG_REG;

#[test]
fn accel_set_then_get_roundtrip_all_ranges() {
    let ranges = [
        AccelScaleRange::Range2g,
        AccelScaleRange::Range4g,
        AccelScaleRange::Range8g,
        AccelScaleRange::Range16g,
    ];
    for &range in &ranges {
        let mut drv = Mpu6886::new(MockBus::new());
        drv.set_accel_scale_range(range).unwrap();
        assert_eq!(drv.get_accel_scale_range().unwrap(), range);
        assert_eq!(drv.cached_accel_range(), range);
    }
}

#[test]
fn gyro_set_then_get_roundtrip_all_ranges() {
    let ranges = [
        GyroScaleRange::Range250Dps,
        GyroScaleRange::Range500Dps,
        GyroScaleRange::Range1000Dps,
        GyroScaleRange::Range2000Dps,
    ];
    for &range in &ranges {
        let mut drv = Mpu6886::new(MockBus::new());
        drv.set_gyro_scale_range(range).unwrap();
        assert_eq!(drv.get_gyro_scale_range().unwrap(), range);
        assert_eq!(drv.cached_gyro_range(), range);
    }
}

#[test]
fn accel_set_range_changes_only_the_range_field() {
    let mut bus = MockBus::new();
    bus.set_reg(ACCEL_CONFIG_REG, 0b1110_0111);
    let mut drv = Mpu6886::new(bus);
    drv.set_accel_scale_range(AccelScaleRange::Range4g).unwrap();
    let bus = drv.destroy();
    // Bits 4:3 now encode 1; all other bits keep their prior values.
    assert_eq!(bus.reg(ACCEL_CONFIG_REG), 0b1110_1111);
}

#[test]
fn gyro_set_range_changes_only_the_range_field() {
    let mut bus = MockBus::new();
    bus.set_reg(GYRO_CONFIG_REG, 0b1010_0101);
    let mut drv = Mpu6886::new(bus);
    drv.set_gyro_scale_range(GyroScaleRange::Range1000Dps).unwrap();
    let bus = drv.destroy();
    // Bits 4:3 now encode 2; all other bits keep their prior values.
    assert_eq!(bus.reg(GYRO_CONFIG_REG), 0b1011_0101);
}

#[test]
fn accel_get_range_decodes_the_register_field() {
    let cases = [
        (0u8, AccelScaleRange::Range2g),
        (1u8, AccelScaleRange::Range4g),
        (2u8, AccelScaleRange::Range8g),
        (3u8, AccelScaleRange::Range16g),
    ];
    for &(field, expected) in &cases {
        let mut bus = MockBus::new();
        bus.set_reg(ACCEL_CONFIG_REG, (field << 3) | 0b1100_0010);
        let mut drv = Mpu6886::new(bus);
        assert_eq!(drv.get_accel_scale_range().unwrap(), expected);
        // Reading the range never updates the cache by itself.
        assert_eq!(drv.cached_accel_range(), AccelScaleRange::Range2g);
    }
}

#[test]
fn gyro_get_range_decodes_the_register_field() {
    let cases = [
        (0u8, GyroScaleRange::Range250Dps),
        (1u8, GyroScaleRange::Range500Dps),
        (2u8, GyroScaleRange::Range1000Dps),
        (3u8, GyroScaleRange::Range2000Dps),
    ];
    for &(field, expected) in &cases {
        let mut bus = MockBus::new();
        bus.set_reg(GYRO_CONFIG_REG, (field << 3) | 0b0100_0001);
        let mut drv = Mpu6886::new(bus);
        assert_eq!(drv.get_gyro_scale_range().unwrap(), expected);
        assert_eq!(drv.cached_gyro_range(), GyroScaleRange::Range250Dps);
    }
}

#[test]
fn config_update_helpers_preserve_other_bits() {
    for reg in [0x00u8, 0xFF, 0b1010_1010, 0b0101_0101] {
        let v = mpu6886::accel_config_update(reg, AccelScaleRange::Range16g);
        assert_eq!(v & 0b1110_0111, reg & 0b1110_0111);
        assert_eq!((v & 0b0001_1000) >> 3, 3);
        let w = mpu6886::gyro_config_update(reg, GyroScaleRange::Range500Dps);
        assert_eq!(w & 0b1110_0111, reg & 0b1110_0111);
        assert_eq!((w & 0b0001_1000) >> 3, 1);
    }
}
