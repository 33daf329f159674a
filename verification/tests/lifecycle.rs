//! Lifecycle and power management: init, reset, sleep, wake, clock and
//! temperature-sensor bits, checked transaction by transaction against the
//! mock register file.

use mpu6886::AccelScaleRange;
use mpu6886::BusOp;
use mpu6886::Error;
use mpu6886::GyroScaleRange;
use mpu6886::MockBus;
use mpu6886::Mpu6886;
use mpu6886::ACCEL_CONFIG_REG;
use mpu6886::CHIP_ID;
use mpu6886::GYRO_CONFIG_REG;
use mpu6886::PWR_MGMT_1_REG;
use mpu6886::PWR_MGMT_2_REG;
use mpu6886::WHO_AM_I_REG;

fn ops_of(bus: &MockBus) -> Vec<BusOp> {
    let mut ops = Vec::new();
    let mut i = 0;
    while i < bus.op_count() {
        ops.push(bus.op_at(i));
        i += 1;
    }
    ops
}

#[test]
fn new_starts_with_default_ranges_and_no_bus_traffic() {
    let drv = Mpu6886::new(MockBus::new());
    assert_eq!(drv.cached_accel_range(), AccelScaleRange::Range2g);
    assert_eq!(drv.cached_gyro_range(), GyroScaleRange::Range250Dps);
    let bus = drv.destroy();
    assert_eq!(bus.op_count(), 0);
}

#[test]
fn init_reads_chip_id_and_loads_ranges() {
    let mut bus = MockBus::new();
    bus.set_reg(WHO_AM_I_REG, CHIP_ID);
    bus.set_reg(ACCEL_CONFIG_REG, 2 << 3);
    bus.set_reg(GYRO_CONFIG_REG, 1 << 3);
    let mut drv = Mpu6886::new(bus);
    drv.init().unwrap();
    assert_eq!(drv.cached_accel_range(), AccelScaleRange::Range8g);
    assert_eq!(drv.cached_gyro_range(), GyroScaleRange::Range500Dps);
    let bus = drv.destroy();
    assert_eq!(
        ops_of(&bus),
        vec![
            BusOp::Read { reg: WHO_AM_I_REG, count: 1 },
            BusOp::Read { reg: ACCEL_CONFIG_REG, count: 1 },
            BusOp::Read { reg: GYRO_CONFIG_REG, count: 1 },
        ]
    );
}

#[test]
fn init_with_wrong_chip_id_reports_it_and_keeps_the_cache() {
    let mut bus = MockBus::new();
    bus.set_reg(WHO_AM_I_REG, 0x68);
    bus.set_reg(ACCEL_CONFIG_REG, 3 << 3);
    let mut drv = Mpu6886::new(bus);
    // Give the cache a non-default value first.
    drv.set_accel_scale_range(AccelScaleRange::Range16g).unwrap();
    assert_eq!(drv.init(), Err(Error::UnknownChip(0x68)));
    assert_eq!(drv.cached_accel_range(), AccelScaleRange::Range16g);
    assert_eq!(drv.cached_gyro_range(), GyroScaleRange::Range250Dps);
}

#[test]
fn reset_writes_the_reset_bit_and_restores_default_ranges() {
    let mut drv = Mpu6886::new(MockBus::new());
    drv.set_accel_scale_range(AccelScaleRange::Range8g).unwrap();
    drv.set_gyro_scale_range(GyroScaleRange::Range2000Dps).unwrap();
    drv.reset().unwrap();
    assert_eq!(drv.cached_accel_range(), AccelScaleRange::Range2g);
    assert_eq!(drv.cached_gyro_range(), GyroScaleRange::Range250Dps);
    let bus = drv.destroy();
    // Each range change is a read and a write; the reset adds one write and
    // no range read-back.
    assert_eq!(bus.op_count(), 5);
    assert_eq!(bus.op_at(4), BusOp::Write { reg: PWR_MGMT_1_REG, value: 0b1000_0000 });
}

#[test]
fn sleep_sets_only_the_sleep_bit() {
    let mut bus = MockBus::new();
    bus.set_reg(PWR_MGMT_1_REG, 0b1000_1001);
    let mut drv = Mpu6886::new(bus);
    drv.sleep().unwrap();
    let bus = drv.destroy();
    assert_eq!(bus.reg(PWR_MGMT_1_REG), 0b1100_1001);
}

#[test]
fn wake_issues_exactly_one_write_and_the_two_range_reads_in_order() {
    let mut bus = MockBus::new();
    bus.set_reg(PWR_MGMT_1_REG, 0b0100_0000);
    bus.set_reg(ACCEL_CONFIG_REG, 1 << 3);
    bus.set_reg(GYRO_CONFIG_REG, 3 << 3);
    let mut drv = Mpu6886::new(bus);
    drv.wake().unwrap();
    assert_eq!(drv.cached_accel_range(), AccelScaleRange::Range4g);
    assert_eq!(drv.cached_gyro_range(), GyroScaleRange::Range2000Dps);
    let bus = drv.destroy();
    assert_eq!(
        ops_of(&bus),
        vec![
            BusOp::Read { reg: PWR_MGMT_1_REG, count: 1 },
            BusOp::Write { reg: PWR_MGMT_1_REG, value: 0b0000_0000 },
            BusOp::Read { reg: ACCEL_CONFIG_REG, count: 1 },
            BusOp::Read { reg: GYRO_CONFIG_REG, count: 1 },
        ]
    );
}

#[test]
fn clock_selection_touches_only_the_clock_bits() {
    let mut bus = MockBus::new();
    bus.set_reg(PWR_MGMT_1_REG, 0b1111_1111);
    let mut drv = Mpu6886::new(bus);
    drv.use_best_clock().unwrap();
    let bus = drv.destroy();
    assert_eq!(bus.reg(PWR_MGMT_1_REG), 0b1111_1001);

    let mut bus = MockBus::new();
    bus.set_reg(PWR_MGMT_1_REG, 0b1010_1111);
    let mut drv = Mpu6886::new(bus);
    drv.use_internal_clock().unwrap();
    let bus = drv.destroy();
    assert_eq!(bus.reg(PWR_MGMT_1_REG), 0b1010_1000);
}

#[test]
fn temperature_sensor_bit_toggles() {
    let mut bus = MockBus::new();
    bus.set_reg(PWR_MGMT_1_REG, 0b0100_0001);
    let mut drv = Mpu6886::new(bus);
    drv.disable_temperature_sensor().unwrap();
    let bus = drv.destroy();
    assert_eq!(bus.reg(PWR_MGMT_1_REG), 0b0100_1001);

    let mut bus = MockBus::new();
    bus.set_reg(PWR_MGMT_1_REG, 0b0100_1001);
    let mut drv = Mpu6886::new(bus);
    drv.enable_temperature_sensor().unwrap();
    let bus = drv.destroy();
    assert_eq!(bus.reg(PWR_MGMT_1_REG), 0b0100_0001);
}

#[test]
fn gyro_standby_and_active_toggle_bit_four() {
    let mut bus = MockBus::new();
    bus.set_reg(PWR_MGMT_1_REG, 0b0000_0101);
    let mut drv = Mpu6886::new(bus);
    drv.gyro_standby().unwrap();
    let bus = drv.destroy();
    assert_eq!(bus.reg(PWR_MGMT_1_REG), 0b0001_0101);

    let mut bus = MockBus::new();
    bus.set_reg(PWR_MGMT_1_REG, 0b0001_0101);
    let mut drv = Mpu6886::new(bus);
    drv.gyro_active().unwrap();
    let bus = drv.destroy();
    assert_eq!(bus.reg(PWR_MGMT_1_REG), 0b0000_0101);
}

#[test]
fn axis_standby_bits_in_the_secondary_register() {
    let mut bus = MockBus::new();
    bus.set_reg(PWR_MGMT_2_REG, 0b1000_0000);
    let mut drv = Mpu6886::new(bus);
    drv.turn_off_accelerometer().unwrap();
    drv.turn_off_gyro().unwrap();
    let bus = drv.destroy();
    assert_eq!(bus.reg(PWR_MGMT_2_REG), 0b1011_1111);

    let mut bus = MockBus::new();
    bus.set_reg(PWR_MGMT_2_REG, 0b1011_1111);
    let mut drv = Mpu6886::new(bus);
    drv.turn_on_accelerometer().unwrap();
    drv.turn_on_gyro().unwrap();
    let bus = drv.destroy();
    assert_eq!(bus.reg(PWR_MGMT_2_REG), 0b1000_0000);
}

#[test]
fn check_chip_id_accepts_only_the_expected_byte() {
    assert!(mpu6886::check_chip_id(CHIP_ID));
    assert!(!mpu6886::check_chip_id(0x68));
    assert!(!mpu6886::check_chip_id(0x00));
}
