//! Driver for the MPU6886 six-axis inertial sensor (accelerometer and
//! gyroscope) behind a two-wire register bus.
//!
//! The driver owns a bus handle implementing [`bus::I2cBus`] and caches the
//! currently configured accelerometer and gyroscope scale ranges so that raw
//! samples can be converted to physical units. Every operation is a single
//! register read, a single register write, or a read-modify-write of one
//! register; the cached ranges are only updated after the matching bus
//! transaction has succeeded, so they always mirror the last value written
//! to, or read from, the chip.

use vstd::prelude::*;

mod accelerometer;
mod bus;
mod gyroscope;
mod mock;

pub use accelerometer::accel_config_update;
pub use accelerometer::accel_range_from_reg;
pub use accelerometer::accel_sensitivity;
pub use accelerometer::lemma_accel_full_scale;
pub use accelerometer::lemma_accel_range_roundtrip;
pub use accelerometer::spec_accel_config_update;
pub use accelerometer::spec_accel_range_bits;
pub use accelerometer::spec_accel_range_from_reg;
pub use accelerometer::spec_accel_range_g;
pub use accelerometer::spec_accel_sensitivity;
pub use accelerometer::AccelScaleRange;
pub use accelerometer::ACCEL_CONFIG_REG;
pub use accelerometer::ACCEL_DATA_REG;
pub use bus::BusErrorKind;
pub use bus::BusEvent;
pub use bus::I2cBus;
pub use bus::NoAcknowledgeSource;
pub use gyroscope::gyro_config_update;
pub use gyroscope::gyro_range_from_reg;
pub use gyroscope::gyro_sensitivity_x8;
pub use gyroscope::lemma_gyro_full_scale;
pub use gyroscope::lemma_gyro_range_roundtrip;
pub use gyroscope::spec_gyro_config_update;
pub use gyroscope::spec_gyro_range_bits;
pub use gyroscope::spec_gyro_range_dps;
pub use gyroscope::spec_gyro_range_from_reg;
pub use gyroscope::spec_gyro_sensitivity_x8;
pub use gyroscope::GyroScaleRange;
pub use gyroscope::GYRO_CONFIG_REG;
pub use gyroscope::GYRO_DATA_REG;
pub use mock::BusOp;
pub use mock::MockBus;

verus! {

/// The fixed 7-bit bus address of the sensor.
pub const MPU6886_ADDR: u8 = 0x68;

/// Expected content of the chip identification register.
pub const CHIP_ID: u8 = 0x19;

/// The chip identification register.
pub const WHO_AM_I_REG: u8 = 0x75;

/// The primary power-management register: reset, sleep, gyroscope standby,
/// temperature disable and clock-select bits packed together.
pub const PWR_MGMT_1_REG: u8 = 0x6B;

/// The secondary power-management register: per-axis accelerometer and
/// gyroscope standby bits.
pub const PWR_MGMT_2_REG: u8 = 0x6C;

/// High byte of the 16-bit signed raw temperature sample.
pub const TEMP_OUT_REG: u8 = 0x41;

/// Errors a driver operation can return.
#[derive(Debug, Clone, Copy, PartialEq, Eq, Structural)]
pub enum Error {
    /// A bus error occurred during the transaction.
    I2cError(BusErrorKind),
    /// The chip identification register held this value instead of the
    /// expected one.
    UnknownChip(u8),
    /// Other error, reserved for future extension; no current operation
    /// returns it.
    Other,
}

/// Decides whether an observed chip identification byte is the one this
/// driver supports.
pub fn check_chip_id(id: u8) -> (r: bool)
    ensures
        r <==> id == CHIP_ID,
{
    id == CHIP_ID
}

/// Driver for one MPU6886 device, owning its bus handle.
pub struct Mpu6886<B> {
    i2c: B,
    acc_range: AccelScaleRange,
    gyro_range: GyroScaleRange,
}

impl<B> Mpu6886<B> {
    /// The cached accelerometer scale range.
    pub closed spec fn spec_acc_range(&self) -> AccelScaleRange {
        self.acc_range
    }

    /// The cached gyroscope scale range.
    pub closed spec fn spec_gyro_range(&self) -> GyroScaleRange {
        self.gyro_range
    }

    /// The owned bus handle.
    pub closed spec fn spec_bus(&self) -> B {
        self.i2c
    }

    /// Returns the cached accelerometer scale range without touching the bus.
    pub fn cached_accel_range(&self) -> (r: AccelScaleRange)
        ensures
            r == self.spec_acc_range(),
    {
        self.acc_range
    }

    /// Returns the cached gyroscope scale range without touching the bus.
    pub fn cached_gyro_range(&self) -> (r: GyroScaleRange)
        ensures
            r == self.spec_gyro_range(),
    {
        self.gyro_range
    }
}

impl<B: I2cBus> Mpu6886<B> {
    /// The register transactions the owned bus has completed, oldest first.
    pub open spec fn spec_log(&self) -> Seq<BusEvent> {
        self.spec_bus().spec_log()
    }

    /// Builds a driver around a bus handle without touching the bus. The
    /// cached ranges start at the chip's power-on defaults.
    pub fn new(i2c: B) -> (r: Self)
        ensures
            r.spec_acc_range() == AccelScaleRange::Range2g,
            r.spec_gyro_range() == GyroScaleRange::Range250Dps,
            r.spec_bus() == i2c,
    {
        Self { i2c, acc_range: AccelScaleRange::Range2g, gyro_range: GyroScaleRange::Range250Dps }
    }

    /// Tears the driver down, returning the bus handle. No register traffic.
    pub fn destroy(self) -> (r: B)
        ensures
            r == self.spec_bus(),
    {
        self.i2c
    }

    /// Reads one byte from register `reg`.
    fn read_u8(&mut self, reg: u8) -> (r: Result<u8, Error>)
        ensures
            final(self).spec_acc_range() == old(self).spec_acc_range(),
            final(self).spec_gyro_range() == old(self).spec_gyro_range(),
            r matches Ok(b) ==> final(self).spec_log() == old(self).spec_log().push(
                (BusEvent::Read { reg, data: seq![b] }),
            ),
            r matches Err(e) ==> e matches Error::I2cError(_),
            r matches Err(_) ==> final(self).spec_log() == old(self).spec_log(),
    {
        match self.i2c.read_register_block(MPU6886_ADDR, reg, 1) {
            Ok(bytes) => {
                let b = bytes[0];
                proof {
                    assert(bytes@ =~= seq![b]);
                }
                Ok(b)
            },
            Err(kind) => Err(Error::I2cError(kind)),
        }
    }

    /// Writes one byte into register `reg`.
    fn write_u8(&mut self, reg: u8, value: u8) -> (r: Result<(), Error>)
        ensures
            final(self).spec_acc_range() == old(self).spec_acc_range(),
            final(self).spec_gyro_range() == old(self).spec_gyro_range(),
            r matches Ok(_) ==> final(self).spec_log() == old(self).spec_log().push(
                (BusEvent::Write { reg, value }),
            ),
            r matches Err(e) ==> e matches Error::I2cError(_),
            r matches Err(_) ==> final(self).spec_log() == old(self).spec_log(),
    {
        match self.i2c.write_register(MPU6886_ADDR, reg, value) {
            Ok(()) => Ok(()),
            Err(kind) => Err(Error::I2cError(kind)),
        }
    }

    /// Reads a big-endian 16-bit quantity starting at register `reg`.
    fn read_u16(&mut self, reg: u8) -> (r: Result<u16, Error>)
        ensures
            final(self).spec_acc_range() == old(self).spec_acc_range(),
            final(self).spec_gyro_range() == old(self).spec_gyro_range(),
            r matches Ok(v) ==> exists|data: Seq<u8>|
                data.len() == 2 && v == spec_be_u16(data[0], data[1]) && final(self).spec_log()
                    == old(self).spec_log().push((BusEvent::Read { reg, data })),
            r matches Err(e) ==> e matches Error::I2cError(_),
            r matches Err(_) ==> final(self).spec_log() == old(self).spec_log(),
    {
        let bytes = match self.read_buf(reg, 2) {
            Ok(bytes) => bytes,
            Err(e) => {
                return Err(e);
            },
        };
        Ok(be_u16(bytes[0], bytes[1]))
    }

    /// Reads `n` consecutive bytes starting at register `reg`.
    fn read_buf(&mut self, reg: u8, n: usize) -> (r: Result<Vec<u8>, Error>)
        ensures
            final(self).spec_acc_range() == old(self).spec_acc_range(),
            final(self).spec_gyro_range() == old(self).spec_gyro_range(),
            r matches Ok(bytes) ==> bytes@.len() == n,
            r matches Ok(bytes) ==> final(self).spec_log() == old(self).spec_log().push(
                (BusEvent::Read { reg, data: bytes@ }),
            ),
            r matches Err(e) ==> e matches Error::I2cError(_),
            r matches Err(_) ==> final(self).spec_log() == old(self).spec_log(),
    {
        match self.i2c.read_register_block(MPU6886_ADDR, reg, n) {
            Ok(bytes) => Ok(bytes),
            Err(kind) => Err(Error::I2cError(kind)),
        }
    }
}

impl<B: I2cBus> Mpu6886<B> {
    /// Checks the chip identification register and, on a match, refreshes
    /// both cached ranges from the chip, in case the device was configured
    /// before this driver attached. On any failure the cache is untouched.
    pub fn init(&mut self) -> (r: Result<(), Error>)
        ensures
            r matches Err(e) ==> e matches Error::I2cError(_) || e matches Error::UnknownChip(_),
            r matches Err(Error::UnknownChip(id)) ==> id != CHIP_ID && final(self).spec_log()
                == old(self).spec_log().push((BusEvent::Read { reg: WHO_AM_I_REG, data: seq![id] })),
            r matches Err(e) ==> final(self).spec_acc_range() == old(self).spec_acc_range(),
            r matches Err(e) ==> final(self).spec_gyro_range() == old(self).spec_gyro_range(),
            r matches Ok(_) ==> exists|a: u8, g: u8|
                final(self).spec_log() == old(self).spec_log() + seq![
                    (BusEvent::Read { reg: WHO_AM_I_REG, data: seq![CHIP_ID] }),
                    (BusEvent::Read { reg: ACCEL_CONFIG_REG, data: seq![a] }),
                    (BusEvent::Read { reg: GYRO_CONFIG_REG, data: seq![g] }),
                ] && final(self).spec_acc_range() == spec_accel_range_from_reg(a)
                    && final(self).spec_gyro_range() == spec_gyro_range_from_reg(g),
    {
        let ghost log0 = self.spec_log();
        let chip_id = match self.read_u8(WHO_AM_I_REG) {
            Ok(v) => v,
            Err(e) => {
                return Err(e);
            },
        };
        if !check_chip_id(chip_id) {
            return Err(Error::UnknownChip(chip_id));
        }
        let acc_byte = match self.read_u8(ACCEL_CONFIG_REG) {
            Ok(v) => v,
            Err(e) => {
                return Err(e);
            },
        };
        let gyro_byte = match self.read_u8(GYRO_CONFIG_REG) {
            Ok(v) => v,
            Err(e) => {
                return Err(e);
            },
        };
        self.acc_range = accel_range_from_reg(acc_byte);
        self.gyro_range = gyro_range_from_reg(gyro_byte);
        proof {
            assert(self.spec_log() =~= log0 + seq![
                (BusEvent::Read { reg: WHO_AM_I_REG, data: seq![CHIP_ID] }),
                (BusEvent::Read { reg: ACCEL_CONFIG_REG, data: seq![acc_byte] }),
                (BusEvent::Read { reg: GYRO_CONFIG_REG, data: seq![gyro_byte] }),
            ]);
        }
        Ok(())
    }

    /// Resets the chip by writing the reset bit, then resets both cached
    /// ranges to the power-on defaults the chip reset guarantees; no
    /// read-back is needed. On a bus failure the cache is untouched.
    pub fn reset(&mut self) -> (r: Result<(), Error>)
        ensures
            r matches Ok(_) ==> final(self).spec_acc_range() == AccelScaleRange::Range2g,
            r matches Ok(_) ==> final(self).spec_gyro_range() == GyroScaleRange::Range250Dps,
            r matches Ok(_) ==> final(self).spec_log() == old(self).spec_log().push(
                (BusEvent::Write { reg: PWR_MGMT_1_REG, value: 0b10000000 }),
            ),
            r matches Err(e) ==> e matches Error::I2cError(_),
            r matches Err(_) ==> final(self).spec_log() == old(self).spec_log(),
            r matches Err(e) ==> final(self).spec_acc_range() == old(self).spec_acc_range(),
            r matches Err(e) ==> final(self).spec_gyro_range() == old(self).spec_gyro_range(),
    {
        match self.write_u8(PWR_MGMT_1_REG, 0b10000000) {
            Ok(()) => (),
            Err(e) => {
                return Err(e);
            },
        }
        self.acc_range = AccelScaleRange::Range2g;
        self.gyro_range = GyroScaleRange::Range250Dps;
        Ok(())
    }

    /// Puts the chip to sleep by setting the sleep bit of the
    /// power-management register via read-modify-write.
    pub fn sleep(&mut self) -> (r: Result<(), Error>)
        ensures
            final(self).spec_acc_range() == old(self).spec_acc_range(),
            final(self).spec_gyro_range() == old(self).spec_gyro_range(),
            r matches Ok(_) ==> exists|b: u8|
                final(self).spec_log() == old(self).spec_log() + seq![
                    (BusEvent::Read { reg: PWR_MGMT_1_REG, data: seq![b] }),
                    (BusEvent::Write { reg: PWR_MGMT_1_REG, value: b | 0b01000000 }),
                ],
            r matches Err(e) ==> e matches Error::I2cError(_),
    {
        let ghost log0 = self.spec_log();
        let original_value = match self.read_u8(PWR_MGMT_1_REG) {
            Ok(v) => v,
            Err(e) => {
                return Err(e);
            },
        };
        let new_value = original_value | 0b01000000;
        let r = self.write_u8(PWR_MGMT_1_REG, new_value);
        proof {
            if r is Ok {
                assert(self.spec_log() =~= log0 + seq![
                    (BusEvent::Read { reg: PWR_MGMT_1_REG, data: seq![original_value] }),
                    (BusEvent::Write { reg: PWR_MGMT_1_REG, value: original_value | 0b01000000 }),
                ]);
            }
        }
        r
    }

    /// Wakes the chip up by clearing the sleep bit via read-modify-write,
    /// then refreshes both cached ranges from the chip, so unit conversion
    /// is correct even for a previously configured chip that was never run
    /// through `init`. On any failure the cache is untouched.
    pub fn wake(&mut self) -> (r: Result<(), Error>)
        ensures
            r matches Err(e) ==> e matches Error::I2cError(_),
            r matches Err(e) ==> final(self).spec_acc_range() == old(self).spec_acc_range(),
            r matches Err(e) ==> final(self).spec_gyro_range() == old(self).spec_gyro_range(),
            r matches Ok(_) ==> exists|b: u8, a: u8, g: u8|
                final(self).spec_log() == old(self).spec_log() + seq![
                    (BusEvent::Read { reg: PWR_MGMT_1_REG, data: seq![b] }),
                    (BusEvent::Write { reg: PWR_MGMT_1_REG, value: b & 0b10111111 }),
                    (BusEvent::Read { reg: ACCEL_CONFIG_REG, data: seq![a] }),
                    (BusEvent::Read { reg: GYRO_CONFIG_REG, data: seq![g] }),
                ] && final(self).spec_acc_range() == spec_accel_range_from_reg(a)
                    && final(self).spec_gyro_range() == spec_gyro_range_from_reg(g),
    {
        let ghost log0 = self.spec_log();
        let original_value = match self.read_u8(PWR_MGMT_1_REG) {
            Ok(v) => v,
            Err(e) => {
                return Err(e);
            },
        };
        let new_value = original_value & 0b10111111;
        match self.write_u8(PWR_MGMT_1_REG, new_value) {
            Ok(()) => (),
            Err(e) => {
                return Err(e);
            },
        }
        let acc_byte = match self.read_u8(ACCEL_CONFIG_REG) {
            Ok(v) => v,
            Err(e) => {
                return Err(e);
            },
        };
        let gyro_byte = match self.read_u8(GYRO_CONFIG_REG) {
            Ok(v) => v,
            Err(e) => {
                return Err(e);
            },
        };
        self.acc_range = accel_range_from_reg(acc_byte);
        self.gyro_range = gyro_range_from_reg(gyro_byte);
        proof {
            assert(self.spec_log() =~= log0 + seq![
                (BusEvent::Read { reg: PWR_MGMT_1_REG, data: seq![original_value] }),
                (BusEvent::Write { reg: PWR_MGMT_1_REG, value: original_value & 0b10111111 }),
                (BusEvent::Read { reg: ACCEL_CONFIG_REG, data: seq![acc_byte] }),
                (BusEvent::Read { reg: GYRO_CONFIG_REG, data: seq![gyro_byte] }),
            ]);
        }
        Ok(())
    }

    /// Selects the phase-locked loop clock source by a read-modify-write of
    /// the clock-select bits of the power-management register.
    pub fn use_best_clock(&mut self) -> (r: Result<(), Error>)
        ensures
            final(self).spec_acc_range() == old(self).spec_acc_range(),
            final(self).spec_gyro_range() == old(self).spec_gyro_range(),
            r matches Ok(_) ==> exists|b: u8|
                final(self).spec_log() == old(self).spec_log() + seq![
                    (BusEvent::Read { reg: PWR_MGMT_1_REG, data: seq![b] }),
                    (BusEvent::Write { reg: PWR_MGMT_1_REG, value: (b & 0b11111000) | 0b00000001 }),
                ],
            r matches Err(e) ==> e matches Error::I2cError(_),
    {
        let ghost log0 = self.spec_log();
        let original_value = match self.read_u8(PWR_MGMT_1_REG) {
            Ok(v) => v,
            Err(e) => {
                return Err(e);
            },
        };
        let new_value = original_value & 0b11111000 | 0b00000001;
        let r = self.write_u8(PWR_MGMT_1_REG, new_value);
        proof {
            if r is Ok {
                assert(self.spec_log() =~= log0 + seq![
                    (BusEvent::Read { reg: PWR_MGMT_1_REG, data: seq![original_value] }),
                    (BusEvent::Write { reg: PWR_MGMT_1_REG, value: (original_value & 0b11111000) | 0b00000001 }),
                ]);
            }
        }
        r
    }

    /// Selects the internal oscillator by a read-modify-write of the
    /// clock-select bits of the power-management register.
    pub fn use_internal_clock(&mut self) -> (r: Result<(), Error>)
        ensures
            final(self).spec_acc_range() == old(self).spec_acc_range(),
            final(self).spec_gyro_range() == old(self).spec_gyro_range(),
            r matches Ok(_) ==> exists|b: u8|
                final(self).spec_log() == old(self).spec_log() + seq![
                    (BusEvent::Read { reg: PWR_MGMT_1_REG, data: seq![b] }),
                    (BusEvent::Write { reg: PWR_MGMT_1_REG, value: b & 0b11111000 }),
                ],
            r matches Err(e) ==> e matches Error::I2cError(_),
    {
        let ghost log0 = self.spec_log();
        let original_value = match self.read_u8(PWR_MGMT_1_REG) {
            Ok(v) => v,
            Err(e) => {
                return Err(e);
            },
        };
        let new_value = original_value & 0b11111000;
        let r = self.write_u8(PWR_MGMT_1_REG, new_value);
        proof {
            if r is Ok {
                assert(self.spec_log() =~= log0 + seq![
                    (BusEvent::Read { reg: PWR_MGMT_1_REG, data: seq![original_value] }),
                    (BusEvent::Write { reg: PWR_MGMT_1_REG, value: original_value & 0b11111000 }),
                ]);
            }
        }
        r
    }

    /// Disables the temperature sensor by setting its bit in the
    /// power-management register via read-modify-write.
    pub fn disable_temperature_sensor(&mut self) -> (r: Result<(), Error>)
        ensures
            final(self).spec_acc_range() == old(self).spec_acc_range(),
            final(self).spec_gyro_range() == old(self).spec_gyro_range(),
            r matches Ok(_) ==> exists|b: u8|
                final(self).spec_log() == old(self).spec_log() + seq![
                    (BusEvent::Read { reg: PWR_MGMT_1_REG, data: seq![b] }),
                    (BusEvent::Write { reg: PWR_MGMT_1_REG, value: b | 0b00001000 }),
                ],
            r matches Err(e) ==> e matches Error::I2cError(_),
    {
        let ghost log0 = self.spec_log();
        let original_value = match self.read_u8(PWR_MGMT_1_REG) {
            Ok(v) => v,
            Err(e) => {
                return Err(e);
            },
        };
        let new_value = original_value | 0b00001000;
        let r = self.write_u8(PWR_MGMT_1_REG, new_value);
        proof {
            if r is Ok {
                assert(self.spec_log() =~= log0 + seq![
                    (BusEvent::Read { reg: PWR_MGMT_1_REG, data: seq![original_value] }),
                    (BusEvent::Write { reg: PWR_MGMT_1_REG, value: original_value | 0b00001000 }),
                ]);
            }
        }
        r
    }

    /// Enables the temperature sensor by clearing its bit in the
    /// power-management register via read-modify-write.
    pub fn enable_temperature_sensor(&mut self) -> (r: Result<(), Error>)
        ensures
            final(self).spec_acc_range() == old(self).spec_acc_range(),
            final(self).spec_gyro_range() == old(self).spec_gyro_range(),
            r matches Ok(_) ==> exists|b: u8|
                final(self).spec_log() == old(self).spec_log() + seq![
                    (BusEvent::Read { reg: PWR_MGMT_1_REG, data: seq![b] }),
                    (BusEvent::Write { reg: PWR_MGMT_1_REG, value: b & 0b11110111 }),
                ],
            r matches Err(e) ==> e matches Error::I2cError(_),
    {
        let ghost log0 = self.spec_log();
        let original_value = match self.read_u8(PWR_MGMT_1_REG) {
            Ok(v) => v,
            Err(e) => {
                return Err(e);
            },
        };
        let new_value = original_value & 0b11110111;
        let r = self.write_u8(PWR_MGMT_1_REG, new_value);
        proof {
            if r is Ok {
                assert(self.spec_log() =~= log0 + seq![
                    (BusEvent::Read { reg: PWR_MGMT_1_REG, data: seq![original_value] }),
                    (BusEvent::Write { reg: PWR_MGMT_1_REG, value: original_value & 0b11110111 }),
                ]);
            }
        }
        r
    }

    /// Reads the raw 16-bit temperature sample, big-endian. The value is a
    /// two's-complement quantity; degrees Celsius are the signed sample
    /// divided by 326.8, plus 25.
    pub fn temperature_raw(&mut self) -> (r: Result<u16, Error>)
        ensures
            final(self).spec_acc_range() == old(self).spec_acc_range(),
            final(self).spec_gyro_range() == old(self).spec_gyro_range(),
            r matches Ok(v) ==> exists|data: Seq<u8>|
                data.len() == 2 && v == spec_be_u16(data[0], data[1]) && final(self).spec_log()
                    == old(self).spec_log().push((BusEvent::Read { reg: TEMP_OUT_REG, data })),
            r matches Err(e) ==> e matches Error::I2cError(_),
    {
        self.read_u16(TEMP_OUT_REG)
    }
}

/// How two bytes read from the chip pack into one sample: high byte first.
pub open spec fn spec_be_u16(hi: u8, lo: u8) -> u16 {
    ((hi as u16) << 8) | (lo as u16)
}

/// Packs a big-endian byte pair into an unsigned 16-bit sample.
pub fn be_u16(hi: u8, lo: u8) -> (v: u16)
    ensures
        v == spec_be_u16(hi, lo),
{
    ((hi as u16) << 8) | (lo as u16)
}

} // verus!

