//! Gyroscope configuration and raw sample access.
//!
//! The full-scale range lives in bits 4:3 of the gyroscope configuration
//! register, encoded the same way as the accelerometer range; the helpers
//! here encode and decode that field and state exactly which bits a range
//! change touches.

use vstd::prelude::*;

use crate::be_u16;
use crate::spec_be_u16;
use crate::BusEvent;
use crate::PWR_MGMT_1_REG;
use crate::PWR_MGMT_2_REG;
use crate::Error;
use crate::I2cBus;
use crate::Mpu6886;

verus! {

/// The register holding the gyroscope full-scale range in bits 4:3.
pub const GYRO_CONFIG_REG: u8 = 0x1B;

/// First of the six big-endian gyroscope data bytes.
pub const GYRO_DATA_REG: u8 = 0x43;

/// The gyroscope full-scale range.
#[derive(Debug, Clone, Copy, PartialEq, Eq, Structural)]
pub enum GyroScaleRange {
    /// Plus or minus 250 degrees per second.
    Range250Dps,
    /// Plus or minus 500 degrees per second.
    Range500Dps,
    /// Plus or minus 1000 degrees per second.
    Range1000Dps,
    /// Plus or minus 2000 degrees per second.
    Range2000Dps,
}

/// The 2-bit field value that selects a range on the chip.
pub open spec fn spec_gyro_range_bits(r: GyroScaleRange) -> u8 {
    match r {
        GyroScaleRange::Range250Dps => 0,
        GyroScaleRange::Range500Dps => 1,
        GyroScaleRange::Range1000Dps => 2,
        GyroScaleRange::Range2000Dps => 3,
    }
}

/// The range encoded by a gyroscope configuration register byte; an
/// unmatched encoding selects the widest range.
pub open spec fn spec_gyro_range_from_reg(reg: u8) -> GyroScaleRange {
    let selection = (reg & 0b00011000) >> 3;
    if selection == 0 {
        GyroScaleRange::Range250Dps
    } else if selection == 1 {
        GyroScaleRange::Range500Dps
    } else if selection == 2 {
        GyroScaleRange::Range1000Dps
    } else {
        GyroScaleRange::Range2000Dps
    }
}

/// The configuration register byte after a range change: bits 4:3 carry the
/// new range and every other bit of `reg` is kept.
pub open spec fn spec_gyro_config_update(reg: u8, r: GyroScaleRange) -> u8 {
    (reg & 0b11100111) | (spec_gyro_range_bits(r) << 3)
}

/// Eight times the count of raw sample per degree-per-second at a given
/// range. The base sensitivity is 131 counts per degree per second at the
/// narrowest range, halved for each doubling of the range; scaling by eight
/// keeps every value an integer.
pub open spec fn spec_gyro_sensitivity_x8(r: GyroScaleRange) -> u16 {
    match r {
        GyroScaleRange::Range250Dps => 1048,
        GyroScaleRange::Range500Dps => 524,
        GyroScaleRange::Range1000Dps => 262,
        GyroScaleRange::Range2000Dps => 131,
    }
}

/// The magnitude of a range, in degrees per second.
pub open spec fn spec_gyro_range_dps(r: GyroScaleRange) -> u16 {
    match r {
        GyroScaleRange::Range250Dps => 250,
        GyroScaleRange::Range500Dps => 500,
        GyroScaleRange::Range1000Dps => 1000,
        GyroScaleRange::Range2000Dps => 2000,
    }
}

impl GyroScaleRange {
    /// The 2-bit field value that selects this range on the chip.
    pub fn bits(self) -> (b: u8)
        ensures
            b == spec_gyro_range_bits(self),
            b <= 3,
    {
        match self {
            GyroScaleRange::Range250Dps => 0,
            GyroScaleRange::Range500Dps => 1,
            GyroScaleRange::Range1000Dps => 2,
            GyroScaleRange::Range2000Dps => 3,
        }
    }
}

/// Decodes the range out of a gyroscope configuration register byte.
pub fn gyro_range_from_reg(reg: u8) -> (r: GyroScaleRange)
    ensures
        r == spec_gyro_range_from_reg(reg),
{
    let selection = (reg & 0b00011000) >> 3;
    match selection {
        0 => GyroScaleRange::Range250Dps,
        1 => GyroScaleRange::Range500Dps,
        2 => GyroScaleRange::Range1000Dps,
        _ => GyroScaleRange::Range2000Dps,
    }
}

/// Computes the gyroscope configuration byte that selects `r` while leaving
/// every bit outside the 2-bit range field as it was in `reg`.
pub fn gyro_config_update(reg: u8, r: GyroScaleRange) -> (v: u8)
    ensures
        v == spec_gyro_config_update(reg, r),
        v & 0b11100111 == reg & 0b11100111,
        (v & 0b00011000) >> 3 == spec_gyro_range_bits(r),
{
    let b = r.bits();
    let v = (reg & 0b11100111) | (b << 3);
    proof {
        let bb = spec_gyro_range_bits(r);
        assert(((reg & 0b11100111) | (bb << 3)) & 0b11100111 == reg & 0b11100111
            && (((reg & 0b11100111) | (bb << 3)) & 0b00011000) >> 3 == bb) by (bit_vector)
            requires
                bb <= 3,
        ;
    }
    v
}

/// A range written into any register byte reads back as the same range.
pub proof fn lemma_gyro_range_roundtrip(reg: u8, r: GyroScaleRange)
    ensures
        spec_gyro_range_from_reg(spec_gyro_config_update(reg, r)) == r,
{
    let bb = spec_gyro_range_bits(r);
    assert((((reg & 0b11100111) | (bb << 3)) & 0b00011000) >> 3 == bb) by (bit_vector)
        requires
            bb <= 3,
    ;
}

/// At every range, the sensitivity times the range magnitude is one and the
/// same constant: doubling the range halves the sensitivity, so a raw sample
/// scaled in proportion to the range describes the same physical angular
/// rate.
pub proof fn lemma_gyro_full_scale(r: GyroScaleRange)
    ensures
        spec_gyro_sensitivity_x8(r) * spec_gyro_range_dps(r) == 262000,
{
    match r {
        GyroScaleRange::Range250Dps => assert(1048 * 250 == 262000),
        GyroScaleRange::Range500Dps => assert(524 * 500 == 262000),
        GyroScaleRange::Range1000Dps => assert(262 * 1000 == 262000),
        GyroScaleRange::Range2000Dps => assert(131 * 2000 == 262000),
    }
}

/// Returns eight times the number of raw counts per degree-per-second at
/// range `r`. Dividing a raw sample by an eighth of this, then converting
/// degrees to radians, yields radians per second.
pub fn gyro_sensitivity_x8(r: GyroScaleRange) -> (s: u16)
    ensures
        s == spec_gyro_sensitivity_x8(r),
{
    match r {
        GyroScaleRange::Range250Dps => 1048,
        GyroScaleRange::Range500Dps => 524,
        GyroScaleRange::Range1000Dps => 262,
        GyroScaleRange::Range2000Dps => 131,
    }
}

impl<B: I2cBus> Mpu6886<B> {
    /// Reads the gyroscope full-scale range from the chip. The cached ranges
    /// are left untouched; `init` and `wake` refresh them from the same
    /// register.
    pub fn get_gyro_scale_range(&mut self) -> (r: Result<GyroScaleRange, Error>)
        ensures
            final(self).spec_acc_range() == old(self).spec_acc_range(),
            final(self).spec_gyro_range() == old(self).spec_gyro_range(),
            r matches Ok(range) ==> exists|b: u8|
                final(self).spec_log() == old(self).spec_log().push(
                    (BusEvent::Read { reg: GYRO_CONFIG_REG, data: seq![b] }),
                ) && range == spec_gyro_range_from_reg(b),
            r matches Err(e) ==> e matches Error::I2cError(_),
    {
        let raw_value = match self.read_u8(GYRO_CONFIG_REG) {
            Ok(v) => v,
            Err(e) => {
                return Err(e);
            },
        };
        Ok(gyro_range_from_reg(raw_value))
    }

    /// Selects the gyroscope full-scale range by a read-modify-write of the
    /// configuration register, leaving all bits outside the 2-bit range
    /// field unchanged, and caches the new range once the write succeeded.
    pub fn set_gyro_scale_range(&mut self, value: GyroScaleRange) -> (r: Result<(), Error>)
        ensures
            final(self).spec_acc_range() == old(self).spec_acc_range(),
            r matches Ok(_) ==> final(self).spec_gyro_range() == value,
            r matches Ok(_) ==> exists|b: u8|
                final(self).spec_log() == old(self).spec_log() + seq![
                    (BusEvent::Read { reg: GYRO_CONFIG_REG, data: seq![b] }),
                    (BusEvent::Write { reg: GYRO_CONFIG_REG, value: spec_gyro_config_update(b, value) }),
                ],
            r matches Err(e) ==> e matches Error::I2cError(_),
            r matches Err(_) ==> final(self).spec_gyro_range() == old(self).spec_gyro_range(),
    {
        let ghost log0 = self.spec_log();
        let original_value = match self.read_u8(GYRO_CONFIG_REG) {
            Ok(v) => v,
            Err(e) => {
                return Err(e);
            },
        };
        let reg_value = gyro_config_update(original_value, value);
        match self.write_u8(GYRO_CONFIG_REG, reg_value) {
            Ok(()) => (),
            Err(e) => {
                return Err(e);
            },
        }
        proof {
            assert(self.spec_log() =~= log0 + seq![
                (BusEvent::Read { reg: GYRO_CONFIG_REG, data: seq![original_value] }),
                (BusEvent::Write { reg: GYRO_CONFIG_REG, value: spec_gyro_config_update(original_value, value) }),
            ]);
        }
        self.gyro_range = value;
        Ok(())
    }

    /// Puts the gyroscope into standby by setting bit 4 of the
    /// power-management register.
    pub fn gyro_standby(&mut self) -> (r: Result<(), Error>)
        ensures
            final(self).spec_acc_range() == old(self).spec_acc_range(),
            final(self).spec_gyro_range() == old(self).spec_gyro_range(),
            r matches Ok(_) ==> exists|b: u8|
                final(self).spec_log() == old(self).spec_log() + seq![
                    (BusEvent::Read { reg: PWR_MGMT_1_REG, data: seq![b] }),
                    (BusEvent::Write { reg: PWR_MGMT_1_REG, value: b | 0b00010000 }),
                ],
            r matches Err(e) ==> e matches Error::I2cError(_),
    {
        let ghost log0 = self.spec_log();
        let original_value = match self.read_u8(PWR_MGMT_1_REG) {
            Ok(v) => v,
            Err(e) => {
                return Err(e);
            },
        };
        let new_value = original_value | 0b00010000;
        let r = self.write_u8(PWR_MGMT_1_REG, new_value);
        proof {
            if r is Ok {
                assert(self.spec_log() =~= log0 + seq![
                    (BusEvent::Read { reg: PWR_MGMT_1_REG, data: seq![original_value] }),
                    (BusEvent::Write { reg: PWR_MGMT_1_REG, value: original_value | 0b00010000 }),
                ]);
            }
        }
        r
    }

    /// Takes the gyroscope out of standby by clearing bit 4 of the
    /// power-management register.
    pub fn gyro_active(&mut self) -> (r: Result<(), Error>)
        ensures
            final(self).spec_acc_range() == old(self).spec_acc_range(),
            final(self).spec_gyro_range() == old(self).spec_gyro_range(),
            r matches Ok(_) ==> exists|b: u8|
                final(self).spec_log() == old(self).spec_log() + seq![
                    (BusEvent::Read { reg: PWR_MGMT_1_REG, data: seq![b] }),
                    (BusEvent::Write { reg: PWR_MGMT_1_REG, value: b & 0b11101111 }),
                ],
            r matches Err(e) ==> e matches Error::I2cError(_),
    {
        let ghost log0 = self.spec_log();
        let original_value = match self.read_u8(PWR_MGMT_1_REG) {
            Ok(v) => v,
            Err(e) => {
                return Err(e);
            },
        };
        let new_value = original_value & 0b11101111;
        let r = self.write_u8(PWR_MGMT_1_REG, new_value);
        proof {
            if r is Ok {
                assert(self.spec_log() =~= log0 + seq![
                    (BusEvent::Read { reg: PWR_MGMT_1_REG, data: seq![original_value] }),
                    (BusEvent::Write { reg: PWR_MGMT_1_REG, value: original_value & 0b11101111 }),
                ]);
            }
        }
        r
    }

    /// Turns the three gyroscope axes off by setting bits 2:0 of the
    /// secondary power-management register.
    pub fn turn_off_gyro(&mut self) -> (r: Result<(), Error>)
        ensures
            final(self).spec_acc_range() == old(self).spec_acc_range(),
            final(self).spec_gyro_range() == old(self).spec_gyro_range(),
            r matches Ok(_) ==> exists|b: u8|
                final(self).spec_log() == old(self).spec_log() + seq![
                    (BusEvent::Read { reg: PWR_MGMT_2_REG, data: seq![b] }),
                    (BusEvent::Write { reg: PWR_MGMT_2_REG, value: b | 0b00000111 }),
                ],
            r matches Err(e) ==> e matches Error::I2cError(_),
    {
        let ghost log0 = self.spec_log();
        let original_value = match self.read_u8(PWR_MGMT_2_REG) {
            Ok(v) => v,
            Err(e) => {
                return Err(e);
            },
        };
        let new_value = original_value | 0b00000111;
        let r = self.write_u8(PWR_MGMT_2_REG, new_value);
        proof {
            if r is Ok {
                assert(self.spec_log() =~= log0 + seq![
                    (BusEvent::Read { reg: PWR_MGMT_2_REG, data: seq![original_value] }),
                    (BusEvent::Write { reg: PWR_MGMT_2_REG, value: original_value | 0b00000111 }),
                ]);
            }
        }
        r
    }

    /// Turns the three gyroscope axes back on by clearing bits 2:0 of the
    /// secondary power-management register.
    pub fn turn_on_gyro(&mut self) -> (r: Result<(), Error>)
        ensures
            final(self).spec_acc_range() == old(self).spec_acc_range(),
            final(self).spec_gyro_range() == old(self).spec_gyro_range(),
            r matches Ok(_) ==> exists|b: u8|
                final(self).spec_log() == old(self).spec_log() + seq![
                    (BusEvent::Read { reg: PWR_MGMT_2_REG, data: seq![b] }),
                    (BusEvent::Write { reg: PWR_MGMT_2_REG, value: b & 0b11111000 }),
                ],
            r matches Err(e) ==> e matches Error::I2cError(_),
    {
        let ghost log0 = self.spec_log();
        let original_value = match self.read_u8(PWR_MGMT_2_REG) {
            Ok(v) => v,
            Err(e) => {
                return Err(e);
            },
        };
        let new_value = original_value & 0b11111000;
        let r = self.write_u8(PWR_MGMT_2_REG, new_value);
        proof {
            if r is Ok {
                assert(self.spec_log() =~= log0 + seq![
                    (BusEvent::Read { reg: PWR_MGMT_2_REG, data: seq![original_value] }),
                    (BusEvent::Write { reg: PWR_MGMT_2_REG, value: original_value & 0b11111000 }),
                ]);
            }
        }
        r
    }

    /// Reads the six gyroscope data bytes and packs each big-endian axis
    /// pair into an unsigned 16-bit two's-complement sample, X, Y, Z.
    pub fn gyro_raw(&mut self) -> (r: Result<(u16, u16, u16), Error>)
        ensures
            final(self).spec_acc_range() == old(self).spec_acc_range(),
            final(self).spec_gyro_range() == old(self).spec_gyro_range(),
            r matches Ok(v) ==> exists|data: Seq<u8>|
                data.len() == 6 && final(self).spec_log() == old(self).spec_log().push(
                    (BusEvent::Read { reg: GYRO_DATA_REG, data }),
                ) && v.0 == spec_be_u16(data[0], data[1]) && v.1 == spec_be_u16(data[2], data[3])
                    && v.2 == spec_be_u16(data[4], data[5]),
            r matches Err(e) ==> e matches Error::I2cError(_),
    {
        let xyz_buf = match self.read_buf(GYRO_DATA_REG, 6) {
            Ok(b) => b,
            Err(e) => {
                return Err(e);
            },
        };
        let x_raw = be_u16(xyz_buf[0], xyz_buf[1]);
        let y_raw = be_u16(xyz_buf[2], xyz_buf[3]);
        let z_raw = be_u16(xyz_buf[4], xyz_buf[5]);
        Ok((x_raw, y_raw, z_raw))
    }
}

} // verus!
