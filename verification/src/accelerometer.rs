//! Accelerometer configuration and raw sample access.
//!
//! The full-scale range lives in bits 4:3 of the accelerometer configuration
//! register; the helpers here encode and decode that field and state exactly
//! which bits a range change touches.

use vstd::prelude::*;

use crate::be_u16;
use crate::spec_be_u16;
use crate::BusEvent;
use crate::PWR_MGMT_2_REG;
use crate::Error;
use crate::I2cBus;
use crate::Mpu6886;

verus! {

/// The register holding the accelerometer full-scale range in bits 4:3.
pub const ACCEL_CONFIG_REG: u8 = 0x1C;

/// First of the six big-endian accelerometer data bytes.
pub const ACCEL_DATA_REG: u8 = 0x3B;

/// The accelerometer full-scale range.
#[derive(Debug, Clone, Copy, PartialEq, Eq, Structural)]
pub enum AccelScaleRange {
    /// Plus or minus 2 g.
    Range2g,
    /// Plus or minus 4 g.
    Range4g,
    /// Plus or minus 8 g.
    Range8g,
    /// Plus or minus 16 g.
    Range16g,
}

/// The 2-bit field value that selects a range on the chip.
pub open spec fn spec_accel_range_bits(r: AccelScaleRange) -> u8 {
    match r {
        AccelScaleRange::Range2g => 0,
        AccelScaleRange::Range4g => 1,
        AccelScaleRange::Range8g => 2,
        AccelScaleRange::Range16g => 3,
    }
}

/// The range encoded by an accelerometer configuration register byte.
pub open spec fn spec_accel_range_from_reg(reg: u8) -> AccelScaleRange {
    let selection = (reg & 0b00011000) >> 3;
    if selection == 0 {
        AccelScaleRange::Range2g
    } else if selection == 1 {
        AccelScaleRange::Range4g
    } else if selection == 2 {
        AccelScaleRange::Range8g
    } else {
        AccelScaleRange::Range16g
    }
}

/// The configuration register byte after a range change: bits 4:3 carry the
/// new range and every other bit of `reg` is kept.
pub open spec fn spec_accel_config_update(reg: u8, r: AccelScaleRange) -> u8 {
    (reg & 0b11100111) | (spec_accel_range_bits(r) << 3)
}

/// Counts of raw sample per g of acceleration at a given range.
pub open spec fn spec_accel_sensitivity(r: AccelScaleRange) -> u16 {
    match r {
        AccelScaleRange::Range2g => 16384,
        AccelScaleRange::Range4g => 8192,
        AccelScaleRange::Range8g => 4096,
        AccelScaleRange::Range16g => 2048,
    }
}

/// The magnitude of a range, in g.
pub open spec fn spec_accel_range_g(r: AccelScaleRange) -> u16 {
    match r {
        AccelScaleRange::Range2g => 2,
        AccelScaleRange::Range4g => 4,
        AccelScaleRange::Range8g => 8,
        AccelScaleRange::Range16g => 16,
    }
}

impl AccelScaleRange {
    /// The 2-bit field value that selects this range on the chip.
    pub fn bits(self) -> (b: u8)
        ensures
            b == spec_accel_range_bits(self),
            b <= 3,
    {
        match self {
            AccelScaleRange::Range2g => 0,
            AccelScaleRange::Range4g => 1,
            AccelScaleRange::Range8g => 2,
            AccelScaleRange::Range16g => 3,
        }
    }
}

/// Decodes the range out of an accelerometer configuration register byte.
pub fn accel_range_from_reg(reg: u8) -> (r: AccelScaleRange)
    ensures
        r == spec_accel_range_from_reg(reg),
{
    let selection = (reg & 0b00011000) >> 3;
    match selection {
        0 => AccelScaleRange::Range2g,
        1 => AccelScaleRange::Range4g,
        2 => AccelScaleRange::Range8g,
        _ => AccelScaleRange::Range16g,
    }
}

/// Computes the accelerometer configuration byte that selects `r` while
/// leaving every bit outside the 2-bit range field as it was in `reg`.
pub fn accel_config_update(reg: u8, r: AccelScaleRange) -> (v: u8)
    ensures
        v == spec_accel_config_update(reg, r),
        v & 0b11100111 == reg & 0b11100111,
        (v & 0b00011000) >> 3 == spec_accel_range_bits(r),
{
    let b = r.bits();
    let v = (reg & 0b11100111) | (b << 3);
    proof {
        let bb = spec_accel_range_bits(r);
        assert(((reg & 0b11100111) | (bb << 3)) & 0b11100111 == reg & 0b11100111
            && (((reg & 0b11100111) | (bb << 3)) & 0b00011000) >> 3 == bb) by (bit_vector)
            requires
                bb <= 3,
        ;
    }
    v
}

/// A range written into any register byte reads back as the same range.
pub proof fn lemma_accel_range_roundtrip(reg: u8, r: AccelScaleRange)
    ensures
        spec_accel_range_from_reg(spec_accel_config_update(reg, r)) == r,
{
    let bb = spec_accel_range_bits(r);
    assert((((reg & 0b11100111) | (bb << 3)) & 0b00011000) >> 3 == bb) by (bit_vector)
        requires
            bb <= 3,
    ;
}

/// At every range, the full-scale raw sample count equals the sensitivity
/// times the range magnitude in g: a full-scale reading always converts to
/// exactly the full range, whatever range is selected.
pub proof fn lemma_accel_full_scale(r: AccelScaleRange)
    ensures
        spec_accel_sensitivity(r) * spec_accel_range_g(r) == 32768,
{
    match r {
        AccelScaleRange::Range2g => assert(16384 * 2 == 32768),
        AccelScaleRange::Range4g => assert(8192 * 4 == 32768),
        AccelScaleRange::Range8g => assert(4096 * 8 == 32768),
        AccelScaleRange::Range16g => assert(2048 * 16 == 32768),
    }
}

/// Returns the number of raw counts per g at range `r`. Dividing a raw
/// sample by this and multiplying by standard gravity yields meters per
/// second squared.
pub fn accel_sensitivity(r: AccelScaleRange) -> (s: u16)
    ensures
        s == spec_accel_sensitivity(r),
{
    match r {
        AccelScaleRange::Range2g => 16384,
        AccelScaleRange::Range4g => 8192,
        AccelScaleRange::Range8g => 4096,
        AccelScaleRange::Range16g => 2048,
    }
}

impl<B: I2cBus> Mpu6886<B> {
    /// Reads the accelerometer full-scale range from the chip. The cached
    /// ranges are left untouched; `init` and `wake` refresh them from the
    /// same register.
    pub fn get_accel_scale_range(&mut self) -> (r: Result<AccelScaleRange, Error>)
        ensures
            final(self).spec_acc_range() == old(self).spec_acc_range(),
            final(self).spec_gyro_range() == old(self).spec_gyro_range(),
            r matches Ok(range) ==> exists|b: u8|
                final(self).spec_log() == old(self).spec_log().push(
                    (BusEvent::Read { reg: ACCEL_CONFIG_REG, data: seq![b] }),
                ) && range == spec_accel_range_from_reg(b),
            r matches Err(e) ==> e matches Error::I2cError(_),
    {
        let raw_value = match self.read_u8(ACCEL_CONFIG_REG) {
            Ok(v) => v,
            Err(e) => {
                return Err(e);
            },
        };
        Ok(accel_range_from_reg(raw_value))
    }

    /// Selects the accelerometer full-scale range by a read-modify-write of
    /// the configuration register, leaving all bits outside the 2-bit range
    /// field unchanged, and caches the new range once the write succeeded.
    pub fn set_accel_scale_range(&mut self, value: AccelScaleRange) -> (r: Result<(), Error>)
        ensures
            final(self).spec_gyro_range() == old(self).spec_gyro_range(),
            r matches Ok(_) ==> final(self).spec_acc_range() == value,
            r matches Ok(_) ==> exists|b: u8|
                final(self).spec_log() == old(self).spec_log() + seq![
                    (BusEvent::Read { reg: ACCEL_CONFIG_REG, data: seq![b] }),
                    (BusEvent::Write { reg: ACCEL_CONFIG_REG, value: spec_accel_config_update(b, value) }),
                ],
            r matches Err(e) ==> e matches Error::I2cError(_),
            r matches Err(_) ==> final(self).spec_acc_range() == old(self).spec_acc_range(),
    {
        let ghost log0 = self.spec_log();
        let original_value = match self.read_u8(ACCEL_CONFIG_REG) {
            Ok(v) => v,
            Err(e) => {
                return Err(e);
            },
        };
        let reg_value = accel_config_update(original_value, value);
        match self.write_u8(ACCEL_CONFIG_REG, reg_value) {
            Ok(()) => (),
            Err(e) => {
                return Err(e);
            },
        }
        proof {
            assert(self.spec_log() =~= log0 + seq![
                (BusEvent::Read { reg: ACCEL_CONFIG_REG, data: seq![original_value] }),
                (BusEvent::Write { reg: ACCEL_CONFIG_REG, value: spec_accel_config_update(original_value, value) }),
            ]);
        }
        self.acc_range = value;
        Ok(())
    }

    /// Puts the three accelerometer axes into standby by setting bits 5:3 of
    /// the secondary power-management register.
    pub fn turn_off_accelerometer(&mut self) -> (r: Result<(), Error>)
        ensures
            final(self).spec_acc_range() == old(self).spec_acc_range(),
            final(self).spec_gyro_range() == old(self).spec_gyro_range(),
            r matches Ok(_) ==> exists|b: u8|
                final(self).spec_log() == old(self).spec_log() + seq![
                    (BusEvent::Read { reg: PWR_MGMT_2_REG, data: seq![b] }),
                    (BusEvent::Write { reg: PWR_MGMT_2_REG, value: b | 0b00111000 }),
                ],
            r matches Err(e) ==> e matches Error::I2cError(_),
    {
        let ghost log0 = self.spec_log();
        let original_value = match self.read_u8(PWR_MGMT_2_REG) {
            Ok(v) => v,
            Err(e) => {
                return Err(e);
            },
        };
        let new_value = original_value | 0b00111000;
        let r = self.write_u8(PWR_MGMT_2_REG, new_value);
        proof {
            if r is Ok {
                assert(self.spec_log() =~= log0 + seq![
                    (BusEvent::Read { reg: PWR_MGMT_2_REG, data: seq![original_value] }),
                    (BusEvent::Write { reg: PWR_MGMT_2_REG, value: original_value | 0b00111000 }),
                ]);
            }
        }
        r
    }

    /// Takes the three accelerometer axes out of standby by clearing bits
    /// 5:3 of the secondary power-management register.
    pub fn turn_on_accelerometer(&mut self) -> (r: Result<(), Error>)
        ensures
            final(self).spec_acc_range() == old(self).spec_acc_range(),
            final(self).spec_gyro_range() == old(self).spec_gyro_range(),
            r matches Ok(_) ==> exists|b: u8|
                final(self).spec_log() == old(self).spec_log() + seq![
                    (BusEvent::Read { reg: PWR_MGMT_2_REG, data: seq![b] }),
                    (BusEvent::Write { reg: PWR_MGMT_2_REG, value: b & 0b11000111 }),
                ],
            r matches Err(e) ==> e matches Error::I2cError(_),
    {
        let ghost log0 = self.spec_log();
        let original_value = match self.read_u8(PWR_MGMT_2_REG) {
            Ok(v) => v,
            Err(e) => {
                return Err(e);
            },
        };
        let new_value = original_value & 0b11000111;
        let r = self.write_u8(PWR_MGMT_2_REG, new_value);
        proof {
            if r is Ok {
                assert(self.spec_log() =~= log0 + seq![
                    (BusEvent::Read { reg: PWR_MGMT_2_REG, data: seq![original_value] }),
                    (BusEvent::Write { reg: PWR_MGMT_2_REG, value: original_value & 0b11000111 }),
                ]);
            }
        }
        r
    }

    /// Reads the six accelerometer data bytes and packs each big-endian axis
    /// pair into an unsigned 16-bit two's-complement sample, X, Y, Z.
    pub fn acceleration_raw(&mut self) -> (r: Result<(u16, u16, u16), Error>)
        ensures
            final(self).spec_acc_range() == old(self).spec_acc_range(),
            final(self).spec_gyro_range() == old(self).spec_gyro_range(),
            r matches Ok(v) ==> exists|data: Seq<u8>|
                data.len() == 6 && final(self).spec_log() == old(self).spec_log().push(
                    (BusEvent::Read { reg: ACCEL_DATA_REG, data }),
                ) && v.0 == spec_be_u16(data[0], data[1]) && v.1 == spec_be_u16(data[2], data[3])
                    && v.2 == spec_be_u16(data[4], data[5]),
            r matches Err(e) ==> e matches Error::I2cError(_),
    {
        let xyz_buf = match self.read_buf(ACCEL_DATA_REG, 6) {
            Ok(b) => b,
            Err(e) => {
                return Err(e);
            },
        };
        let x_raw = be_u16(xyz_buf[0], xyz_buf[1]);
        let y_raw = be_u16(xyz_buf[2], xyz_buf[3]);
        let z_raw = be_u16(xyz_buf[4], xyz_buf[5]);
        Ok((x_raw, y_raw, z_raw))
    }
}

} // verus!
