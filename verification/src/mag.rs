//! The magnetometer: register maps for the two supported chips behind one
//! capability interface, hard-iron and soft-iron correction of the raw axes,
//! and the heading derived from the corrected field — always exposed
//! normalized into [0°, 360°).
//!
//! Raw axes are signed 16-bit counts; corrected axes are micro-counts;
//! headings and the declination are micro-degrees.

use vstd::prelude::*;
use vstd::arithmetic::div_mod::{
    lemma_fundamental_div_mod, lemma_fundamental_div_mod_converse_mod,
    lemma_mod_division_less_than_divisor,
};
use crate::bits::{lemma_shift_consts, signed_from_bytes};
use crate::bus::{Bus, BusError, I2CBit};
use crate::config::{cal_bounded, Config};
use crate::fixed::{abs, lemma_tdiv_mag, tdiv, tdiv_i128, SCALE};

verus! {

pub const HMC8553L_MAG_ADDR: u16 = 0x1E;

pub const HMC8553L_CONF_A: u8 = 0x00;

pub const HMC8553L_CONF_B: u8 = 0x01;

pub const HMC8553L_MODE: u8 = 0x02;

pub const HMC8553L_X_H: u8 = 0x03;

pub const HMC8553L_X_L: u8 = 0x04;

pub const HMC8553L_Z_H: u8 = 0x05;

pub const HMC8553L_Z_L: u8 = 0x06;

pub const HMC8553L_Y_H: u8 = 0x07;

pub const HMC8553L_Y_L: u8 = 0x08;

pub const QMC5883L_MAG_ADDR: u16 = 0x0D;

pub const QMC5883L_X_L: u8 = 0x00;

pub const QMC5883L_X_H: u8 = 0x01;

pub const QMC5883L_Y_L: u8 = 0x02;

pub const QMC5883L_Y_H: u8 = 0x03;

pub const QMC5883L_Z_L: u8 = 0x04;

pub const QMC5883L_Z_H: u8 = 0x05;

pub const QMC5883L_INFO: u8 = 0x06;

pub const QMC5883L_SETTINGS: u8 = 0x09;

pub const QMC5883L_SETRESET: u8 = 0x0B;

pub const QMC5883L_CHIP_ID: u8 = 0x0D;

pub const QMC5883L_INFO_DRDY_BIT: u8 = 0;

pub const QMC5883L_INFO_OVL_BIT: u8 = 1;

pub const QMC5883L_INFO_DOR_BIT: u8 = 2;

pub const QMC5883L_SETTINGS_MODE_BIT: u8 = 0;

pub const QMC5883L_SETTINGS_ODR_BIT: u8 = 2;

pub const QMC5883L_SETTINGS_RNG_BIT: u8 = 4;

pub const QMC5883L_SETTINGS_OSR_BIT: u8 = 6;

pub const QMC5883L_SETTINGS_SIZE: u8 = 2;

/// A full turn, in micro-degrees.
pub const TOUR_DEGRES: i64 = 360_000_000;

/// The capability interface of a three-axis magnetic sensor on the shared
/// bus: raw axis reads and a status byte. The concrete chip is selected at
/// startup configuration time.
pub trait MagSensor {
    /// The raw X field sample.
    fn get_mag_x_raw(&self, bus: &Bus) -> Result<i16, BusError>;

    /// The raw Y field sample.
    fn get_mag_y_raw(&self, bus: &Bus) -> Result<i16, BusError>;

    /// The raw Z field sample.
    fn get_mag_z_raw(&self, bus: &Bus) -> Result<i16, BusError>;

    /// The driver's status byte.
    fn get_status(&self) -> u8;
}

/// The HMC-style chip: big-endian axis registers in X, Z, Y order.
pub struct HMC8553L {
    pub status: u8,
}

impl HMC8553L {
    /// Address the chip and write its fixed gain/mode configuration,
    /// enabling continuous measurement.
    pub fn new(bus: &mut Bus) -> Result<HMC8553L, BusError> {
        let mut mag = HMC8553L { status: 0 };
        mag.set_slave(bus)?;
        mag.init_module(bus)?;
        Ok(mag)
    }

    /// Address this sensor on the shared bus.
    pub fn set_slave(&self, bus: &mut Bus) -> Result<(), BusError> {
        bus.set_slave_address(HMC8553L_MAG_ADDR)
    }

    /// The fixed configuration bytes: averaging and rate, gain, continuous
    /// measurement mode.
    pub fn init_module(&mut self, bus: &Bus) -> Result<(), BusError> {
        bus.ecriture_word(HMC8553L_CONF_A, 0x10)?;
        bus.ecriture_word(HMC8553L_CONF_B, 0x20)?;
        bus.ecriture_word(HMC8553L_MODE, 0x00)?;
        self.status = 0x1;
        Ok(())
    }

    /// All three raw axes, in X, Y, Z order.
    pub fn get_mag_axes_raw(&self, bus: &Bus) -> Result<[i16; 3], BusError> {
        let x = self.get_mag_x_raw(bus)?;
        let y = self.get_mag_y_raw(bus)?;
        let z = self.get_mag_z_raw(bus)?;
        Ok([x, y, z])
    }
}

impl MagSensor for HMC8553L {
    fn get_mag_x_raw(&self, bus: &Bus) -> Result<i16, BusError> {
        let high = bus.lecture_word(HMC8553L_X_H)?;
        let low = bus.lecture_word(HMC8553L_X_L)?;
        Ok(signed_from_bytes(high, low))
    }

    fn get_mag_y_raw(&self, bus: &Bus) -> Result<i16, BusError> {
        let high = bus.lecture_word(HMC8553L_Y_H)?;
        let low = bus.lecture_word(HMC8553L_Y_L)?;
        Ok(signed_from_bytes(high, low))
    }

    fn get_mag_z_raw(&self, bus: &Bus) -> Result<i16, BusError> {
        let high = bus.lecture_word(HMC8553L_Z_H)?;
        let low = bus.lecture_word(HMC8553L_Z_L)?;
        Ok(signed_from_bytes(high, low))
    }

    fn get_status(&self) -> u8 {
        self.status
    }
}

/// The QMC-style chip: little-endian axis registers and a settings register
/// of two-bit fields.
pub struct QMC5883L {
    pub status: u8,
}

impl QMC5883L {
    /// Address the chip and run its predefined initialization.
    pub fn new(bus: &mut Bus) -> Result<QMC5883L, BusError> {
        let mut mag = QMC5883L { status: 0 };
        mag.set_slave(bus)?;
        mag.init_module(bus)?;
        Ok(mag)
    }

    /// Address this sensor on the shared bus.
    pub fn set_slave(&self, bus: &mut Bus) -> Result<(), BusError> {
        bus.set_slave_address(QMC5883L_MAG_ADDR)
    }

    /// The predefined initialization: set/reset period, continuous mode,
    /// base output rate, scale and oversampling.
    pub fn init_module(&mut self, bus: &Bus) -> Result<(), BusError> {
        self.set_setreset(bus, true)?;
        self.set_mode(bus, 1)?;
        self.set_output_rate(bus, 0)?;
        self.set_scale(bus, 0)?;
        self.set_osr(bus, 0)?;
        self.status = self.status | 0x1;
        Ok(())
    }

    /// The chip identity register.
    pub fn get_chip_id(&self, bus: &Bus) -> Result<u8, BusError> {
        bus.lecture_word(QMC5883L_CHIP_ID)
    }

    /// Whether a fresh sample is ready.
    pub fn is_data_ready(&self, bus: &Bus) -> Result<bool, BusError> {
        bus.lecture_bit8(QMC5883L_INFO, QMC5883L_INFO_DRDY_BIT)
    }

    /// Whether the field saturates the sensor.
    pub fn is_overflow(&self, bus: &Bus) -> Result<bool, BusError> {
        bus.lecture_bit8(QMC5883L_INFO, QMC5883L_INFO_OVL_BIT)
    }

    /// Whether a sample was skipped.
    pub fn is_data_skip(&self, bus: &Bus) -> Result<bool, BusError> {
        bus.lecture_bit8(QMC5883L_INFO, QMC5883L_INFO_DOR_BIT)
    }

    /// Select the measurement mode field.
    pub fn set_mode(&self, bus: &Bus, param: u8) -> Result<(), BusError>
        requires
            param < 4,
    {
        proof {
            lemma_shift_consts();
        }
        bus.ecriture_bits8(QMC5883L_SETTINGS, QMC5883L_SETTINGS_MODE_BIT, QMC5883L_SETTINGS_SIZE, param)
    }

    /// Select the output data rate field.
    pub fn set_output_rate(&self, bus: &Bus, param: u8) -> Result<(), BusError>
        requires
            param < 4,
    {
        proof {
            lemma_shift_consts();
        }
        bus.ecriture_bits8(QMC5883L_SETTINGS, QMC5883L_SETTINGS_ODR_BIT, QMC5883L_SETTINGS_SIZE, param)
    }

    /// Select the full-scale field.
    pub fn set_scale(&self, bus: &Bus, param: u8) -> Result<(), BusError>
        requires
            param < 4,
    {
        proof {
            lemma_shift_consts();
        }
        bus.ecriture_bits8(QMC5883L_SETTINGS, QMC5883L_SETTINGS_RNG_BIT, QMC5883L_SETTINGS_SIZE, param)
    }

    /// Select the oversampling field.
    pub fn set_osr(&self, bus: &Bus, param: u8) -> Result<(), BusError>
        requires
            param < 4,
    {
        proof {
            lemma_shift_consts();
        }
        bus.ecriture_bits8(QMC5883L_SETTINGS, QMC5883L_SETTINGS_OSR_BIT, QMC5883L_SETTINGS_SIZE, param)
    }

    /// Drive the set/reset period bit.
    pub fn set_setreset(&self, bus: &Bus, activate: bool) -> Result<(), BusError> {
        bus.ecriture_bit8(QMC5883L_SETRESET, 0, activate)
    }
}

impl MagSensor for QMC5883L {
    fn get_mag_x_raw(&self, bus: &Bus) -> Result<i16, BusError> {
        let high = bus.lecture_word(QMC5883L_X_H)?;
        let low = bus.lecture_word(QMC5883L_X_L)?;
        Ok(signed_from_bytes(high, low))
    }

    fn get_mag_y_raw(&self, bus: &Bus) -> Result<i16, BusError> {
        let high = bus.lecture_word(QMC5883L_Y_H)?;
        let low = bus.lecture_word(QMC5883L_Y_L)?;
        Ok(signed_from_bytes(high, low))
    }

    fn get_mag_z_raw(&self, bus: &Bus) -> Result<i16, BusError> {
        let high = bus.lecture_word(QMC5883L_Z_H)?;
        let low = bus.lecture_word(QMC5883L_Z_L)?;
        Ok(signed_from_bytes(high, low))
    }

    fn get_status(&self) -> u8 {
        self.status
    }
}

/// The latest magnetometer values: the raw axes and the normalized heading
/// in micro-degrees.
#[derive(Clone, Copy, PartialEq, Eq, Structural, Debug)]
pub struct MAGData {
    pub status: u8,
    pub raw_x: i16,
    pub raw_y: i16,
    pub raw_z: i16,
    pub heading: i64,
}

/// One corrected axis: the hard-iron offset is subtracted from each raw axis
/// and the row vector is multiplied by column `j` of the soft-iron matrix.
pub open spec fn mag_corrected(raw: [i16; 3], hard: [i64; 3], soft: [[i64; 3]; 3], j: int) -> int {
    tdiv(
        (raw[0] * (SCALE as int) - hard[0]) * soft[0][j] + (raw[1] * (SCALE as int) - hard[1])
            * soft[1][j] + (raw[2] * (SCALE as int) - hard[2]) * soft[2][j],
        SCALE as int,
    )
}

/// A heading congruent to `h` modulo one full turn, normalized into
/// [0°, 360°).
pub open spec fn normalize_heading(h: int) -> int {
    h % (TOUR_DEGRES as int)
}

/// Whatever the raw heading computation produced, the exposed value lies in
/// [0°, 360°).
pub proof fn lemma_heading_normalized(h: int)
    ensures
        0 <= normalize_heading(h) < TOUR_DEGRES,
{
    lemma_mod_division_less_than_divisor(h, TOUR_DEGRES as int);
}

/// The heading estimator: hard- and soft-iron calibration, the opportunistic
/// GPS-fed declination, and the latest corrected values.
pub struct MAG {
    pub raw: [i16; 3],
    pub heading: i64,
    pub mag_decl: i64,
    pub hard_cal: [i64; 3],
    pub soft_cal: [[i64; 3]; 3],
    pub status: u8,
}

impl MAG {
    /// Well-formedness: calibration in the proved ranges and a declination
    /// below one full turn in magnitude.
    pub open spec fn wf(self) -> bool {
        &&& cal_bounded(self.hard_cal, self.soft_cal)
        &&& -TOUR_DEGRES < self.mag_decl < TOUR_DEGRES
    }

    /// An estimator carrying the configured calibration and declination.
    pub fn new(config: &Config) -> (m: MAG)
        requires
            config.wf(),
            -TOUR_DEGRES < config.mag_decl < TOUR_DEGRES,
        ensures
            m.wf(),
            m.hard_cal == config.hard_cal,
            m.soft_cal == config.soft_cal,
            m.mag_decl == config.mag_decl,
            m.heading == 0,
            m.raw[0] == 0 && m.raw[1] == 0 && m.raw[2] == 0,
    {
        MAG {
            raw: [0, 0, 0],
            heading: 0,
            mag_decl: config.mag_decl,
            hard_cal: config.hard_cal,
            soft_cal: config.soft_cal,
            status: 0,
        }
    }

    /// Correct a raw triplet: subtract the hard-iron offset and multiply by
    /// the soft-iron matrix, keeping the raw values for telemetry.
    pub fn update_from_raw(&mut self, raw: [i16; 3]) -> (c: [i64; 3])
        requires
            old(self).wf(),
        ensures
            final(self).raw == raw,
            final(self).heading == old(self).heading,
            final(self).mag_decl == old(self).mag_decl,
            final(self).hard_cal == old(self).hard_cal,
            final(self).soft_cal == old(self).soft_cal,
            final(self).wf(),
            forall|j: int|
                0 <= j < 3 ==> #[trigger] c[j] as int == mag_corrected(
                    raw,
                    old(self).hard_cal,
                    old(self).soft_cal,
                    j,
                ),
    {
        self.raw = raw;
        let c0 = corrected_axis(raw, &self.hard_cal, &self.soft_cal, 0);
        let c1 = corrected_axis(raw, &self.hard_cal, &self.soft_cal, 1);
        let c2 = corrected_axis(raw, &self.hard_cal, &self.soft_cal, 2);
        [c0, c1, c2]
    }

    /// Fold the field angle (from the corrected X and Y axes) and the
    /// declination into the exposed heading, normalized into [0°, 360°).
    pub fn set_heading_angle(&mut self, angle: i64)
        requires
            old(self).wf(),
            -1_000_000_000_000 <= angle <= 1_000_000_000_000,
        ensures
            final(self).heading as int == normalize_heading(
                -(angle + old(self).mag_decl),
            ),
            0 <= final(self).heading < TOUR_DEGRES,
            final(self).raw == old(self).raw,
            final(self).mag_decl == old(self).mag_decl,
            final(self).hard_cal == old(self).hard_cal,
            final(self).soft_cal == old(self).soft_cal,
            final(self).wf(),
    {
        self.heading = normalize_heading_exec(-(angle + self.mag_decl));
    }

    /// The latest values, for the snapshot.
    pub fn to_data(&self) -> (d: MAGData)
        ensures
            d.status == self.status,
            d.raw_x == self.raw[0] && d.raw_y == self.raw[1] && d.raw_z == self.raw[2],
            d.heading == self.heading,
    {
        MAGData {
            status: self.status,
            raw_x: self.raw[0],
            raw_y: self.raw[1],
            raw_z: self.raw[2],
            heading: self.heading,
        }
    }

    /// The empty reading a consumer sees while this sensor is absent.
    pub fn empty() -> (d: MAGData)
        ensures
            d.status == 0xFF,
            d.raw_x == 0 && d.raw_y == 0 && d.raw_z == 0,
            d.heading == 0,
    {
        MAGData { status: 0xFF, raw_x: 0, raw_y: 0, raw_z: 0, heading: 0 }
    }

    /// Overwrite the declination, in micro-degrees.
    pub fn feedback_set_mag_decl(&mut self, mag_decl: i64)
        requires
            -TOUR_DEGRES < mag_decl < TOUR_DEGRES,
        ensures
            final(self).mag_decl == mag_decl,
            final(self).raw == old(self).raw,
            final(self).heading == old(self).heading,
            final(self).hard_cal == old(self).hard_cal,
            final(self).soft_cal == old(self).soft_cal,
            old(self).wf() ==> final(self).wf(),
    {
        self.mag_decl = mag_decl;
    }

    /// Take the GPS-derived declination when it is available and nonzero;
    /// keep the configured value otherwise.
    pub fn feedback_from_gps(&mut self, mag_decl: i64)
        requires
            -TOUR_DEGRES < mag_decl < TOUR_DEGRES,
        ensures
            mag_decl != 0 ==> final(self).mag_decl == mag_decl,
            mag_decl == 0 ==> final(self).mag_decl == old(self).mag_decl,
            final(self).raw == old(self).raw,
            final(self).heading == old(self).heading,
            final(self).hard_cal == old(self).hard_cal,
            final(self).soft_cal == old(self).soft_cal,
            old(self).wf() ==> final(self).wf(),
    {
        if mag_decl != 0 {
            self.feedback_set_mag_decl(mag_decl);
        }
    }
}

/// One corrected axis, exactly `mag_corrected`.
fn corrected_axis(raw: [i16; 3], hard: &[i64; 3], soft: &[[i64; 3]; 3], j: usize) -> (c: i64)
    requires
        j < 3,
        cal_bounded(*hard, *soft),
    ensures
        c as int == mag_corrected(raw, *hard, *soft, j as int),
{
    let h0 = (raw[0] as i128) * (SCALE as i128) - (hard[0] as i128);
    let h1 = (raw[1] as i128) * (SCALE as i128) - (hard[1] as i128);
    let h2 = (raw[2] as i128) * (SCALE as i128) - (hard[2] as i128);
    proof {
        assert(abs(h0 as int * soft[0][j as int]) <= 2_000_000_000_000_000_000_000 && abs(
            h1 as int * soft[1][j as int],
        ) <= 2_000_000_000_000_000_000_000 && abs(h2 as int * soft[2][j as int])
            <= 2_000_000_000_000_000_000_000) by (nonlinear_arith)
            requires
                abs(h0 as int) <= 2_000_000_000_000,
                abs(h1 as int) <= 2_000_000_000_000,
                abs(h2 as int) <= 2_000_000_000_000,
                abs(soft[0][j as int] as int) <= 1_000_000_000,
                abs(soft[1][j as int] as int) <= 1_000_000_000,
                abs(soft[2][j as int] as int) <= 1_000_000_000,
        ;
        lemma_tdiv_mag(
            h0 as int * soft[0][j as int] + h1 as int * soft[1][j as int] + h2 as int
                * soft[2][j as int],
            SCALE as int,
            6_000_000_000_000_000_000_000,
        );
    }
    let somme = h0 * (soft[0][j] as i128) + h1 * (soft[1][j] as i128) + h2 * (soft[2][j] as i128);
    tdiv_i128(somme, SCALE as i128) as i64
}

/// Euclidean reduction into [0, TOUR_DEGRES): the result is congruent to `h`
/// and in range, whatever the sign of `h`.
fn normalize_heading_exec(h: i64) -> (r: i64)
    ensures
        r as int == normalize_heading(h as int),
        0 <= r < TOUR_DEGRES,
{
    let m: u64 = 360_000_000;
    if h >= 0 {
        let rem = (h as u64) % m;
        proof {
            lemma_mod_division_less_than_divisor(h as int, m as int);
        }
        rem as i64
    } else {
        let mag = (-(h as i128)) as u64;
        let rem = mag % m;
        proof {
            lemma_fundamental_div_mod(mag as int, m as int);
            lemma_mod_division_less_than_divisor(mag as int, m as int);
            let q = mag as int / m as int;
            if rem == 0 {
                assert(h as int == (-q) * (m as int) + 0) by (nonlinear_arith)
                    requires
                        mag as int == (m as int) * q && h as int == -(mag as int),
                ;
                lemma_fundamental_div_mod_converse_mod(h as int, m as int, -q, 0);
            } else {
                assert(h as int == (-q - 1) * (m as int) + ((m as int) - rem)) by (nonlinear_arith)
                    requires
                        mag as int == (m as int) * q + rem && h as int == -(mag as int),
                ;
                lemma_fundamental_div_mod_converse_mod(
                    h as int,
                    m as int,
                    -q - 1,
                    (m as int) - rem,
                );
            }
        }
        if rem == 0 {
            0
        } else {
            (m - rem) as i64
        }
    }
}

} // verus!
