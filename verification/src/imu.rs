//! The inertial measurement unit: register map and initialization sequence,
//! raw axis reads over the shared bus, bias calibration by averaging samples
//! taken at rest, range-dependent scaling, and the speed-adaptive
//! complementary filter that fuses gyro integration with the
//! accelerometer-derived pitch and roll.
//!
//! Angles are micro-degrees, rates micro-degrees per second, accelerations
//! micro-g, temperatures milli-degrees Celsius.

use vstd::prelude::*;
use crate::bits::signed_from_bytes;
use crate::bus::{Bus, BusError, I2CBit};
use crate::clock::{instant_now, micros_between};
use crate::fixed::{lemma_tdiv_bound, sat64, sat_to_i64, tdiv, tdiv_i128, SCALE};

verus! {

pub const IMU_ADDR: u16 = 0x68;

pub const MPU6050_RA_GYRO_CONFIG: u8 = 0x1B;

pub const MPU6050_RA_ACCEL_CONFIG: u8 = 0x1C;

pub const MPU6050_RA_INT_PIN_CFG: u8 = 0x37;

pub const MPU6050_RA_ACCEL_XOUT_H: u8 = 0x3B;

pub const MPU6050_RA_ACCEL_XOUT_L: u8 = 0x3C;

pub const MPU6050_RA_ACCEL_YOUT_H: u8 = 0x3D;

pub const MPU6050_RA_ACCEL_YOUT_L: u8 = 0x3E;

pub const MPU6050_RA_ACCEL_ZOUT_H: u8 = 0x3F;

pub const MPU6050_RA_ACCEL_ZOUT_L: u8 = 0x40;

pub const MPU6050_RA_TEMP_OUT_H: u8 = 0x41;

pub const MPU6050_RA_TEMP_OUT_L: u8 = 0x42;

pub const MPU6050_RA_GYRO_XOUT_H: u8 = 0x43;

pub const MPU6050_RA_GYRO_XOUT_L: u8 = 0x44;

pub const MPU6050_RA_GYRO_YOUT_H: u8 = 0x45;

pub const MPU6050_RA_GYRO_YOUT_L: u8 = 0x46;

pub const MPU6050_RA_GYRO_ZOUT_H: u8 = 0x47;

pub const MPU6050_RA_GYRO_ZOUT_L: u8 = 0x48;

pub const MPU6050_RA_SIGNAL_PATH_RESET: u8 = 0x68;

pub const MPU6050_RA_USER_CTRL: u8 = 0x6A;

pub const MPU6050_RA_PWR_MGMT_1: u8 = 0x6B;

pub const MPU6050_RA_WHO_AM_I: u8 = 0x75;

pub const MPU6050_PWR1_SLEEP_BIT: u8 = 6;

pub const MPU6050_PWR1_TEMP_DIS_BIT: u8 = 3;

pub const MPU6050_PWR1_CLKSEL_BIT: u8 = 0;

pub const MPU6050_PWR1_CLKSEL_LENGTH: u8 = 3;

pub const MPU6050_CLOCK_PLL_XGYRO: u8 = 0x01;

pub const MPU6050_GCONFIG_FS_SEL_BIT: u8 = 3;

pub const MPU6050_GCONFIG_FS_SEL_LENGTH: u8 = 2;

pub const MPU6050_ACONFIG_AFS_SEL_BIT: u8 = 3;

pub const MPU6050_ACONFIG_AFS_SEL_LENGTH: u8 = 2;

pub const MPU6050_GYRO_FS_250: u8 = 0x00;

pub const MPU6050_GYRO_FS_500: u8 = 0x01;

pub const MPU6050_GYRO_FS_1000: u8 = 0x02;

pub const MPU6050_GYRO_FS_2000: u8 = 0x03;

pub const MPU6050_ACCEL_FS_2: u8 = 0x00;

pub const MPU6050_ACCEL_FS_4: u8 = 0x01;

pub const MPU6050_ACCEL_FS_8: u8 = 0x02;

pub const MPU6050_ACCEL_FS_16: u8 = 0x03;

/// Gyro sensitivity for a full-scale range code, in milli-LSB per deg/s.
pub open spec fn gyro_scale_of(range: int, previous: int) -> int {
    if range == 0 {
        131_000
    } else if range == 1 {
        65_500
    } else if range == 2 {
        32_800
    } else if range == 3 {
        16_400
    } else {
        previous
    }
}

/// Accelerometer sensitivity for a full-scale range code, in LSB per g.
pub open spec fn accel_scale_of(range: int, previous: int) -> int {
    if range == 0 {
        16_384
    } else if range == 1 {
        8_192
    } else if range == 2 {
        4_096
    } else if range == 3 {
        2_048
    } else {
        previous
    }
}

/// The sensor temperature in milli-degrees Celsius from a raw reading.
pub open spec fn temp_of(raw: int) -> int {
    tdiv(raw * 1000, 340) + 36_530
}

/// The complementary filter's gyro weight, in micro-units, for a speed in
/// micro-km/h: full trust in the gyro at 10 km/h and above, where vibration
/// noise dominates the accelerometer; below that, trust in the accelerometer
/// rises linearly from 0.80 toward 0.98 as the vehicle comes to rest.
pub open spec fn gyro_weight(speed: int) -> int {
    if speed >= 10_000_000 {
        1_000_000
    } else {
        800_000 + (180_000 * (10_000_000 - speed)) / 10_000_000
    }
}

/// An angle advanced by a rate over `dt_us` microseconds.
pub open spec fn integrate(angle: int, rate: int, dt_us: int) -> int {
    sat64(angle + tdiv(rate * dt_us, SCALE as int))
}

/// The weighted blend of the gyro-integrated angle and the
/// accelerometer-derived angle, with weight `w` in micro-units.
pub open spec fn blend(w: int, gyro_angle: int, accel_angle: int) -> int {
    sat64(tdiv(w * gyro_angle + ((SCALE as int) - w) * accel_angle, SCALE as int))
}

/// The three fused angles after one filter step: pitch and roll blend the
/// integrated gyro angle with the accelerometer estimate (the roll axis is
/// mounted mirrored, so its rate integrates negatively); yaw is pure gyro
/// integration and drifts — the magnetometer owns true heading.
pub open spec fn fuse_spec(
    angles: [i64; 3],
    accel_pitch: int,
    accel_roll: int,
    gyro: [i64; 3],
    dt_us: int,
    speed: int,
) -> (int, int, int) {
    let w = gyro_weight(speed);
    let gyro_pitch = integrate(angles[0] as int, gyro[0] as int, dt_us);
    let gyro_roll = sat64(angles[1] - tdiv((gyro[1] as int) * dt_us, SCALE as int));
    let gyro_yaw = integrate(angles[2] as int, gyro[2] as int, dt_us);
    (blend(w, gyro_pitch, accel_pitch), blend(w, gyro_roll, accel_roll), gyro_yaw)
}

/// The IMU's contribution to the snapshot: the fused angles as exposed (in
/// micro-degrees) and the temperature (milli-degrees Celsius).
#[derive(Clone, Copy, PartialEq, Eq, Structural, Debug)]
pub struct IMUData {
    pub status: u8,
    pub ax: i64,
    pub ay: i64,
    pub az: i64,
    pub temp: i64,
}

/// Whether the fused angles of `m` are exactly (`p`, `r`, `y`).
pub open spec fn angles_are(m: IMU, p: int, r: int, y: int) -> bool {
    m.angles[0] == p && m.angles[1] == r && m.angles[2] == y
}

/// The inertial unit: bias calibration, range-dependent sensitivities, the
/// fused orientation, the last temperature, and the wheel-speed feedback that
/// adapts the filter.
pub struct IMU {
    pub gyro_cal: [i64; 3],
    pub accel_cal: [i64; 3],
    pub gyro_scale: i64,
    pub accel_scale: i64,
    pub angles: [i64; 3],
    pub temp: i64,
    pub speed: u64,
    pub last_measurment: Option<std::time::Instant>,
}

impl IMU {
    /// Well-formedness: sensitivities are positive and biases are averages of
    /// raw 16-bit samples, in micro-LSB.
    pub open spec fn wf(self) -> bool {
        &&& self.gyro_scale >= 1
        &&& self.accel_scale >= 1
        &&& forall|j: int|
            0 <= j < 3 ==> -32_768_000_000 <= #[trigger] self.gyro_cal[j] <= 32_768_000_000
        &&& forall|j: int|
            0 <= j < 3 ==> -32_768_000_000 <= #[trigger] self.accel_cal[j] <= 32_768_000_000
    }

    /// Reset the device, select the gyro-referenced clock, enable the bypass
    /// and the temperature sensor, clear sleep, and set both full-scale
    /// ranges to their finest setting. Calibration is a separate step: the
    /// caller samples the sensor at rest and hands the samples to
    /// `calibration_imu`.
    pub fn new(bus: &mut Bus) -> (r: Result<IMU, BusError>)
        ensures
            r is Ok ==> {
                let imu = r->Ok_0;
                &&& imu.wf()
                &&& imu.gyro_scale == 131_000
                &&& imu.accel_scale == 16_384
                &&& imu.angles[0] == 0 && imu.angles[1] == 0 && imu.angles[2] == 0
                &&& imu.gyro_cal[0] == 0 && imu.gyro_cal[1] == 0 && imu.gyro_cal[2] == 0
                &&& imu.accel_cal[0] == 0 && imu.accel_cal[1] == 0 && imu.accel_cal[2] == 0
                &&& imu.speed == 0
            },
    {
        let mut imu = IMU {
            gyro_cal: [0, 0, 0],
            accel_cal: [0, 0, 0],
            gyro_scale: 131_000,
            accel_scale: 16_384,
            angles: [0, 0, 0],
            temp: 0,
            speed: 0,
            last_measurment: None,
        };
        imu.set_slave(bus)?;
        imu.reset(bus)?;
        imu.init_module(bus)?;
        Ok(imu)
    }

    /// Feed the filter the latest wheel speed, in micro-km/h.
    pub fn set_speed(&mut self, speed: u64)
        ensures
            final(self).speed == speed,
            final(self).angles == old(self).angles,
            final(self).gyro_cal == old(self).gyro_cal,
            final(self).accel_cal == old(self).accel_cal,
            final(self).gyro_scale == old(self).gyro_scale,
            final(self).accel_scale == old(self).accel_scale,
            final(self).temp == old(self).temp,
    {
        self.speed = speed;
    }

    /// Address this sensor on the shared bus.
    pub fn set_slave(&self, bus: &mut Bus) -> Result<(), BusError> {
        bus.set_slave_address(IMU_ADDR)
    }

    /// The device's identity register.
    pub fn whoami(&self, bus: &Bus) -> Result<u8, BusError> {
        bus.lecture_word(MPU6050_RA_WHO_AM_I)
    }

    /// Trigger every reset line of the device.
    pub fn reset(&self, bus: &Bus) -> Result<(), BusError> {
        bus.ecriture_word(MPU6050_RA_USER_CTRL, 0x07)?;
        bus.ecriture_word(MPU6050_RA_SIGNAL_PATH_RESET, 0x07)?;
        bus.ecriture_word(MPU6050_RA_PWR_MGMT_1, 0x80)?;
        Ok(())
    }

    /// The predefined initialization sequence: clock source, bypass,
    /// temperature sensor, wake, finest full-scale ranges.
    pub fn init_module(&mut self, bus: &Bus) -> (r: Result<(), BusError>)
        ensures
            r is Ok ==> final(self).gyro_scale == 131_000 && final(self).accel_scale == 16_384,
            final(self).gyro_cal == old(self).gyro_cal,
            final(self).accel_cal == old(self).accel_cal,
            final(self).angles == old(self).angles,
            final(self).speed == old(self).speed,
            final(self).temp == old(self).temp,
            final(self).gyro_scale == old(self).gyro_scale || final(self).gyro_scale == 131_000,
            final(self).accel_scale == old(self).accel_scale || final(self).accel_scale == 16_384,
    {
        proof {
            crate::bits::lemma_shift_consts();
        }
        self.set_clock_source(bus, MPU6050_CLOCK_PLL_XGYRO)?;
        self.set_i2c_bypass_enable(bus, true)?;
        self.set_temp_sensor_enable(bus, true)?;
        self.set_sleep_mode(bus, false)?;
        self.set_fullscale_accel_range(bus, MPU6050_ACCEL_FS_2)?;
        self.set_fullscale_gyro_range(bus, MPU6050_GYRO_FS_250)?;
        Ok(())
    }

    /// Whether the device is sleeping.
    pub fn is_sleep_mode(&self, bus: &Bus) -> Result<bool, BusError> {
        bus.lecture_bit8(MPU6050_RA_PWR_MGMT_1, MPU6050_PWR1_SLEEP_BIT)
    }

    /// Put the device to sleep or wake it.
    pub fn set_sleep_mode(&self, bus: &Bus, enable: bool) -> Result<(), BusError> {
        bus.ecriture_bit8(MPU6050_RA_PWR_MGMT_1, MPU6050_PWR1_SLEEP_BIT, enable)
    }

    /// Whether the temperature sensor is enabled (the register holds the
    /// disable bit).
    pub fn is_temp_sensor_enable(&self, bus: &Bus) -> Result<bool, BusError> {
        let disabled = bus.lecture_bit8(MPU6050_RA_PWR_MGMT_1, MPU6050_PWR1_TEMP_DIS_BIT)?;
        Ok(!disabled)
    }

    /// Enable or disable the temperature sensor.
    pub fn set_temp_sensor_enable(&self, bus: &Bus, enable: bool) -> Result<(), BusError> {
        bus.ecriture_bit8(MPU6050_RA_PWR_MGMT_1, MPU6050_PWR1_TEMP_DIS_BIT, !enable)
    }

    /// The clock source field.
    pub fn get_clock_source(&self, bus: &Bus) -> Result<u8, BusError> {
        bus.lecture_bits8(MPU6050_RA_PWR_MGMT_1, MPU6050_PWR1_CLKSEL_BIT, MPU6050_PWR1_CLKSEL_LENGTH)
    }

    /// Select the clock source.
    pub fn set_clock_source(&self, bus: &Bus, source: u8) -> Result<(), BusError>
        requires
            source < 8,
    {
        proof {
            crate::bits::lemma_shift_consts();
        }
        bus.ecriture_bits8(
            MPU6050_RA_PWR_MGMT_1,
            MPU6050_PWR1_CLKSEL_BIT,
            MPU6050_PWR1_CLKSEL_LENGTH,
            source,
        )
    }

    /// The gyro full-scale range field.
    pub fn get_fullscale_gyro_range(&self, bus: &Bus) -> Result<u8, BusError> {
        bus.lecture_bits8(
            MPU6050_RA_GYRO_CONFIG,
            MPU6050_GCONFIG_FS_SEL_BIT,
            MPU6050_GCONFIG_FS_SEL_LENGTH,
        )
    }

    /// Route the auxiliary bus through the device.
    pub fn set_i2c_bypass_enable(&self, bus: &Bus, enable: bool) -> Result<(), BusError> {
        bus.ecriture_bit8(MPU6050_RA_INT_PIN_CFG, 1, enable)
    }

    /// Whether the auxiliary bus is routed through.
    pub fn get_i2c_bypass_enable(&self, bus: &Bus) -> Result<bool, BusError> {
        bus.lecture_bit8(MPU6050_RA_INT_PIN_CFG, 1)
    }

    /// Set the gyro full-scale range and remember the matching sensitivity;
    /// an unknown code leaves the sensitivity untouched.
    pub fn set_fullscale_gyro_range(&mut self, bus: &Bus, range: u8) -> (r: Result<(), BusError>)
        requires
            range < 4,
        ensures
            r is Ok ==> final(self).gyro_scale as int == gyro_scale_of(
                range as int,
                old(self).gyro_scale as int,
            ),
            final(self).gyro_scale as int == gyro_scale_of(range as int, old(self).gyro_scale as int),
            final(self).accel_scale == old(self).accel_scale,
            final(self).gyro_cal == old(self).gyro_cal,
            final(self).accel_cal == old(self).accel_cal,
            final(self).angles == old(self).angles,
            final(self).speed == old(self).speed,
            final(self).temp == old(self).temp,
    {
        if range == MPU6050_GYRO_FS_250 {
            self.gyro_scale = 131_000;
        } else if range == MPU6050_GYRO_FS_500 {
            self.gyro_scale = 65_500;
        } else if range == MPU6050_GYRO_FS_1000 {
            self.gyro_scale = 32_800;
        } else if range == MPU6050_GYRO_FS_2000 {
            self.gyro_scale = 16_400;
        }
        proof {
            crate::bits::lemma_shift_consts();
        }
        bus.ecriture_bits8(
            MPU6050_RA_GYRO_CONFIG,
            MPU6050_GCONFIG_FS_SEL_BIT,
            MPU6050_GCONFIG_FS_SEL_LENGTH,
            range,
        )
    }

    /// The accelerometer full-scale range field.
    pub fn get_fullscale_accel_range(&self, bus: &Bus) -> Result<u8, BusError> {
        bus.lecture_bits8(
            MPU6050_RA_ACCEL_CONFIG,
            MPU6050_ACONFIG_AFS_SEL_BIT,
            MPU6050_ACONFIG_AFS_SEL_LENGTH,
        )
    }

    /// Set the accelerometer full-scale range and remember the matching
    /// sensitivity; an unknown code leaves the sensitivity untouched.
    pub fn set_fullscale_accel_range(&mut self, bus: &Bus, range: u8) -> (r: Result<(), BusError>)
        requires
            range < 4,
        ensures
            final(self).accel_scale as int == accel_scale_of(
                range as int,
                old(self).accel_scale as int,
            ),
            final(self).gyro_scale == old(self).gyro_scale,
            final(self).gyro_cal == old(self).gyro_cal,
            final(self).accel_cal == old(self).accel_cal,
            final(self).angles == old(self).angles,
            final(self).speed == old(self).speed,
            final(self).temp == old(self).temp,
    {
        if range == MPU6050_ACCEL_FS_2 {
            self.accel_scale = 16_384;
        } else if range == MPU6050_ACCEL_FS_4 {
            self.accel_scale = 8_192;
        } else if range == MPU6050_ACCEL_FS_8 {
            self.accel_scale = 4_096;
        } else if range == MPU6050_ACCEL_FS_16 {
            self.accel_scale = 2_048;
        }
        proof {
            crate::bits::lemma_shift_consts();
        }
        bus.ecriture_bits8(
            MPU6050_RA_ACCEL_CONFIG,
            MPU6050_ACONFIG_AFS_SEL_BIT,
            MPU6050_ACONFIG_AFS_SEL_LENGTH,
            range,
        )
    }

    /// The raw X acceleration sample.
    pub fn get_accel_x(&self, bus: &Bus) -> Result<i16, BusError> {
        let high = bus.lecture_word(MPU6050_RA_ACCEL_XOUT_H)?;
        let low = bus.lecture_word(MPU6050_RA_ACCEL_XOUT_L)?;
        Ok(signed_from_bytes(high, low))
    }

    /// The raw Y acceleration sample.
    pub fn get_accel_y(&self, bus: &Bus) -> Result<i16, BusError> {
        let high = bus.lecture_word(MPU6050_RA_ACCEL_YOUT_H)?;
        let low = bus.lecture_word(MPU6050_RA_ACCEL_YOUT_L)?;
        Ok(signed_from_bytes(high, low))
    }

    /// The raw Z acceleration sample.
    pub fn get_accel_z(&self, bus: &Bus) -> Result<i16, BusError> {
        let high = bus.lecture_word(MPU6050_RA_ACCEL_ZOUT_H)?;
        let low = bus.lecture_word(MPU6050_RA_ACCEL_ZOUT_L)?;
        Ok(signed_from_bytes(high, low))
    }

    /// The raw X angular rate sample.
    pub fn get_gyro_x(&self, bus: &Bus) -> Result<i16, BusError> {
        let high = bus.lecture_word(MPU6050_RA_GYRO_XOUT_H)?;
        let low = bus.lecture_word(MPU6050_RA_GYRO_XOUT_L)?;
        Ok(signed_from_bytes(high, low))
    }

    /// The raw Y angular rate sample.
    pub fn get_gyro_y(&self, bus: &Bus) -> Result<i16, BusError> {
        let high = bus.lecture_word(MPU6050_RA_GYRO_YOUT_H)?;
        let low = bus.lecture_word(MPU6050_RA_GYRO_YOUT_L)?;
        Ok(signed_from_bytes(high, low))
    }

    /// The raw Z angular rate sample.
    pub fn get_gyro_z(&self, bus: &Bus) -> Result<i16, BusError> {
        let high = bus.lecture_word(MPU6050_RA_GYRO_ZOUT_H)?;
        let low = bus.lecture_word(MPU6050_RA_GYRO_ZOUT_L)?;
        Ok(signed_from_bytes(high, low))
    }

    /// The raw acceleration triplet.
    pub fn get_accel_raw(&self, bus: &Bus) -> Result<[i16; 3], BusError> {
        let x = self.get_accel_x(bus)?;
        let y = self.get_accel_y(bus)?;
        let z = self.get_accel_z(bus)?;
        Ok([x, y, z])
    }

    /// The raw angular rate triplet.
    pub fn get_gyro_raw(&self, bus: &Bus) -> Result<[i16; 3], BusError> {
        let x = self.get_gyro_x(bus)?;
        let y = self.get_gyro_y(bus)?;
        let z = self.get_gyro_z(bus)?;
        Ok([x, y, z])
    }

    /// The sensor temperature in milli-degrees Celsius.
    pub fn get_actual_temp(&self, bus: &Bus) -> (r: Result<i64, BusError>)
        ensures
            r is Ok ==> exists|raw: int|
                -32768 <= raw < 32768 && r->Ok_0 as int == temp_of(raw),
    {
        let high = bus.lecture_word(MPU6050_RA_TEMP_OUT_H)?;
        let low = bus.lecture_word(MPU6050_RA_TEMP_OUT_L)?;
        let raw = signed_from_bytes(high, low);
        proof {
            lemma_tdiv_bound((raw as int) * 1000, 340);
            assert(-32_768_000 <= (raw as int) * 1000 <= 32_768_000) by (nonlinear_arith)
                requires
                    -32768 <= raw < 32768,
            ;
        }
        let milli = tdiv_i128((raw as i128) * 1000, 340) as i64 + 36_530;
        proof {
            assert(milli as int == temp_of(raw as int));
        }
        Ok(milli)
    }

    /// A calibrated, scaled acceleration sample in micro-g: the bias is
    /// subtracted and the raw count divided by the range sensitivity.
    pub fn scale_accel(&self, raw: i16, axis_cal: i64) -> (r: i64)
        requires
            self.wf(),
            -32_768_000_000 <= axis_cal <= 32_768_000_000,
        ensures
            r == tdiv(raw * (SCALE as int) - axis_cal, self.accel_scale as int),
    {
        proof {
            lemma_tdiv_bound((raw as int) * (SCALE as int) - axis_cal, self.accel_scale as int);
        }
        let micro = (raw as i128) * (SCALE as i128) - (axis_cal as i128);
        tdiv_i128(micro, self.accel_scale as i128) as i64
    }

    /// A calibrated, scaled angular rate sample in micro-deg/s: the bias is
    /// subtracted and the raw count divided by the milli-LSB sensitivity.
    pub fn scale_gyro(&self, raw: i16, axis_cal: i64) -> (r: i64)
        requires
            self.wf(),
            -32_768_000_000 <= axis_cal <= 32_768_000_000,
        ensures
            r == tdiv((raw * (SCALE as int) - axis_cal) * 1000, self.gyro_scale as int),
    {
        proof {
            lemma_tdiv_bound(
                ((raw as int) * (SCALE as int) - axis_cal) * 1000,
                self.gyro_scale as int,
            );
        }
        let micro = ((raw as i128) * (SCALE as i128) - (axis_cal as i128)) * 1000;
        tdiv_i128(micro, self.gyro_scale as i128) as i64
    }

    /// The calibrated acceleration triplet in micro-g: whatever raw triplet
    /// the device delivered, each axis is that sample debiased and scaled.
    pub fn get_accel(&self, bus: &Bus) -> (r: Result<[i64; 3], BusError>)
        requires
            self.wf(),
        ensures
            r is Ok ==> exists|x: i16, y: i16, z: i16|
                {
                    &&& r->Ok_0[0] == #[trigger] tdiv(
                        x * (SCALE as int) - self.accel_cal[0],
                        self.accel_scale as int,
                    )
                    &&& r->Ok_0[1] == #[trigger] tdiv(
                        y * (SCALE as int) - self.accel_cal[1],
                        self.accel_scale as int,
                    )
                    &&& r->Ok_0[2] == #[trigger] tdiv(
                        z * (SCALE as int) - self.accel_cal[2],
                        self.accel_scale as int,
                    )
                },
    {
        let raw = self.get_accel_raw(bus)?;
        let scaled = [
            self.scale_accel(raw[0], self.accel_cal[0]),
            self.scale_accel(raw[1], self.accel_cal[1]),
            self.scale_accel(raw[2], self.accel_cal[2]),
        ];
        proof {
            assert(scaled[0] == tdiv(
                raw[0] * (SCALE as int) - self.accel_cal[0],
                self.accel_scale as int,
            ));
        }
        Ok(scaled)
    }

    /// The calibrated angular rate triplet in micro-deg/s: whatever raw
    /// triplet the device delivered, each axis is that sample debiased and
    /// scaled.
    pub fn get_gyro(&self, bus: &Bus) -> (r: Result<[i64; 3], BusError>)
        requires
            self.wf(),
        ensures
            r is Ok ==> exists|x: i16, y: i16, z: i16|
                {
                    &&& r->Ok_0[0] == #[trigger] tdiv(
                        (x * (SCALE as int) - self.gyro_cal[0]) * 1000,
                        self.gyro_scale as int,
                    )
                    &&& r->Ok_0[1] == #[trigger] tdiv(
                        (y * (SCALE as int) - self.gyro_cal[1]) * 1000,
                        self.gyro_scale as int,
                    )
                    &&& r->Ok_0[2] == #[trigger] tdiv(
                        (z * (SCALE as int) - self.gyro_cal[2]) * 1000,
                        self.gyro_scale as int,
                    )
                },
    {
        let raw = self.get_gyro_raw(bus)?;
        let scaled = [
            self.scale_gyro(raw[0], self.gyro_cal[0]),
            self.scale_gyro(raw[1], self.gyro_cal[1]),
            self.scale_gyro(raw[2], self.gyro_cal[2]),
        ];
        proof {
            assert(scaled[0] == tdiv(
                (raw[0] * (SCALE as int) - self.gyro_cal[0]) * 1000,
                self.gyro_scale as int,
            ));
        }
        Ok(scaled)
    }

    /// Average raw samples taken at rest into the bias vectors, in micro-LSB.
    /// The vehicle must not move while the samples are taken.
    pub fn calibration_imu(&mut self, gyro_samples: &Vec<[i16; 3]>, accel_samples: &Vec<[i16; 3]>)
        requires
            1 <= gyro_samples@.len() <= 100_000,
            1 <= accel_samples@.len() <= 100_000,
        ensures
            old(self).gyro_scale >= 1 && old(self).accel_scale >= 1 ==> final(self).wf(),
            forall|j: int|
                0 <= j < 3 ==> #[trigger] final(self).gyro_cal[j] as int == tdiv(
                    axis_sum(gyro_samples@, j) * (SCALE as int),
                    gyro_samples@.len() as int,
                ),
            forall|j: int|
                0 <= j < 3 ==> #[trigger] final(self).accel_cal[j] as int == tdiv(
                    axis_sum(accel_samples@, j) * (SCALE as int),
                    accel_samples@.len() as int,
                ),
            final(self).gyro_scale == old(self).gyro_scale,
            final(self).accel_scale == old(self).accel_scale,
            final(self).angles == old(self).angles,
            final(self).speed == old(self).speed,
            final(self).temp == old(self).temp,
    {
        self.gyro_cal = average_axes(gyro_samples);
        self.accel_cal = average_axes(accel_samples);
        proof {
            lemma_average_bounded(gyro_samples@);
            lemma_average_bounded(accel_samples@);
        }
    }

    /// The fused orientation, negated axis by axis because the sensor is
    /// mounted upside down.
    pub fn get_angles(&self) -> (r: [i64; 3])
        ensures
            r[0] as int == sat64(-(self.angles[0] as int)),
            r[1] as int == sat64(-(self.angles[1] as int)),
            r[2] as int == sat64(-(self.angles[2] as int)),
    {
        [
            sat_to_i64(-(self.angles[0] as i128)),
            sat_to_i64(-(self.angles[1] as i128)),
            sat_to_i64(-(self.angles[2] as i128)),
        ]
    }

    /// The temperature recorded by the last update, in milli-degrees Celsius.
    pub fn get_temp(&self) -> (r: i64)
        ensures
            r == self.temp,
    {
        self.temp
    }

    /// One filter step over a given elapsed time: integrate the gyro rates
    /// onto the previous angles, then blend pitch and roll with the
    /// accelerometer estimates under the speed-adaptive weight.
    pub fn fuse(&mut self, accel_pitch: i64, accel_roll: i64, gyro: [i64; 3], dt_us: u64)
        ensures
            ({
                let (p, r, y) = fuse_spec(
                    old(self).angles,
                    accel_pitch as int,
                    accel_roll as int,
                    gyro,
                    dt_us as int,
                    old(self).speed as int,
                );
                angles_are(*final(self), p, r, y)
            }),
            final(self).gyro_cal == old(self).gyro_cal,
            final(self).accel_cal == old(self).accel_cal,
            final(self).gyro_scale == old(self).gyro_scale,
            final(self).accel_scale == old(self).accel_scale,
            final(self).speed == old(self).speed,
            final(self).temp == old(self).temp,
    {
        let w = gyro_weight_exec(self.speed);
        let gyro_pitch = integrate_exec(self.angles[0], gyro[0], dt_us);
        let gyro_roll = integrate_back_exec(self.angles[1], gyro[1], dt_us);
        let gyro_yaw = integrate_exec(self.angles[2], gyro[2], dt_us);
        let pitch = blend_exec(w, gyro_pitch, accel_pitch);
        let roll = blend_exec(w, gyro_roll, accel_roll);
        self.angles = [pitch, roll, gyro_yaw];
    }

    /// The latest values, for the snapshot: the exposed (negated) angles and
    /// the last temperature.
    pub fn read_values(&self) -> (d: IMUData)
        ensures
            d.status == 0,
            d.ax as int == sat64(-(self.angles[0] as int)),
            d.ay as int == sat64(-(self.angles[1] as int)),
            d.az as int == sat64(-(self.angles[2] as int)),
            d.temp == self.temp,
    {
        let a = self.get_angles();
        IMUData { status: 0, ax: a[0], ay: a[1], az: a[2], temp: self.temp }
    }

    /// The empty reading a consumer sees while this sensor is absent.
    pub fn empty() -> (d: IMUData)
        ensures
            d.status == 0xFF,
            d.ax == 0 && d.ay == 0 && d.az == 0 && d.temp == 0,
    {
        IMUData { status: 0xFF, ax: 0, ay: 0, az: 0, temp: 0 }
    }

    /// One filter step against the unit's own clock: the first call only arms
    /// the baseline instant, so startup cannot integrate a spurious gap.
    pub fn update_angles(&mut self, accel_pitch: i64, accel_roll: i64, gyro: [i64; 3])
        ensures
            exists|dt_us: int|
                #![trigger fuse_spec(old(self).angles, accel_pitch as int, accel_roll as int, gyro, dt_us, old(self).speed as int)]
                0 <= dt_us && {
                    let (p, r, y) = fuse_spec(
                        old(self).angles,
                        accel_pitch as int,
                        accel_roll as int,
                        gyro,
                        dt_us,
                        old(self).speed as int,
                    );
                    angles_are(*final(self), p, r, y)
                },
            final(self).gyro_cal == old(self).gyro_cal,
            final(self).accel_cal == old(self).accel_cal,
            final(self).gyro_scale == old(self).gyro_scale,
            final(self).accel_scale == old(self).accel_scale,
            final(self).speed == old(self).speed,
            final(self).temp == old(self).temp,
    {
        let now = instant_now();
        let dt_us: u64 = match &self.last_measurment {
            Some(baseline) => micros_between(baseline, &now),
            None => 0,
        };
        self.last_measurment = Some(now);
        self.fuse(accel_pitch, accel_roll, gyro, dt_us);
    }
}

/// The sum of one axis over a sequence of raw triplets.
pub open spec fn axis_sum(samples: Seq<[i16; 3]>, j: int) -> int
    decreases samples.len(),
{
    if samples.len() == 0 {
        0
    } else {
        axis_sum(samples.drop_last(), j) + samples.last()[j]
    }
}

/// An axis sum of `n` raw 16-bit samples is bounded by `n * 32768`.
proof fn lemma_axis_sum_bounded(samples: Seq<[i16; 3]>, j: int)
    requires
        0 <= j < 3,
    ensures
        -(samples.len() as int) * 32_768 <= axis_sum(samples, j) <= (samples.len() as int)
            * 32_768,
    decreases samples.len(),
{
    if samples.len() > 0 {
        lemma_axis_sum_bounded(samples.drop_last(), j);
    }
}

/// The scaled average stays within the raw sample range.
proof fn lemma_average_bounded(samples: Seq<[i16; 3]>)
    requires
        1 <= samples.len() <= 100_000,
    ensures
        forall|j: int|
            0 <= j < 3 ==> -32_768_000_000 <= #[trigger] tdiv(
                axis_sum(samples, j) * (SCALE as int),
                samples.len() as int,
            ) <= 32_768_000_000,
{
    assert forall|j: int| 0 <= j < 3 implies -32_768_000_000 <= #[trigger] tdiv(
        axis_sum(samples, j) * (SCALE as int),
        samples.len() as int,
    ) <= 32_768_000_000 by {
        lemma_axis_sum_bounded(samples, j);
        let s = axis_sum(samples, j);
        let n = samples.len() as int;
        assert(crate::fixed::abs(s * (SCALE as int)) <= n * 32_768 * (SCALE as int))
            by (nonlinear_arith)
            requires
                -n * 32_768 <= s <= n * 32_768,
                SCALE == 1_000_000,
                n >= 1,
        ;
        crate::fixed::lemma_tdiv_mag(s * (SCALE as int), n, n * 32_768 * (SCALE as int));
        assert(n * 32_768 * (SCALE as int) / n == 32_768 * (SCALE as int)) by (nonlinear_arith)
            requires
                n >= 1,
                SCALE == 1_000_000,
        ;
    }
}

/// Average each axis of a sample set, scaled to micro-LSB.
fn average_axes(samples: &Vec<[i16; 3]>) -> (r: [i64; 3])
    requires
        1 <= samples@.len() <= 100_000,
    ensures
        forall|j: int|
            0 <= j < 3 ==> #[trigger] r[j] as int == tdiv(
                axis_sum(samples@, j) * (SCALE as int),
                samples@.len() as int,
            ),
{
    let mut sums: [i64; 3] = [0, 0, 0];
    let mut i: usize = 0;
    while i < samples.len()
        invariant
            0 <= i <= samples@.len(),
            1 <= samples@.len() <= 100_000,
            forall|j: int|
                0 <= j < 3 ==> #[trigger] sums[j] as int == axis_sum(samples@.take(i as int), j),
            forall|j: int|
                0 <= j < 3 ==> -(i as int) * 32_768 <= #[trigger] sums[j] <= (i as int) * 32_768,
        decreases samples@.len() - i,
    {
        let s = samples[i];
        proof {
            assert(samples@.take(i as int + 1).drop_last() =~= samples@.take(i as int));
            assert(samples@.take(i as int + 1).last() == samples@[i as int]);
        }
        sums = [sums[0] + s[0] as i64, sums[1] + s[1] as i64, sums[2] + s[2] as i64];
        i = i + 1;
    }
    proof {
        assert(samples@.take(samples@.len() as int) =~= samples@);
    }
    let n = samples.len() as i64;
    let r0 = tdiv_i128((sums[0] as i128) * (SCALE as i128), n as i128);
    let r1 = tdiv_i128((sums[1] as i128) * (SCALE as i128), n as i128);
    let r2 = tdiv_i128((sums[2] as i128) * (SCALE as i128), n as i128);
    proof {
        lemma_average_bounded(samples@);
    }
    [r0 as i64, r1 as i64, r2 as i64]
}

/// The speed-adaptive gyro weight, in micro-units.
pub fn gyro_weight_exec(speed: u64) -> (w: i64)
    ensures
        w == gyro_weight(speed as int),
        800_000 <= w <= 1_000_000,
{
    if speed >= 10_000_000 {
        1_000_000
    } else {
        let blendin: u64 = (180_000 * (10_000_000 - speed)) / 10_000_000;
        (800_000 + blendin) as i64
    }
}

/// The integration step `rate * dt / SCALE`, exact and comfortably inside the
/// 128-bit intermediate range.
fn step_128(rate: i64, dt_us: u64) -> (q: i128)
    ensures
        q == tdiv(rate * dt_us, SCALE as int),
        crate::fixed::abs(q as int) <= (0x8000_0000_0000_0000_0000_0000_0000_0000
            - 0x8000_0000_0000_0000) / 1_000_000,
{
    proof {
        assert(crate::fixed::abs((rate as int) * (dt_us as int))
            <= 0x8000_0000_0000_0000_0000_0000_0000_0000 - 0x8000_0000_0000_0000)
            by (nonlinear_arith)
            requires
                i64::MIN <= rate <= i64::MAX,
                0 <= dt_us <= u64::MAX,
        ;
        crate::fixed::lemma_tdiv_mag(
            (rate as int) * (dt_us as int),
            SCALE as int,
            0x8000_0000_0000_0000_0000_0000_0000_0000 - 0x8000_0000_0000_0000,
        );
    }
    let p = (rate as i128) * (dt_us as i128);
    tdiv_i128(p, SCALE as i128)
}

/// One gyro integration: the previous angle advanced by `rate` over `dt_us`.
fn integrate_exec(angle: i64, rate: i64, dt_us: u64) -> (r: i64)
    ensures
        r == integrate(angle as int, rate as int, dt_us as int),
{
    let q = step_128(rate, dt_us);
    sat_to_i64((angle as i128) + q)
}

/// One mirrored gyro integration: the previous angle moved back by `rate`
/// over `dt_us`.
fn integrate_back_exec(angle: i64, rate: i64, dt_us: u64) -> (r: i64)
    ensures
        r == sat64(angle - tdiv(rate * dt_us, SCALE as int)),
{
    let q = step_128(rate, dt_us);
    sat_to_i64((angle as i128) - q)
}

/// At rest the filter converges on the accelerometer: with zero gyro rate and
/// zero speed, one step leaves the angle between its old value and the
/// accelerometer estimate, and shrinks its distance to that estimate to at
/// most 98% plus one micro-degree — the weight never reaches pure gyro
/// integration, so repeated updates close in on the accelerometer-only
/// estimate.
pub proof fn lemma_filter_converges(pitch: int, accel: int, dt_us: int)
    requires
        0 <= dt_us,
        i64::MIN <= pitch <= i64::MAX,
        i64::MIN <= accel <= i64::MAX,
    ensures
        gyro_weight(0) == 980_000,
        integrate(pitch, 0, dt_us) == pitch,
        accel <= pitch ==> accel <= blend(980_000, pitch, accel) <= pitch,
        pitch <= accel ==> pitch <= blend(980_000, pitch, accel) <= accel,
        crate::fixed::abs(blend(980_000, pitch, accel) - accel) <= (crate::fixed::abs(
            pitch - accel,
        ) * 98) / 100 + 1,
{
    vstd::arithmetic::div_mod::lemma_div_basics(dt_us);
    assert(0 * dt_us == 0) by (nonlinear_arith);
    vstd::arithmetic::div_mod::lemma_div_basics(SCALE as int);
    assert(tdiv(0, SCALE as int) == 0);
    let m = SCALE as int;
    let n = 980_000 * pitch + 20_000 * accel;
    let t0 = tdiv(n, m);
    crate::fixed::lemma_tdiv_mul(n, m);
    let r = n - m * t0;
    assert(m * (t0 - accel) == 980_000 * (pitch - accel) - r) by (nonlinear_arith)
        requires
            n == 980_000 * pitch + 20_000 * accel && r == n - m * t0 && m == 1_000_000,
    ;
    let d = pitch - accel;
    if d >= 0 {
        assert(m * (t0 - accel) > -m && m * (t0 - accel) < m * (d + 1)) by (nonlinear_arith)
            requires
                m * (t0 - accel) == 980_000 * d - r && -m < r < m && d >= 0 && m == 1_000_000,
        ;
        assert(t0 - accel > -1 && t0 - accel < d + 1) by (nonlinear_arith)
            requires
                m * (t0 - accel) > -m && m * (t0 - accel) < m * (d + 1) && m == 1_000_000,
        ;
        assert(blend(980_000, pitch, accel) == t0);
        lemma_contraction_bound(t0 - accel, d);
    } else {
        assert(m * (t0 - accel) < m && m * (t0 - accel) > m * (d - 1)) by (nonlinear_arith)
            requires
                m * (t0 - accel) == 980_000 * d - r && -m < r < m && d < 0 && m == 1_000_000,
        ;
        assert(t0 - accel < 1 && t0 - accel > d - 1) by (nonlinear_arith)
            requires
                m * (t0 - accel) < m && m * (t0 - accel) > m * (d - 1) && m == 1_000_000,
        ;
        assert(blend(980_000, pitch, accel) == t0);
        lemma_contraction_bound(-(t0 - accel), -d);
    }
}

/// From `100 * k <= 98 * d + 100` with `0 <= k <= d` follows
/// `k <= (d * 98) / 100 + 1`.
proof fn lemma_contraction_bound(k: int, d: int)
    requires
        0 <= k <= d,
        1_000_000 * k < 980_000 * d + 1_000_000,
    ensures
        k <= (d * 98) / 100 + 1,
{
    if k >= 1 {
        assert(100 * (k - 1) < 98 * d) by (nonlinear_arith)
            requires
                1_000_000 * k < 980_000 * d + 1_000_000,
        ;
        vstd::arithmetic::div_mod::lemma_div_by_multiple(k - 1, 100);
        assert((k - 1) * 100 == 100 * (k - 1)) by (nonlinear_arith);
        assert(98 * d == d * 98) by (nonlinear_arith);
        vstd::arithmetic::div_mod::lemma_div_is_ordered(100 * (k - 1), d * 98, 100);
    } else {
        vstd::arithmetic::div_mod::lemma_div_pos_is_pos(d * 98, 100);
        assert(d * 98 >= 0) by (nonlinear_arith)
            requires
                d >= 0,
        ;
    }
}

/// The weighted blend `(w * g + (SCALE - w) * a) / SCALE`, saturated.
fn blend_exec(w: i64, gyro_angle: i64, accel_angle: i64) -> (r: i64)
    requires
        0 <= w <= SCALE,
    ensures
        r == blend(w as int, gyro_angle as int, accel_angle as int),
{
    proof {
        assert(crate::fixed::abs((w as int) * (gyro_angle as int))
            <= 0x10_0000_0000_0000_0000_0000_0000 && crate::fixed::abs(
            ((SCALE as int) - w) * (accel_angle as int),
        ) <= 0x10_0000_0000_0000_0000_0000_0000) by (nonlinear_arith)
            requires
                0 <= w <= SCALE,
                SCALE == 1_000_000,
                i64::MIN <= gyro_angle <= i64::MAX,
                i64::MIN <= accel_angle <= i64::MAX,
        ;
    }
    let mixed = (w as i128) * (gyro_angle as i128) + ((SCALE as i128) - (w as i128)) * (
    accel_angle as i128);
    sat_to_i64(tdiv_i128(mixed, SCALE as i128))
}

} // verus!
