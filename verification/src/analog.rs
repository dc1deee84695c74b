//! The single-channel analog converter that measures the battery: gain and
//! data-rate configuration over 16-bit registers, single-shot conversions,
//! and the scaling from a raw count to micro-volts at the battery terminals.

use vstd::prelude::*;
use crate::bits::lemma_shift_consts;
use crate::bus::{Bus, BusError, I2CBit};
use crate::fixed::{abs, lemma_tdiv_mag, tdiv, tdiv_i128};

verus! {

pub const ANALOG_ADDR: u16 = 0x48;

pub const ADS1115_CONVERSION: u8 = 0x00;

pub const ADS1115_CONFIG: u8 = 0x01;

pub const ADS1115_LO_THRESH: u8 = 0x02;

pub const ADS1115_HI_THRESH: u8 = 0x03;

pub const ADS1115_CONFIG_OS_BIT: u8 = 15;

pub const ADS1115_CONFIG_MUX_BIT: u8 = 12;

pub const ADS1115_CONFIG_MUX_LEN: u8 = 3;

pub const ADS1115_CONFIG_PGA_BIT: u8 = 9;

pub const ADS1115_CONFIG_PGA_LEN: u8 = 3;

pub const ADS1115_CONFIG_MODE_BIT: u8 = 8;

pub const ADS1115_CONFIG_DR_BIT: u8 = 5;

pub const ADS1115_CONFIG_DR_LEN: u8 = 3;

pub const ADS1115_CONFIG_MUX_AIN0_AIN1_VAL: u16 = 0;

pub const ADS1115_CONFIG_DR_128_VAL: u16 = 4;

pub const ADS1115_CONFIG_PGA_FSR_6_144_VAL: u16 = 0;

pub const ADS1115_CONFIG_PGA_FSR_4_096_VAL: u16 = 1;

pub const ADS1115_CONFIG_PGA_FSR_2_048_VAL: u16 = 2;

pub const ADS1115_CONFIG_PGA_FSR_1_024_VAL: u16 = 3;

pub const ADS1115_CONFIG_PGA_FSR_0_512_VAL: u16 = 4;

pub const ADS1115_CONFIG_PGA_FSR_0_256_1_VAL: u16 = 5;

pub const ADS1115_CONFIG_PGA_FSR_0_256_2_VAL: u16 = 6;

/// The battery divider: terminal volts per volt at the converter input, in
/// micro-units.
pub const ANALOG_BATT_GAIN: i64 = 5_000_000;

/// Polls of the conversion-ready bit before a single-shot read is abandoned
/// as a bus failure (the next acquisition cycle simply retries).
pub const CONVERSION_POLL_LIMIT: u32 = 100_000;

/// The converter input step for a gain code, in picovolts per count: twice
/// the full-scale range over the 16-bit span. An unknown code falls back to
/// one volt per count.
pub open spec fn lsb_picovolts(gain: int) -> int {
    if gain == 0 {
        187_500_000
    } else if gain == 1 {
        125_000_000
    } else if gain == 2 {
        62_500_000
    } else if gain == 3 {
        31_250_000
    } else if gain == 4 {
        15_625_000
    } else if gain == 5 {
        7_812_500
    } else if gain == 6 {
        7_812_500
    } else {
        1_000_000_000_000
    }
}

/// A raw count near either rail is treated as a disconnected input and read
/// as zero.
pub open spec fn validated_raw(raw: int) -> int {
    if raw > 65_500 || raw < 100 {
        0
    } else {
        raw
    }
}

/// The battery voltage in micro-volts for a validated raw count, an input
/// step in picovolts and the divider gain.
pub open spec fn battery_microvolts(raw: int, lsb_pv: int) -> int {
    tdiv(validated_raw(raw) * lsb_pv * (ANALOG_BATT_GAIN as int), 1_000_000_000_000)
}

/// The battery converter. It holds no state of its own: every operation is a
/// bus transaction.
pub struct Analog {
}

impl Analog {
    /// Address the converter and configure its data rate and single-shot
    /// mode.
    pub fn new(bus: &mut Bus) -> Result<Analog, BusError> {
        let mut analog = Analog {  };
        analog.set_slave(bus)?;
        analog.init(bus)?;
        Ok(analog)
    }

    /// Address this converter on the shared bus.
    pub fn set_slave(&self, bus: &mut Bus) -> Result<(), BusError> {
        bus.set_slave_address(ANALOG_ADDR)
    }

    /// Reset to the power-on configuration, then select the data rate and
    /// single-shot mode.
    pub fn init(&mut self, bus: &Bus) -> Result<(), BusError> {
        self.reset(bus)?;
        self.set_datarate(bus, ADS1115_CONFIG_DR_128_VAL)?;
        self.set_mode(bus, true)?;
        Ok(())
    }

    /// The power-on configuration word and the default comparator
    /// thresholds.
    pub fn reset(&self, bus: &Bus) -> Result<(), BusError> {
        bus.ecriture_dword(ADS1115_CONFIG, 0x8583)?;
        self.set_lo_thresh(bus, 0x8000)?;
        self.set_hi_thresh(bus, 0x7FFF)?;
        Ok(())
    }

    /// The comparator's low threshold.
    pub fn set_lo_thresh(&self, bus: &Bus, seuil: u16) -> Result<(), BusError> {
        bus.ecriture_dword(ADS1115_LO_THRESH, seuil)
    }

    /// The comparator's high threshold.
    pub fn set_hi_thresh(&self, bus: &Bus, seuil: u16) -> Result<(), BusError> {
        bus.ecriture_dword(ADS1115_HI_THRESH, seuil)
    }

    /// Select which input pair the converter samples.
    pub fn set_input(&self, bus: &Bus, input: u16) -> Result<(), BusError>
        requires
            input < 8,
    {
        proof {
            lemma_shift_consts();
        }
        bus.ecriture_bits16(ADS1115_CONFIG, ADS1115_CONFIG_MUX_BIT, ADS1115_CONFIG_MUX_LEN, input)
    }

    /// Single-shot mode on `true`, continuous conversion on `false`.
    pub fn set_mode(&self, bus: &Bus, state: bool) -> Result<(), BusError> {
        bus.ecriture_bit16(ADS1115_CONFIG, ADS1115_CONFIG_MODE_BIT, state)
    }

    /// Select the sample rate.
    pub fn set_datarate(&self, bus: &Bus, dr: u16) -> Result<(), BusError>
        requires
            dr < 8,
    {
        proof {
            lemma_shift_consts();
        }
        bus.ecriture_bits16(ADS1115_CONFIG, ADS1115_CONFIG_DR_BIT, ADS1115_CONFIG_DR_LEN, dr)
    }

    /// Select the programmable gain and report the matching input step in
    /// picovolts per count.
    pub fn set_gain(&self, bus: &Bus, gain: u16) -> (r: Result<u64, BusError>)
        requires
            gain < 8,
        ensures
            r is Ok ==> r->Ok_0 as int == lsb_picovolts(gain as int),
    {
        proof {
            lemma_shift_consts();
        }
        bus.ecriture_bits16(ADS1115_CONFIG, ADS1115_CONFIG_PGA_BIT, ADS1115_CONFIG_PGA_LEN, gain)?;
        if gain == ADS1115_CONFIG_PGA_FSR_6_144_VAL {
            Ok(187_500_000)
        } else if gain == ADS1115_CONFIG_PGA_FSR_4_096_VAL {
            Ok(125_000_000)
        } else if gain == ADS1115_CONFIG_PGA_FSR_2_048_VAL {
            Ok(62_500_000)
        } else if gain == ADS1115_CONFIG_PGA_FSR_1_024_VAL {
            Ok(31_250_000)
        } else if gain == ADS1115_CONFIG_PGA_FSR_0_512_VAL {
            Ok(15_625_000)
        } else if gain == ADS1115_CONFIG_PGA_FSR_0_256_1_VAL {
            Ok(7_812_500)
        } else if gain == ADS1115_CONFIG_PGA_FSR_0_256_2_VAL {
            Ok(7_812_500)
        } else {
            Ok(1_000_000_000_000)
        }
    }

    /// Whether a single-shot conversion is still running.
    pub fn is_conversion_progress(&self, bus: &Bus) -> Result<bool, BusError> {
        let ready = bus.lecture_bit16(ADS1115_CONFIG, ADS1115_CONFIG_OS_BIT)?;
        Ok(!ready)
    }

    /// Start one single-shot conversion.
    pub fn start_conversion(&self, bus: &Bus) -> Result<(), BusError> {
        bus.ecriture_bit16(ADS1115_CONFIG, ADS1115_CONFIG_OS_BIT, true)
    }

    /// The raw conversion count.
    pub fn get_voltage_raw(&self, bus: &Bus) -> Result<u16, BusError> {
        bus.lecture_dword(ADS1115_CONVERSION)
    }

    /// One single-shot measurement on the selected input at the selected
    /// gain, in micro-volts at the battery terminals: rail-adjacent raw
    /// counts read as zero, and a conversion that never comes ready within
    /// the poll limit is a bus failure.
    pub fn get_voltage(&self, bus: &Bus, input: u16, gain: u16) -> (r: Result<i64, BusError>)
        requires
            input < 8,
            gain < 8,
        ensures
            r is Ok ==> exists|raw: int|
                0 <= raw < 65536 && r->Ok_0 as int == battery_microvolts(
                    raw,
                    lsb_picovolts(gain as int),
                ),
    {
        self.set_input(bus, input)?;
        let gain_adc = self.set_gain(bus, gain)?;
        self.start_conversion(bus)?;
        let mut polls: u32 = 0;
        let mut ready = false;
        while !ready && polls < CONVERSION_POLL_LIMIT
            invariant
                polls <= CONVERSION_POLL_LIMIT,
            decreases CONVERSION_POLL_LIMIT - polls,
        {
            let in_progress = self.is_conversion_progress(bus)?;
            ready = !in_progress;
            polls = polls + 1;
        }
        if !ready {
            return Err(BusError::Io);
        }
        let raw = self.get_voltage_raw(bus)?;
        let volts = scale_battery(raw, gain_adc);
        proof {
            assert(volts as int == battery_microvolts(raw as int, lsb_picovolts(gain as int)));
        }
        Ok(volts)
    }

    /// The battery voltage: one measurement of the battery divider input at
    /// the gain matching its range.
    pub fn get_battery(&mut self, bus: &mut Bus) -> (r: Result<i64, BusError>)
        ensures
            r is Ok ==> exists|raw: int|
                0 <= raw < 65536 && r->Ok_0 as int == battery_microvolts(
                    raw,
                    lsb_picovolts(ADS1115_CONFIG_PGA_FSR_4_096_VAL as int),
                ),
    {
        self.set_slave(bus)?;
        self.get_voltage(bus, ADS1115_CONFIG_MUX_AIN0_AIN1_VAL, ADS1115_CONFIG_PGA_FSR_4_096_VAL)
    }
}

/// Scale a raw count to micro-volts at the battery terminals: validate the
/// count, apply the input step and the divider gain.
pub fn scale_battery(raw: u16, lsb_pv: u64) -> (r: i64)
    requires
        lsb_pv <= 1_000_000_000_000,
    ensures
        r as int == battery_microvolts(raw as int, lsb_pv as int),
{
    let validated: u16 = if raw > 65_500 || raw < 100 {
        0
    } else {
        raw
    };
    proof {
        assert(abs((validated as int) * (lsb_pv as int) * (ANALOG_BATT_GAIN as int))
            <= 400_000_000_000_000_000_000_000_000) by (nonlinear_arith)
            requires
                0 <= validated < 65536,
                0 <= lsb_pv <= 1_000_000_000_000,
                ANALOG_BATT_GAIN == 5_000_000,
        ;
        lemma_tdiv_mag(
            (validated as int) * (lsb_pv as int) * (ANALOG_BATT_GAIN as int),
            1_000_000_000_000,
            400_000_000_000_000_000_000_000_000,
        );
    }
    let pico = (validated as i128) * (lsb_pv as i128) * (ANALOG_BATT_GAIN as i128);
    tdiv_i128(pico, 1_000_000_000_000) as i64
}

} // verus!
