//! The latest-value sensor snapshot: one aggregate overwritten wholesale by
//! the acquisition side and read copy-on-read by consumers. A failing sensor
//! leaves its field at the last known value — the merge rule here is what
//! guarantees that —, so each field may be up to one polling interval stale.

use vstd::prelude::*;
use crate::gps::GPSData;
use crate::imu::IMUData;
use crate::mag::{MAG, MAGData};

verus! {

/// The latest battery reading, in micro-volts.
#[derive(Clone, Copy, PartialEq, Eq, Structural, Debug)]
pub struct AnalogData {
    pub battery: i64,
}

impl AnalogData {
    /// The empty reading a consumer sees while the converter is absent.
    pub fn empty() -> (d: AnalogData)
        ensures
            d.battery == 0,
    {
        AnalogData { battery: 0 }
    }
}

/// The latest-known aggregate of every sensor, stamped with the time it was
/// assembled (seconds since the epoch).
#[derive(Clone, Copy, PartialEq, Eq, Structural, Debug)]
pub struct SensorsData {
    pub imu: IMUData,
    pub gps: GPSData,
    pub mag: MAGData,
    pub analog: AnalogData,
    pub time: u64,
}

impl SensorsData {
    /// The snapshot before any sensor has reported.
    pub fn empty() -> (d: SensorsData)
        ensures
            d.imu.status == 0xFF && d.imu.ax == 0 && d.imu.ay == 0 && d.imu.az == 0 && d.imu.temp
                == 0,
            d.gps == (GPSData {
                speed_kmh: 0,
                latitude: 0,
                longitude: 0,
                satellites: 0,
                fix: false,
                heading: 0,
                decli_mag: 0,
            }),
            d.mag.status == 0xFF && d.mag.raw_x == 0 && d.mag.raw_y == 0 && d.mag.raw_z == 0
                && d.mag.heading == 0,
            d.analog.battery == 0,
            d.time == 0,
    {
        SensorsData {
            imu: crate::imu::IMU::empty(),
            gps: GPSData::empty(),
            mag: MAG::empty(),
            analog: AnalogData::empty(),
            time: 0,
        }
    }

    /// Fold one acquisition cycle into the snapshot: a sensor that reported
    /// overwrites its field, a sensor that failed leaves its field at the
    /// last known value.
    pub fn merge(
        &mut self,
        imu: Option<IMUData>,
        gps: Option<GPSData>,
        mag: Option<MAGData>,
        analog: Option<AnalogData>,
        time: u64,
    )
        ensures
            final(self).imu == imu.unwrap_or(old(self).imu),
            final(self).gps == gps.unwrap_or(old(self).gps),
            final(self).mag == mag.unwrap_or(old(self).mag),
            final(self).analog == analog.unwrap_or(old(self).analog),
            final(self).time == time,
    {
        if let Some(v) = imu {
            self.imu = v;
        }
        if let Some(v) = gps {
            self.gps = v;
        }
        if let Some(v) = mag {
            self.mag = v;
        }
        if let Some(v) = analog {
            self.analog = v;
        }
        self.time = time;
    }
}

} // verus!
