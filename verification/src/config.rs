//! The per-vehicle constant set, loaded once at startup from the external
//! store, with these hard-coded defaults when the store has none. All values
//! are fixed-point micro-units.

use vstd::prelude::*;

verus! {

/// PID gains, magnetic declination and magnetometer calibration.
///
/// `kp`, `ki`, `kd` are micro-gains; `mag_decl` is in micro-degrees;
/// `hard_cal` is the hard-iron offset vector in micro-LSB; `soft_cal` is the
/// soft-iron correction matrix in micro-units, row major.
#[derive(Clone, Copy, Debug)]
pub struct Config {
    pub kp: i64,
    pub ki: i64,
    pub kd: i64,
    pub mag_decl: i64,
    pub hard_cal: [i64; 3],
    pub soft_cal: [[i64; 3]; 3],
}

/// The calibration constants a well-formed configuration keeps within range:
/// wide enough for any physical sensor, tight enough that the corrections
/// provably stay inside 64 bits.
pub open spec fn cal_bounded(hard_cal: [i64; 3], soft_cal: [[i64; 3]; 3]) -> bool {
    &&& forall|i: int| 0 <= i < 3 ==> -1_000_000_000_000 <= #[trigger] hard_cal[i] <= 1_000_000_000_000
    &&& forall|i: int, j: int|
        0 <= i < 3 && 0 <= j < 3 ==> -1_000_000_000 <= #[trigger] soft_cal[i][j] <= 1_000_000_000
}

impl Config {
    /// A configuration is well formed when its magnetometer calibration is
    /// within the ranges the correction arithmetic is proved for.
    pub open spec fn wf(self) -> bool {
        cal_bounded(self.hard_cal, self.soft_cal)
    }

    /// The hard-coded default configuration.
    pub fn new() -> (c: Config)
        ensures
            c.kp == 1_000_000 && c.ki == 1_000_000 && c.kd == 1_000_000,
            c.mag_decl == 2_440_000,
            c.hard_cal[0] == 569_684_235 && c.hard_cal[1] == 246_047_980 && c.hard_cal[2]
                == -166_976_610,
            c.soft_cal[0][0] == 1_084_803 && c.soft_cal[0][1] == -44_089 && c.soft_cal[0][2]
                == 60_704,
            c.soft_cal[1][0] == -44_089 && c.soft_cal[1][1] == 1_036_047 && c.soft_cal[1][2]
                == 93_545,
            c.soft_cal[2][0] == 60_704 && c.soft_cal[2][1] == 93_545 && c.soft_cal[2][2]
                == 996_344,
            c.wf(),
    {
        Config {
            kp: 1_000_000,
            ki: 1_000_000,
            kd: 1_000_000,
            mag_decl: 2_440_000,
            hard_cal: [569_684_235, 246_047_980, -166_976_610],
            soft_cal: [
                [1_084_803, -44_089, 60_704],
                [-44_089, 1_036_047, 93_545],
                [60_704, 93_545, 996_344],
            ],
        }
    }
}

} // verus!
