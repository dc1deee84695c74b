//! The GPS side of the snapshot: frame extraction from the serial byte
//! stream, and the rules that fold parsed position and course records into
//! the latest-known values. Sentence tokenization itself is a standard text
//! protocol handled by the caller; what is verified is everything the rest of
//! the system depends on.
//!
//! Coordinates and headings are micro-degrees, speeds micro-km/h.

use vstd::prelude::*;

verus! {

/// The newline byte that ends a serial frame.
pub const FRAME_END: u8 = 10;

/// The latest GPS values. `decli_mag` is the GPS-derived magnetic
/// declination handed to the magnetometer as feedback when nonzero.
#[derive(Clone, Copy, PartialEq, Eq, Structural, Debug)]
pub struct GPSData {
    pub speed_kmh: i64,
    pub latitude: i64,
    pub longitude: i64,
    pub satellites: u8,
    pub fix: bool,
    pub heading: i64,
    pub decli_mag: i64,
}

impl GPSData {
    /// The empty reading a consumer sees before the first fix report.
    pub fn empty() -> (d: GPSData)
        ensures
            d.speed_kmh == 0 && d.latitude == 0 && d.longitude == 0,
            d.satellites == 0 && !d.fix && d.heading == 0 && d.decli_mag == 0,
    {
        GPSData {
            speed_kmh: 0,
            latitude: 0,
            longitude: 0,
            satellites: 0,
            fix: false,
            heading: 0,
            decli_mag: 0,
        }
    }

    /// Fold a position record into the snapshot: absent fields read as zero,
    /// speed and course are untouched.
    pub fn apply_gga(
        &mut self,
        latitude: Option<i64>,
        longitude: Option<i64>,
        satellites: Option<u8>,
        fix: bool,
    )
        ensures
            final(self).latitude == latitude.unwrap_or(0),
            final(self).longitude == longitude.unwrap_or(0),
            final(self).satellites == satellites.unwrap_or(0),
            final(self).fix == fix,
            final(self).speed_kmh == old(self).speed_kmh,
            final(self).heading == old(self).heading,
            final(self).decli_mag == old(self).decli_mag,
    {
        self.latitude = match latitude {
            Some(v) => v,
            None => 0,
        };
        self.longitude = match longitude {
            Some(v) => v,
            None => 0,
        };
        self.satellites = match satellites {
            Some(v) => v,
            None => 0,
        };
        self.fix = fix;
    }

    /// Fold a course record into the snapshot: absent fields read as zero,
    /// the position is untouched.
    pub fn apply_vtg(&mut self, sog_kmh: Option<i64>, cog_true: Option<i64>)
        ensures
            final(self).speed_kmh == sog_kmh.unwrap_or(0),
            final(self).heading == cog_true.unwrap_or(0),
            final(self).latitude == old(self).latitude,
            final(self).longitude == old(self).longitude,
            final(self).satellites == old(self).satellites,
            final(self).fix == old(self).fix,
            final(self).decli_mag == old(self).decli_mag,
    {
        self.speed_kmh = match sog_kmh {
            Some(v) => v,
            None => 0,
        };
        self.heading = match cog_true {
            Some(v) => v,
            None => 0,
        };
    }
}

/// Split the first serial frame off the receive buffer: everything up to and
/// including the first newline, and the rest. `None` while no newline has
/// arrived yet.
pub fn split_frame(buffer: &Vec<u8>) -> (r: Option<(Vec<u8>, Vec<u8>)>)
    ensures
        match r {
            Some(parts) => {
                &&& parts.0@ + parts.1@ == buffer@
                &&& parts.0@.len() >= 1
                &&& parts.0@.last() == FRAME_END
                &&& forall|i: int| 0 <= i < parts.0@.len() - 1 ==> parts.0@[i] != FRAME_END
            },
            None => forall|i: int| 0 <= i < buffer@.len() ==> buffer@[i] != FRAME_END,
        },
{
    let n = buffer.len();
    let mut idx: usize = 0;
    while idx < n && buffer[idx] != FRAME_END
        invariant
            0 <= idx <= n,
            n == buffer@.len(),
            forall|i: int| 0 <= i < idx ==> buffer@[i] != FRAME_END,
        decreases n - idx,
    {
        idx = idx + 1;
    }
    if idx == n {
        return None;
    }
    let mut frame: Vec<u8> = Vec::new();
    let mut i: usize = 0;
    while i <= idx
        invariant
            0 <= i <= idx + 1,
            idx < n,
            n == buffer@.len(),
            frame@ =~= buffer@.subrange(0, i as int),
        decreases idx + 1 - i,
    {
        frame.push(buffer[i]);
        proof {
            assert(frame@ =~= buffer@.subrange(0, i as int + 1));
        }
        i = i + 1;
    }
    let mut rest: Vec<u8> = Vec::new();
    let mut k: usize = idx + 1;
    while k < n
        invariant
            idx + 1 <= k <= n,
            n == buffer@.len(),
            rest@ =~= buffer@.subrange(idx as int + 1, k as int),
        decreases n - k,
    {
        rest.push(buffer[k]);
        proof {
            assert(rest@ =~= buffer@.subrange(idx as int + 1, k as int + 1));
        }
        k = k + 1;
    }
    proof {
        assert(frame@ + rest@ =~= buffer@);
        assert(frame@.last() == buffer@[idx as int]);
    }
    Some((frame, rest))
}

} // verus!
