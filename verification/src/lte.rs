//! The cellular modem's contribution to the snapshot. The modem itself is
//! polled over the system message bus by the caller; the library only carries
//! its latest signal reading.

use vstd::prelude::*;

verus! {

/// The latest modem values: a driver status byte and the reported signal
/// power.
#[derive(Clone, Copy, PartialEq, Eq, Structural, Debug)]
pub struct LTEData {
    pub status: u8,
    pub power: u32,
}

impl LTEData {
    /// The empty reading a consumer sees while the modem is absent: the
    /// out-of-band power value marks it.
    pub fn empty() -> (d: LTEData)
        ensures
            d.status == 0xFF,
            d.power == 999,
    {
        LTEData { status: 0xFF, power: 999 }
    }
}

} // verus!
