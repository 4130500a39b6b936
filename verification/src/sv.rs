//! Satellite identities.
use vstd::prelude::*;

verus! {

/// Constellation, or augmentation service, that a satellite belongs to.
#[derive(Debug, Clone, Copy, PartialEq, Eq, Hash, Structural)]
pub enum Constellation {
    GPS,
    Glonass,
    BeiDou,
    QZSS,
    Galileo,
    IRNSS,
    WAAS,
    EGNOS,
    MSAS,
    GAGAN,
    BDSBAS,
    KASS,
    SDCM,
    ASBAS,
    SPAN,
    SBAS,
    AusNZ,
    GBAS,
    NSAS,
    ASAL,
    Mixed,
}

/// Identity of a satellite vehicle.
#[derive(Debug, Clone, Copy, PartialEq, Eq, Hash, Structural)]
pub struct SV {
    /// Identification number within the constellation.
    pub prn: u8,
    /// Constellation that the vehicle belongs to.
    pub constellation: Constellation,
}

impl SV {
    /// Identity of vehicle `prn` of `constellation`.
    pub fn new(constellation: Constellation, prn: u8) -> (sv: SV)
        ensures
            sv.constellation == constellation,
            sv.prn == prn,
    {
        SV { prn, constellation }
    }
}

} // verus!
