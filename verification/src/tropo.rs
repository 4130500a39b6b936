//! Tropospheric delay at zenith and the choice of where it comes from.
use vstd::prelude::*;

verus! {

/// Tropospheric delay in the direction of zenith, in millimetres.
#[derive(Debug, Clone, Copy, PartialEq, Eq, Structural)]
pub struct TropoComponents {
    /// Zenith wet delay.
    pub zwd: i64,
    /// Zenith dry delay.
    pub zdd: i64,
}

/// Where the tropospheric delay of an epoch comes from.
#[derive(Debug, Clone, Copy, PartialEq, Eq, Structural)]
pub enum TropoSource {
    /// Components measured by the caller.
    Measured,
    /// Components computed by the zenith delay model.
    Modeled,
    /// No delay: nothing was measured and the modeling is switched off.
    Absent,
}

impl TropoComponents {
    /// No delay.
    pub open spec fn zero() -> TropoComponents {
        TropoComponents { zwd: 0, zdd: 0 }
    }
}

impl Default for TropoComponents {
    fn default() -> (components: TropoComponents)
        ensures
            components == TropoComponents::zero(),
    {
        TropoComponents { zwd: 0, zdd: 0 }
    }
}

/// Measured components override the model, and the model is consulted only
/// where the modeling is switched on.
pub open spec fn tropo_source_of(measured: Option<TropoComponents>, modeling: bool) -> TropoSource {
    if measured is Some {
        TropoSource::Measured
    } else if modeling {
        TropoSource::Modeled
    } else {
        TropoSource::Absent
    }
}

/// Where the tropospheric delay of an epoch comes from.
pub fn tropo_source(measured: &Option<TropoComponents>, modeling: bool) -> (source: TropoSource)
    ensures
        source == tropo_source_of(*measured, modeling),
{
    if measured.is_some() {
        TropoSource::Measured
    } else if modeling {
        TropoSource::Modeled
    } else {
        TropoSource::Absent
    }
}

} // verus!
