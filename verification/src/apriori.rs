//! Position of the receiver as known before the fix.
use vstd::prelude::*;
use crate::vector::Vector3D;

verus! {

/// Position of the receiver as known before the fix.
#[derive(Debug, Clone, Copy, PartialEq, Eq, Structural)]
pub struct AprioriPosition {
    /// Earth-centered, Earth-fixed coordinates, in millimetres.
    pub ecef: Vector3D,
    /// Latitude and longitude, in microdegrees, and altitude above sea
    /// level, in millimetres.
    pub geodetic: Vector3D,
}

impl AprioriPosition {
    /// The position with the given coordinates in both frames.
    pub fn new(ecef: Vector3D, geodetic: Vector3D) -> (apriori: AprioriPosition)
        ensures
            apriori.ecef == ecef,
            apriori.geodetic == geodetic,
    {
        AprioriPosition { ecef, geodetic }
    }
}

} // verus!
