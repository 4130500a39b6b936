//! Instants and time spans, counted in whole nanoseconds.
use vstd::prelude::*;

verus! {

/// Time scale in which an instant is counted.
#[derive(Debug, Clone, Copy, PartialEq, Eq, Structural)]
pub enum TimeScale {
    /// International atomic time.
    TAI,
    /// Terrestrial time.
    TT,
    /// Ephemeris time.
    ET,
    /// Barycentric dynamical time.
    TDB,
    /// Coordinated universal time.
    UTC,
    /// GPS time.
    GPST,
    /// Galileo system time.
    GST,
    /// BeiDou time.
    BDT,
    /// QZSS time.
    QZSST,
    /// Geocentric coordinate time.
    TCG,
    /// Barycentric coordinate time.
    TCB,
    /// Lunar time.
    TL,
    /// Lunar coordinate time.
    TCL,
}

/// A signed time span.
#[derive(Debug, Clone, Copy, PartialEq, Eq, Structural)]
pub struct Duration {
    /// Length of the span, in nanoseconds.
    pub nanoseconds: i64,
}

/// An instant of a time scale.
#[derive(Debug, Clone, Copy, PartialEq, Eq, Structural)]
pub struct Epoch {
    /// Nanoseconds elapsed since the reference instant of the time scale.
    pub nanoseconds: i128,
    /// Time scale in which the nanoseconds are counted.
    pub time_scale: TimeScale,
}

impl Duration {
    /// The empty time span.
    pub fn zero() -> (span: Duration)
        ensures
            span.nanoseconds == 0,
    {
        Duration { nanoseconds: 0 }
    }

    /// A time span of `nanoseconds` nanoseconds.
    pub fn from_nanoseconds(nanoseconds: i64) -> (span: Duration)
        ensures
            span.nanoseconds == nanoseconds,
    {
        Duration { nanoseconds }
    }
}

impl Epoch {
    /// The instant `nanoseconds` after the reference instant of `time_scale`.
    pub fn from_nanoseconds(nanoseconds: i128, time_scale: TimeScale) -> (epoch: Epoch)
        ensures
            epoch.nanoseconds == nanoseconds,
            epoch.time_scale == time_scale,
    {
        Epoch { nanoseconds, time_scale }
    }

    /// The instant `lead` nanoseconds before this one, in the same time
    /// scale.
    pub open spec fn earlier_by(self, lead: int) -> Epoch
        recommends
            i128::MIN <= self.nanoseconds - lead <= i128::MAX,
    {
        Epoch { nanoseconds: (self.nanoseconds - lead) as i128, time_scale: self.time_scale }
    }
}

} // verus!
