//! The part of the receiver configuration that the solver reads.
use vstd::prelude::*;
use crate::time::Duration;

verus! {

/// Which physical effects the solver compensates for.
#[derive(Debug, Clone, Copy, PartialEq, Eq, Structural)]
pub struct Modeling {
    /// Subtract the satellite clock correction from the transmission time.
    pub sv_clock_bias: bool,
    /// Subtract the satellite group delay from the transmission time.
    pub sv_total_group_delay: bool,
    /// Compensate for the tropospheric delay.
    pub tropo_delay: bool,
    /// Compensate for the ionospheric delay. Guaranteed to have no effect.
    pub iono_delay: bool,
    /// Compensate for the rotation of the Earth during the signal's flight.
    /// Guaranteed to have no effect.
    pub earth_rotation: bool,
    /// Apply the relativistic clock correction. Guaranteed to have no effect.
    pub relativistic_clock_corr: bool,
}

/// Delay of the receiver's own radio frequency chain on one carrier.
#[derive(Debug, Clone, Copy, PartialEq, Eq, Structural)]
pub struct InternalDelay {
    /// Delay, in nanoseconds.
    pub delay: i32,
    /// Carrier frequency that suffers the delay, in hertz.
    pub frequency: u64,
}

/// Solver parametrization.
#[derive(Debug)]
pub struct Config {
    /// Effects to compensate for.
    pub modeling: Modeling,
    /// Order of the interpolation that resolves a satellite's sky state.
    pub interp_order: usize,
    /// Elevation mask, in microdegrees: satellites below it are set aside.
    pub min_sv_elev: Option<i64>,
    /// Least fraction of the Sun's disk, in parts per million, that a
    /// satellite in the Earth's penumbra must see to be kept.
    pub min_sv_sunlight_rate: Option<i64>,
    /// Known altitude offset, in millimetres, that overrides the vertical
    /// component of the solution.
    pub fixed_altitude: Option<i64>,
    /// Delay of the external reference clock.
    pub externalref_delay: Option<Duration>,
    /// Delays of the receiver's radio frequency chain, carrier by carrier.
    pub int_delay: Vec<InternalDelay>,
}

impl Modeling {
    /// No compensation at all.
    pub open spec fn none() -> Modeling {
        Modeling {
            sv_clock_bias: false,
            sv_total_group_delay: false,
            tropo_delay: false,
            iono_delay: false,
            earth_rotation: false,
            relativistic_clock_corr: false,
        }
    }
}

impl Default for Modeling {
    fn default() -> (modeling: Modeling)
        ensures
            modeling == Modeling::none(),
    {
        Modeling {
            sv_clock_bias: false,
            sv_total_group_delay: false,
            tropo_delay: false,
            iono_delay: false,
            earth_rotation: false,
            relativistic_clock_corr: false,
        }
    }
}

impl Config {
    /// Both configurations hold the same settings.
    pub open spec fn same_settings(self, other: Config) -> bool {
        &&& self.modeling == other.modeling
        &&& self.interp_order == other.interp_order
        &&& self.min_sv_elev == other.min_sv_elev
        &&& self.min_sv_sunlight_rate == other.min_sv_sunlight_rate
        &&& self.fixed_altitude == other.fixed_altitude
        &&& self.externalref_delay == other.externalref_delay
        &&& self.int_delay@ == other.int_delay@
    }

}

impl Clone for Config {
    fn clone(&self) -> (copy: Config)
        ensures
            copy.same_settings(*self),
    {
        let mut int_delay: Vec<InternalDelay> = Vec::new();
        let mut i: usize = 0;
        while i < self.int_delay.len()
            invariant
                i <= self.int_delay.len(),
                int_delay@ == self.int_delay@.subrange(0, i as int),
            decreases self.int_delay.len() - i,
        {
            int_delay.push(self.int_delay[i]);
            i += 1;
        }
        assert(int_delay@ =~= self.int_delay@);
        Config {
            modeling: self.modeling,
            interp_order: self.interp_order,
            min_sv_elev: self.min_sv_elev,
            min_sv_sunlight_rate: self.min_sv_sunlight_rate,
            fixed_altitude: self.fixed_altitude,
            externalref_delay: self.externalref_delay,
            int_delay,
        }
    }
}

impl Default for Config {
    fn default() -> (cfg: Config)
        ensures
            cfg.modeling == Modeling::none(),
            cfg.interp_order == 11,
            cfg.min_sv_elev is None,
            cfg.min_sv_sunlight_rate is None,
            cfg.fixed_altitude is None,
            cfg.externalref_delay is None,
            cfg.int_delay@.len() == 0,
    {
        Config {
            modeling: Modeling::default(),
            interp_order: 11,
            min_sv_elev: None,
            min_sv_sunlight_rate: None,
            fixed_altitude: None,
            externalref_delay: None,
            int_delay: Vec::new(),
        }
    }
}

} // verus!
