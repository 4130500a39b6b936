//! Position solving candidate: what was observed of one satellite at one
//! sampling instant.
use vstd::prelude::*;
use crate::cfg::Config;
use crate::fixed::{flight_time, range_to_nanos, NANOS_PER_SECOND};
use crate::solver::{Error, InterpolationResult};
use crate::sv::SV;
use crate::time::{Duration, Epoch};
use crate::vector::Vector3D;

verus! {

/// Pseudo range observation on one carrier frequency.
#[derive(Debug, Clone, Copy, PartialEq, Eq, Structural)]
pub struct PseudoRange {
    /// Raw pseudo range, in millimetres.
    pub value: i64,
    /// Carrier frequency, in hertz.
    pub frequency: u64,
}

/// Position solving candidate. It always holds at least one pseudo range.
#[derive(Debug)]
pub struct Candidate {
    /// Satellite that was observed.
    pub(crate) sv: SV,
    /// Instant at which the signals were sampled.
    pub(crate) t: Epoch,
    /// Sky state of the satellite, once it has been resolved.
    pub(crate) state: Option<InterpolationResult>,
    /// Group delay of the satellite.
    pub(crate) tgd: Option<Duration>,
    /// Clock state of the satellite: offset, drift and drift rate.
    pub(crate) clock_state: Vector3D,
    /// Clock correction of the satellite.
    pub(crate) clock_corr: Duration,
    /// Signal to noise ratio at the sampling instant, in thousandths of dB.
    pub(crate) snr: Option<i64>,
    /// Pseudo ranges observed at the sampling instant.
    pub(crate) pseudo_range: Vec<PseudoRange>,
}

/// What a candidate holds.
pub struct CandidateView {
    pub sv: SV,
    pub t: Epoch,
    pub state: Option<InterpolationResult>,
    pub tgd: Option<Duration>,
    pub clock_state: Vector3D,
    pub clock_corr: Duration,
    pub snr: Option<i64>,
    pub pseudo_range: Seq<PseudoRange>,
}

impl CandidateView {
    /// The pseudo range that the solver works with: the first one observed,
    /// whatever its carrier.
    pub open spec fn selected(self) -> PseudoRange {
        self.pseudo_range[0]
    }

    /// The same candidate with `state` as its resolved sky state.
    pub open spec fn resolved(self, state: InterpolationResult) -> CandidateView {
        CandidateView { state: Some(state), ..self }
    }

    /// Nanoseconds by which the transmission precedes the sampling: the
    /// signal's flight time, plus the satellite's clock correction and group
    /// delay where `cfg` asks to compensate for them.
    pub open spec fn signal_lead(self, cfg: Config) -> int {
        range_to_nanos(self.selected().value as int) + (if cfg.modeling.sv_clock_bias {
            self.clock_corr.nanoseconds as int
        } else {
            0
        }) + (if cfg.modeling.sv_total_group_delay && self.tgd is Some {
            self.tgd->0.nanoseconds as int
        } else {
            0
        })
    }

    /// The instant at which the signal left the satellite, or the error that
    /// says that no physically possible instant came out.
    pub open spec fn transmission_time(self, cfg: Config) -> Result<Epoch, Error> {
        let lead = self.signal_lead(cfg);
        if plausible_lead(lead) && i128::MIN <= self.t.nanoseconds - lead {
            Ok(self.t.earlier_by(lead))
        } else {
            Err(Error::ImplausibleTransmissionTime)
        }
    }
}

/// A signal is physically possible only if it left the satellite before it
/// was sampled, and less than a second before.
pub open spec fn plausible_lead(lead: int) -> bool {
    0 < lead < NANOS_PER_SECOND
}

impl View for Candidate {
    type V = CandidateView;

    closed spec fn view(&self) -> CandidateView {
        CandidateView {
            sv: self.sv,
            t: self.t,
            state: self.state,
            tgd: self.tgd,
            clock_state: self.clock_state,
            clock_corr: self.clock_corr,
            snr: self.snr,
            pseudo_range: self.pseudo_range@,
        }
    }
}

/// What each candidate of a pool holds, in the pool's order.
pub open spec fn views(pool: Seq<Candidate>) -> Seq<CandidateView> {
    pool.map_values(|c: Candidate| c@)
}

impl Clone for Candidate {
    fn clone(&self) -> (copy: Candidate)
        ensures
            copy@ == self@,
    {
        proof {
            use_type_invariant(self);
        }
        let mut pseudo_range: Vec<PseudoRange> = Vec::new();
        let mut i: usize = 0;
        while i < self.pseudo_range.len()
            invariant
                i <= self.pseudo_range@.len(),
                pseudo_range@ == self.pseudo_range@.subrange(0, i as int),
            decreases self.pseudo_range@.len() - i,
        {
            pseudo_range.push(self.pseudo_range[i]);
            i += 1;
        }
        assert(pseudo_range@ =~= self.pseudo_range@);
        Candidate {
            sv: self.sv,
            t: self.t,
            state: self.state,
            tgd: self.tgd,
            clock_state: self.clock_state,
            clock_corr: self.clock_corr,
            snr: self.snr,
            pseudo_range,
        }
    }
}

impl Candidate {
    #[verifier::type_invariant]
    spec fn well_formed(self) -> bool {
        self.pseudo_range@.len() >= 1
    }

    /// Creates a candidate to inject in the solver's pool.
    ///
    /// `sv` is the satellite, `t` the instant at which its signals were
    /// sampled, `clock_state` and `clock_corr` its clock state and the
    /// correction to apply, `snr` the signal to noise ratio at `t` and
    /// `pseudo_range` the observations, on as many carriers as there are.
    /// A candidate without any pseudo range is refused.
    pub fn new(
        sv: SV,
        t: Epoch,
        clock_state: Vector3D,
        clock_corr: Duration,
        snr: Option<i64>,
        pseudo_range: Vec<PseudoRange>,
    ) -> (made: Result<Candidate, Error>)
        ensures
            pseudo_range@.len() == 0 <==> made is Err,
            made is Err ==> made == Err::<Candidate, Error>(Error::NeedsAtLeastOnePseudoRange),
            made is Ok ==> made->Ok_0@ == (CandidateView {
                sv,
                t,
                state: None,
                tgd: None,
                clock_state,
                clock_corr,
                snr,
                pseudo_range: pseudo_range@,
            }),
    {
        if pseudo_range.len() == 0 {
            Err(Error::NeedsAtLeastOnePseudoRange)
        } else {
            Ok(
                Candidate {
                    sv,
                    t,
                    clock_state,
                    clock_corr,
                    snr,
                    pseudo_range,
                    tgd: None,
                    state: None,
                },
            )
        }
    }

    /// The pseudo range that the solver works with: the first one observed,
    /// whatever its carrier. It never fails, since no candidate is without
    /// pseudo range.
    pub fn pseudo_range(&self) -> (selected: &PseudoRange)
        ensures
            self@.pseudo_range.len() >= 1,
            *selected == self@.selected(),
    {
        proof {
            use_type_invariant(self);
        }
        &self.pseudo_range[0]
    }

    /// Computes the instant at which the signal left the satellite.
    ///
    /// The flight time of the selected pseudo range is taken off the sampling
    /// instant, and so are the clock correction and the group delay where
    /// `cfg` asks to compensate for them. An instant that is not strictly
    /// between zero and one second before the sampling instant is refused as
    /// `ImplausibleTransmissionTime`.
    pub fn transmission_time(&self, cfg: &Config) -> (resolved: Result<Epoch, Error>)
        ensures
            resolved == self@.transmission_time(*cfg),
            resolved is Ok <==> plausible_lead(self@.signal_lead(*cfg)) && i128::MIN
                <= self@.t.nanoseconds - self@.signal_lead(*cfg),
            resolved is Err ==> resolved == Err::<Epoch, Error>(Error::ImplausibleTransmissionTime),
            resolved is Ok ==> resolved->Ok_0.time_scale == self@.t.time_scale,
            resolved is Ok ==> 0 < self@.t.nanoseconds - resolved->Ok_0.nanoseconds
                < NANOS_PER_SECOND,
            resolved is Ok && !cfg.modeling.sv_clock_bias && !cfg.modeling.sv_total_group_delay
                ==> resolved->Ok_0.nanoseconds == self@.t.nanoseconds - range_to_nanos(
                self@.selected().value as int,
            ),
    {
        let flight: i64 = flight_time(self.pseudo_range().value);
        let mut lead: i128 = flight as i128;
        if cfg.modeling.sv_clock_bias {
            lead = lead + self.clock_corr.nanoseconds as i128;
        }
        if cfg.modeling.sv_total_group_delay {
            if let Some(tgd) = self.tgd {
                lead = lead + tgd.nanoseconds as i128;
            }
        }
        assert(lead == self@.signal_lead(*cfg));
        if 0 < lead && lead < NANOS_PER_SECOND as i128 && self.t.nanoseconds >= i128::MIN + lead {
            Ok(Epoch { nanoseconds: self.t.nanoseconds - lead, time_scale: self.t.time_scale })
        } else {
            Err(Error::ImplausibleTransmissionTime)
        }
    }

    /// The same candidate with `state` as its resolved sky state.
    pub fn with_state(self, state: InterpolationResult) -> (resolved: Candidate)
        ensures
            resolved@ == self@.resolved(state),
    {
        proof {
            use_type_invariant(&self);
        }
        Candidate {
            sv: self.sv,
            t: self.t,
            state: Some(state),
            tgd: self.tgd,
            clock_state: self.clock_state,
            clock_corr: self.clock_corr,
            snr: self.snr,
            pseudo_range: self.pseudo_range,
        }
    }

    /// The same candidate with `tgd` as the satellite's group delay.
    pub fn with_group_delay(self, tgd: Duration) -> (delayed: Candidate)
        ensures
            delayed@ == (CandidateView { tgd: Some(tgd), ..self@ }),
    {
        proof {
            use_type_invariant(&self);
        }
        Candidate {
            sv: self.sv,
            t: self.t,
            state: self.state,
            tgd: Some(tgd),
            clock_state: self.clock_state,
            clock_corr: self.clock_corr,
            snr: self.snr,
            pseudo_range: self.pseudo_range,
        }
    }

    /// Satellite that was observed.
    pub fn sv(&self) -> (sv: SV)
        ensures
            sv == self@.sv,
    {
        self.sv
    }

    /// Instant at which the signals were sampled.
    pub fn t(&self) -> (t: Epoch)
        ensures
            t == self@.t,
    {
        self.t
    }

    /// Sky state of the satellite, once it has been resolved.
    pub fn state(&self) -> (state: Option<InterpolationResult>)
        ensures
            state == self@.state,
    {
        self.state
    }

    /// Group delay of the satellite, where it is known.
    pub fn tgd(&self) -> (tgd: Option<Duration>)
        ensures
            tgd == self@.tgd,
    {
        self.tgd
    }

    /// Clock state of the satellite: offset, drift and drift rate.
    pub fn clock_state(&self) -> (clock_state: Vector3D)
        ensures
            clock_state == self@.clock_state,
    {
        self.clock_state
    }

    /// Clock correction of the satellite.
    pub fn clock_corr(&self) -> (clock_corr: Duration)
        ensures
            clock_corr == self@.clock_corr,
    {
        self.clock_corr
    }

    /// Signal to noise ratio at the sampling instant, in thousandths of dB.
    pub fn snr(&self) -> (snr: Option<i64>)
        ensures
            snr == self@.snr,
    {
        self.snr
    }
}

} // verus!
