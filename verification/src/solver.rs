//! The solver: candidate election, filtering, and the resolution of a fix.
use vstd::prelude::*;
use crate::apriori::AprioriPosition;
use crate::candidate::{views, Candidate, CandidateView};
use crate::cfg::Config;
use crate::filter::{
    above_mask,
    elevation_test,
    filter_eclipsed,
    filter_elevation,
    sunlit,
    EclipseState,
};
use crate::observation::{
    observable,
    observation_model,
    observations_of,
    sv_data_of,
    sv_table,
    Observation,
};
use crate::solutions::{clamped, Estimate, PVTSolution, PVTSolutionType};
use crate::sv::SV;
use crate::time::Epoch;
use crate::tropo::{tropo_source, tropo_source_of, TropoComponents, TropoSource};
use crate::vector::Vector3D;

verus! {

/// Solving strategy.
#[derive(Debug, Clone, Copy, PartialEq, Eq, Structural)]
pub enum Mode {
    /// Code based positioning, towards a metric resolution.
    SPP,
}

/// What keeps the solver from a fix.
#[derive(Debug, Clone, Copy, PartialEq, Eq, Structural)]
pub enum Error {
    /// The pool holds fewer candidates than a fix of the given kind needs.
    NotEnoughInputCandidates(PVTSolutionType),
    /// Too few candidates are left once the unfit ones were set aside.
    NotEnoughFittingCandidates,
    /// The navigation matrix could not be inverted.
    MatrixInversionError,
    /// The apriori position is outside the volume that distances are
    /// computed in.
    UndefinedAprioriPosition,
    /// A candidate needs at least one pseudo range observation.
    NeedsAtLeastOnePseudoRange,
    /// The ionospheric delay could neither be modeled nor measured.
    MissingIonosphericDelayValue,
    /// The signal would have left the satellite after it was sampled, or a
    /// second or more before.
    ImplausibleTransmissionTime,
}

/// Sky state of a satellite, to be resolved for every candidate.
#[derive(Debug, Clone, Copy, PartialEq, Eq, Structural)]
pub struct InterpolationResult {
    /// Position in the Earth-centered, Earth-fixed frame, in millimetres.
    pub sky_pos: Vector3D,
    /// Elevation above the horizon of the reference position, in
    /// microdegrees.
    pub elevation: i64,
    /// Azimuth from the north of the reference position, in microdegrees.
    pub azimuth: i64,
}

impl Mode {
    /// Name of the strategy.
    pub fn name(&self) -> (name: &'static str)
        ensures
            name@ == "SPP"@,
    {
        match self {
            Mode::SPP => "SPP",
        }
    }
}

impl Default for Mode {
    fn default() -> (mode: Mode)
        ensures
            mode == Mode::SPP,
    {
        Mode::SPP
    }
}

impl Error {
    /// What the error says, in words.
    pub open spec fn text(self) -> Seq<char> {
        match self {
            Error::NotEnoughInputCandidates(PVTSolutionType::PositionVelocityTime) => {
                "need more candidates to resolve a position, velocity and time solution"@
            },
            Error::NotEnoughInputCandidates(PVTSolutionType::TimeOnly) => {
                "need more candidates to resolve a time only solution"@
            },
            Error::NotEnoughFittingCandidates => "not enough candidates fit criteria"@,
            Error::MatrixInversionError => "failed to invert navigation matrix"@,
            Error::UndefinedAprioriPosition => "undefined apriori position"@,
            Error::NeedsAtLeastOnePseudoRange => {
                "at least one pseudo range observation is mandatory"@
            },
            Error::MissingIonosphericDelayValue => {
                "failed to model or measure ionospheric delay"@
            },
            Error::ImplausibleTransmissionTime => {
                "resolved transmission time is physically impossible"@
            },
        }
    }

    /// What the error says, in words.
    pub fn message(&self) -> (message: &'static str)
        ensures
            message@ == self.text(),
    {
        match self {
            Error::NotEnoughInputCandidates(PVTSolutionType::PositionVelocityTime) => {
                "need more candidates to resolve a position, velocity and time solution"
            },
            Error::NotEnoughInputCandidates(PVTSolutionType::TimeOnly) => {
                "need more candidates to resolve a time only solution"
            },
            Error::NotEnoughFittingCandidates => "not enough candidates fit criteria",
            Error::MatrixInversionError => "failed to invert navigation matrix",
            Error::UndefinedAprioriPosition => "undefined apriori position",
            Error::NeedsAtLeastOnePseudoRange => {
                "at least one pseudo range observation is mandatory"
            },
            Error::MissingIonosphericDelayValue => "failed to model or measure ionospheric delay",
            Error::ImplausibleTransmissionTime => {
                "resolved transmission time is physically impossible"
            },
        }
    }
}

/// An option of the configuration that is accepted and has no effect.
#[derive(Debug, Clone, Copy, PartialEq, Eq, Structural)]
pub enum Notice {
    /// The ionospheric delay cannot be compensated for.
    IonoDelayUnsupported,
    /// The rotation of the Earth cannot be compensated for.
    EarthRotationUnsupported,
    /// The relativistic clock correction is not feasible.
    RelativisticClockCorrUnsupported,
    /// The eclipse filter is not meaningful with the code based strategy.
    EclipseFilterNotMeaningful,
}

/// PVT solver.
pub struct Solver<I> {
    /// Solver parametrization.
    pub cfg: Config,
    /// Strategy that the solver follows.
    pub mode: Mode,
    /// Position of the receiver as known before the fix.
    pub apriori: AprioriPosition,
    /// Sky state interpolation method: from the instant at which a signal
    /// left its satellite, the satellite and the interpolation order to the
    /// satellite's sky state, or nothing where it cannot tell.
    pub interpolator: I,
}

/// The numerical models that a resolution consults.
pub struct Models<E, Z, M, L> {
    /// From a sampling instant and a satellite's position to how much of the
    /// Sun the satellite sees.
    pub eclipse: E,
    /// From an instant, a latitude in microdegrees and an altitude in
    /// millimetres to the tropospheric delay at zenith.
    pub zenith_delay: Z,
    /// From an elevation in microdegrees and the delay at zenith to the
    /// delay along the line of sight, in millimetres.
    pub slant_delay: M,
    /// From the observation model to the least squares estimate, or nothing
    /// where the navigation matrix cannot be inverted.
    pub least_squares: L,
}

/// Number of candidates that a fix of kind `solution` needs: one for a time
/// only fix, else four, or three where the altitude is fixed.
pub open spec fn min_required_of(solution: PVTSolutionType, cfg: Config) -> int {
    match solution {
        PVTSolutionType::TimeOnly => 1,
        PVTSolutionType::PositionVelocityTime => if cfg.fixed_altitude is Some {
            3
        } else {
            4
        },
    }
}

/// Whether the strategy `mode` can work with candidate `c`. Code based
/// positioning works with every candidate.
pub open spec fn mode_compliant(mode: Mode, c: CandidateView) -> bool {
    match mode {
        Mode::SPP => true,
    }
}

/// The test that the election applies to each candidate.
pub open spec fn election_test(mode: Mode) -> spec_fn(CandidateView) -> bool {
    |c: CandidateView| mode_compliant(mode, c)
}

/// The options of `cfg` that are accepted and have no effect, in the order
/// in which they are checked.
pub open spec fn notices_of(mode: Mode, cfg: Config) -> Seq<Notice> {
    (if cfg.modeling.iono_delay {
        seq![Notice::IonoDelayUnsupported]
    } else {
        seq![]
    }) + (if cfg.modeling.earth_rotation {
        seq![Notice::EarthRotationUnsupported]
    } else {
        seq![]
    }) + (if cfg.modeling.relativistic_clock_corr {
        seq![Notice::RelativisticClockCorrUnsupported]
    } else {
        seq![]
    }) + (if mode == Mode::SPP && cfg.min_sv_sunlight_rate is Some {
        seq![Notice::EclipseFilterNotMeaningful]
    } else {
        seq![]
    })
}

/// A sky state can be attached to a candidate if it was resolved to a
/// position within the volume that distances are computed in.
pub open spec fn usable(state: Option<InterpolationResult>) -> bool {
    state is Some && state->0.sky_pos.bounded()
}

/// The candidates of `pool` whose sky state could be resolved, each with its
/// sky state attached, in the pool's order; `states[i]` is what the
/// interpolation gave for `pool[i]`.
pub open spec fn resolved_pool(
    pool: Seq<CandidateView>,
    states: Seq<Option<InterpolationResult>>,
) -> Seq<CandidateView>
    recommends
        pool.len() == states.len(),
    decreases pool.len(),
{
    if pool.len() == 0 {
        Seq::empty()
    } else {
        let before = resolved_pool(pool.drop_last(), states.drop_last());
        if usable(states.last()) {
            before.push(pool.last().resolved(states.last()->0))
        } else {
            before
        }
    }
}

/// `answer` is what the interpolation gives for candidate `c`: what
/// `interpolator` returns at the candidate's transmission time, or nothing
/// where that time is implausible and `interpolator` is not asked.
pub open spec fn sky_state_answer<I: Fn(Epoch, SV, usize) -> Option<InterpolationResult>>(
    interpolator: I,
    cfg: Config,
    c: CandidateView,
    answer: Option<InterpolationResult>,
) -> bool {
    match c.transmission_time(cfg) {
        Ok(t_tx) => call_ensures(interpolator, (t_tx, c.sv, cfg.interp_order), answer),
        Err(_) => answer is None,
    }
}

/// `answer` is the tropospheric delay along the line of sight of candidate
/// `c`: what `slant_delay` returns for the candidate's elevation, or zero
/// where there is no delay at zenith and `slant_delay` is not asked.
pub open spec fn slant_answer<M: Fn(i64, TropoComponents) -> i64>(
    slant_delay: M,
    source: TropoSource,
    components: TropoComponents,
    c: CandidateView,
    answer: i64,
) -> bool {
    match source {
        TropoSource::Absent => answer == 0,
        _ => call_ensures(slant_delay, (c.state->0.elevation, components), answer),
    }
}

/// What the interpolator and the numerical models answered in the course of
/// one resolution.
pub struct Answers {
    /// Sky state resolved for each elected candidate, or nothing.
    pub sky: Seq<Option<InterpolationResult>>,
    /// Eclipse state of each candidate that passed the elevation mask.
    pub eclipse: Seq<EclipseState>,
    /// Modeled tropospheric delay at zenith.
    pub zenith: TropoComponents,
    /// Tropospheric delay along the line of sight of each fitting candidate.
    pub slant: Seq<i64>,
    /// The observation model as it was handed to the least squares model.
    pub rows: Vec<Observation>,
    /// Least squares estimate, or nothing.
    pub estimate: Option<Estimate>,
}

/// The candidates that are left after the election, the state resolution and
/// the elevation mask.
pub open spec fn masked_pool(
    cfg: Config,
    mode: Mode,
    pool: Seq<CandidateView>,
    sky: Seq<Option<InterpolationResult>>,
) -> Seq<CandidateView> {
    resolved_pool(pool.filter(election_test(mode)), sky).filter(elevation_test(cfg.min_sv_elev))
}

/// The candidates that fit: those that are left once the eclipse mask, where
/// one is set, has been applied as well.
pub open spec fn fitting_pool(
    cfg: Config,
    mode: Mode,
    pool: Seq<CandidateView>,
    sky: Seq<Option<InterpolationResult>>,
    eclipse: Seq<EclipseState>,
) -> Seq<CandidateView> {
    let masked = masked_pool(cfg, mode, pool, sky);
    match cfg.min_sv_sunlight_rate {
        Some(min_rate) => sunlit(masked, eclipse, min_rate),
        None => masked,
    }
}

/// Tropospheric delay at zenith: what was measured, else what the model
/// gave where the modeling is switched on, else none.
pub open spec fn zenith_components(
    measured: Option<TropoComponents>,
    cfg: Config,
    modeled: TropoComponents,
) -> TropoComponents {
    match tropo_source_of(measured, cfg.modeling.tropo_delay) {
        TropoSource::Measured => measured->0,
        TropoSource::Modeled => modeled,
        TropoSource::Absent => TropoComponents::zero(),
    }
}

/// `answers` holds what the interpolator of `solver` and `models` answered
/// to the questions that a resolution of the given pool asks them, each
/// question being asked only where the resolution gets that far.
pub open spec fn consulted<I, E, Z, M, L>(
    solver: Solver<I>,
    models: Models<E, Z, M, L>,
    t: Epoch,
    solution: PVTSolutionType,
    pool: Seq<CandidateView>,
    measured: Option<TropoComponents>,
    answers: Answers,
) -> bool where
    I: Fn(Epoch, SV, usize) -> Option<InterpolationResult>,
    E: Fn(Epoch, Vector3D) -> EclipseState,
    Z: Fn(Epoch, i64, i64) -> TropoComponents,
    M: Fn(i64, TropoComponents) -> i64,
    L: Fn(&Vec<Observation>) -> Option<Estimate>,
 {
    let cfg = solver.cfg;
    let elected = pool.filter(election_test(solver.mode));
    let masked = masked_pool(cfg, solver.mode, pool, answers.sky);
    let fitting = fitting_pool(cfg, solver.mode, pool, answers.sky, answers.eclipse);
    let source = tropo_source_of(measured, cfg.modeling.tropo_delay);
    let components = zenith_components(measured, cfg, answers.zenith);
    pool.len() >= min_required_of(solution, cfg) && solver.apriori.ecef.bounded() ==> {
        &&& answers.sky.len() == elected.len()
        &&& forall|i: int|
            0 <= i < elected.len() ==> sky_state_answer(
                solver.interpolator,
                cfg,
                elected[i],
                #[trigger] answers.sky[i],
            )
        &&& cfg.min_sv_sunlight_rate is Some ==> {
            &&& answers.eclipse.len() == masked.len()
            &&& forall|i: int|
                0 <= i < masked.len() ==> call_ensures(
                    models.eclipse,
                    (masked[i].t, masked[i].state->0.sky_pos),
                    #[trigger] answers.eclipse[i],
                )
        }
        &&& fitting.len() >= min_required_of(solution, cfg) ==> {
            &&& source == TropoSource::Modeled ==> call_ensures(
                models.zenith_delay,
                (t, solver.apriori.geodetic.x, solver.apriori.geodetic.z),
                answers.zenith,
            )
            &&& answers.slant.len() == fitting.len()
            &&& forall|i: int|
                0 <= i < fitting.len() ==> slant_answer(
                    models.slant_delay,
                    source,
                    components,
                    fitting[i],
                    #[trigger] answers.slant[i],
                )
            &&& answers.rows@ == observations_of(fitting, answers.slant, solver.apriori.ecef, cfg)
            &&& call_ensures(models.least_squares, (&answers.rows,), answers.estimate)
        }
    }
}

/// `result` is what a resolution of the given pool comes to, given what the
/// interpolator and the models answered.
pub open spec fn outcome(
    cfg: Config,
    mode: Mode,
    apriori: AprioriPosition,
    t: Epoch,
    solution: PVTSolutionType,
    pool: Seq<CandidateView>,
    measured: Option<TropoComponents>,
    answers: Answers,
    result: Result<(Epoch, PVTSolution), Error>,
) -> bool {
    let fitting = fitting_pool(cfg, mode, pool, answers.sky, answers.eclipse);
    let source = tropo_source_of(measured, cfg.modeling.tropo_delay);
    if pool.len() < min_required_of(solution, cfg) {
        result matches Err(e) && e == Error::NotEnoughInputCandidates(solution)
    } else if !apriori.ecef.bounded() {
        result matches Err(e) && e == Error::UndefinedAprioriPosition
    } else if fitting.len() < min_required_of(solution, cfg) {
        result matches Err(e) && e == Error::NotEnoughFittingCandidates
    } else {
        match answers.estimate {
            None => result matches Err(e) && e == Error::MatrixInversionError,
            Some(estimate) => {
                &&& result matches Ok(fix)
                &&& fix.0 == t
                &&& fix.1.is_fix_of(
                    estimate,
                    sv_data_of(fitting, answers.slant, source),
                    cfg.fixed_altitude,
                    apriori.ecef,
                    solution,
                )
            },
        }
    }
}

/// `result` is a possible outcome of the resolution: there are answers of the
/// interpolator and of the models that lead to it.
pub open spec fn resolution<I, E, Z, M, L>(
    solver: Solver<I>,
    models: Models<E, Z, M, L>,
    t: Epoch,
    solution: PVTSolutionType,
    pool: Seq<CandidateView>,
    measured: Option<TropoComponents>,
    answers: Answers,
    result: Result<(Epoch, PVTSolution), Error>,
) -> bool where
    I: Fn(Epoch, SV, usize) -> Option<InterpolationResult>,
    E: Fn(Epoch, Vector3D) -> EclipseState,
    Z: Fn(Epoch, i64, i64) -> TropoComponents,
    M: Fn(i64, TropoComponents) -> i64,
    L: Fn(&Vec<Observation>) -> Option<Estimate>,
 {
    &&& consulted(solver, models, t, solution, pool, measured, answers)
    &&& outcome(solver.cfg, solver.mode, solver.apriori, t, solution, pool, measured, answers, result)
}

/// Every candidate of the pool passed the state resolution.
pub open spec fn all_observable(pool: Seq<Candidate>) -> bool {
    forall|i: int| 0 <= i < pool.len() ==> observable(#[trigger] pool[i]@)
}

/// Attaches to each candidate of `pool` the sky state that was resolved for
/// it, and drops the candidates for which none was, or one outside the
/// volume that distances are computed in.
pub fn attach_states(pool: Vec<Candidate>, states: &Vec<Option<InterpolationResult>>) -> (resolved:
    Vec<Candidate>)
    requires
        states@.len() == pool@.len(),
    ensures
        views(resolved@) == resolved_pool(views(pool@), states@),
        all_observable(resolved@),
{
    let mut resolved: Vec<Candidate> = Vec::new();
    let ghost all = pool@;
    let total = states.len();
    let mut i: usize = 0;
    proof {
        assert(views(all.take(0)) =~= Seq::<CandidateView>::empty());
    }
    for c in it: pool
        invariant
            it.seq() == all,
            all.len() == total,
            states@.len() == all.len(),
            i == it.index(),
            views(resolved@) == resolved_pool(views(all.take(i as int)), states@.take(i as int)),
            all_observable(resolved@),
    {
        proof {
            let seen = views(all.take(i as int));
            let next = views(all.take(i + 1));
            assert(next =~= seen.push(c@));
            assert(next.drop_last() =~= seen);
            assert(states@.take(i + 1).drop_last() =~= states@.take(i as int));
            assert(states@.take(i + 1).last() == states@[i as int]);
            assert(next.last() == c@);
        }
        match states[i] {
            Some(state) => {
                if state.sky_pos.is_bounded() {
                    let ghost before = resolved@;
                    let with = c.with_state(state);
                    resolved.push(with);
                    assert(views(resolved@) =~= views(before).push(with@));
                }
            },
            None => {},
        }
        i += 1;
    }
    assert(all.take(all.len() as int) =~= all);
    assert(states@.take(states@.len() as int) =~= states@);
    resolved
}

/// Asks `eclipse` how much of the Sun each satellite of `pool` sees at its
/// candidate's sampling instant.
pub fn eclipse_states<E: Fn(Epoch, Vector3D) -> EclipseState>(
    pool: &Vec<Candidate>,
    eclipse: &E,
) -> (states: Vec<EclipseState>)
    requires
        all_observable(pool@),
        forall|t: Epoch, position: Vector3D| call_requires(*eclipse, (t, position)),
    ensures
        states@.len() == pool@.len(),
        forall|i: int|
            0 <= i < pool@.len() ==> call_ensures(
                *eclipse,
                (pool@[i]@.t, pool@[i]@.state->0.sky_pos),
                #[trigger] states@[i],
            ),
{
    let mut states: Vec<EclipseState> = Vec::new();
    let mut i: usize = 0;
    while i < pool.len()
        invariant
            i <= pool@.len(),
            all_observable(pool@),
            forall|t: Epoch, position: Vector3D| call_requires(*eclipse, (t, position)),
            states@.len() == i,
            forall|k: int|
                0 <= k < i ==> call_ensures(
                    *eclipse,
                    (pool@[k]@.t, pool@[k]@.state->0.sky_pos),
                    #[trigger] states@[k],
                ),
        decreases pool@.len() - i,
    {
        assert(observable(pool@[i as int]@));
        let state = pool[i].state().unwrap();
        states.push(eclipse(pool[i].t(), state.sky_pos));
        i += 1;
    }
    states
}

/// Works out the tropospheric delay along the line of sight of each
/// candidate of `pool`: zero where there is no delay at zenith, else what
/// `slant_delay` gives for the candidate's elevation.
pub fn slant_delays<M: Fn(i64, TropoComponents) -> i64>(
    pool: &Vec<Candidate>,
    source: TropoSource,
    components: TropoComponents,
    slant_delay: &M,
) -> (delays: Vec<i64>)
    requires
        all_observable(pool@),
        forall|elevation: i64, zenith: TropoComponents|
            call_requires(*slant_delay, (elevation, zenith)),
    ensures
        delays@.len() == pool@.len(),
        forall|i: int|
            0 <= i < pool@.len() ==> slant_answer(
                *slant_delay,
                source,
                components,
                pool@[i]@,
                #[trigger] delays@[i],
            ),
{
    let mut delays: Vec<i64> = Vec::new();
    let mut i: usize = 0;
    while i < pool.len()
        invariant
            i <= pool@.len(),
            all_observable(pool@),
            forall|elevation: i64, zenith: TropoComponents|
                call_requires(*slant_delay, (elevation, zenith)),
            delays@.len() == i,
            forall|k: int|
                0 <= k < i ==> slant_answer(
                    *slant_delay,
                    source,
                    components,
                    pool@[k]@,
                    #[trigger] delays@[k],
                ),
        decreases pool@.len() - i,
    {
        assert(observable(pool@[i as int]@));
        let delay: i64 = match source {
            TropoSource::Absent => 0,
            _ => {
                let state = pool[i].state().unwrap();
                slant_delay(state.elevation, components)
            },
        };
        delays.push(delay);
        i += 1;
    }
    delays
}

impl<I: Fn(Epoch, SV, usize) -> Option<InterpolationResult>> Solver<I> {
    /// Creates a solver that follows `mode`, starts from `apriori`, is
    /// parametrized by a copy of `cfg` and resolves sky states with
    /// `interpolator`. It never fails.
    pub fn new(mode: Mode, apriori: AprioriPosition, cfg: &Config, interpolator: I) -> (made: Result<
        Self,
        Error,
    >)
        ensures
            made is Ok,
            made->Ok_0.mode == mode,
            made->Ok_0.apriori == apriori,
            made->Ok_0.cfg.same_settings(*cfg),
            made->Ok_0.interpolator == interpolator,
    {
        Ok(Solver { mode, apriori, interpolator, cfg: cfg.clone() })
    }

    /// Lists the options of `cfg` that are accepted and have no effect.
    pub fn notices(mode: Mode, cfg: &Config) -> (notices: Vec<Notice>)
        ensures
            notices@ == notices_of(mode, *cfg),
    {
        let mut notices: Vec<Notice> = Vec::new();
        if cfg.modeling.iono_delay {
            notices.push(Notice::IonoDelayUnsupported);
        }
        if cfg.modeling.earth_rotation {
            notices.push(Notice::EarthRotationUnsupported);
        }
        if cfg.modeling.relativistic_clock_corr {
            notices.push(Notice::RelativisticClockCorrUnsupported);
        }
        if mode == Mode::SPP && cfg.min_sv_sunlight_rate.is_some() {
            notices.push(Notice::EclipseFilterNotMeaningful);
        }
        assert(notices@ =~= notices_of(mode, *cfg));
        notices
    }

    /// Candidates election process: keeps the candidates of `pool` that the
    /// strategy `mode` can work with, in the pool's order. It can be called
    /// ahead of a resolution, which elects again whatever it is given.
    #[allow(unused_variables)]
    pub fn elect_candidates(t: Epoch, pool: Vec<Candidate>, mode: Mode, cfg: &Config) -> (elected:
        Vec<Candidate>)
        ensures
            views(elected@) == views(pool@).filter(election_test(mode)),
            views(elected@) == views(pool@),
    {
        let mut elected: Vec<Candidate> = Vec::new();
        let ghost all = pool@;
        proof {
            assert(views(all.take(0)) =~= Seq::<CandidateView>::empty());
            assert(views(all.take(0)).filter(election_test(mode)) =~= Seq::<CandidateView>::empty())
                by {
                reveal(Seq::filter);
            }
        }
        for c in it: pool
            invariant
                it.seq() == all,
                views(elected@) == views(all.take(it.index() as int)).filter(election_test(mode)),
                views(elected@) == views(all.take(it.index() as int)),
        {
            let ghost seen = views(all.take(it.index() as int));
            proof {
                assert(views(all.take(it.index() + 1)) =~= seen.push(c@));
                seen.lemma_filter_push(c@, election_test(mode));
            }
            let mode_compliant = match mode {
                Mode::SPP => true,
            };
            if mode_compliant {
                let ghost before = elected@;
                elected.push(c);
                assert(views(elected@) =~= views(before).push(c@));
            }
        }
        assert(all.take(all.len() as int) =~= all);
        elected
    }

    /// Number of candidates that a fix of kind `solution` needs.
    pub fn min_required(solution: PVTSolutionType, cfg: &Config) -> (n: usize)
        ensures
            n == min_required_of(solution, *cfg),
    {
        match solution {
            PVTSolutionType::TimeOnly => 1,
            PVTSolutionType::PositionVelocityTime => {
                let mut n: usize = 4;
                if cfg.fixed_altitude.is_some() {
                    n -= 1;
                }
                n
            },
        }
    }

    /// Asks the interpolator for the sky state of each candidate of `pool`
    /// at the instant at which the candidate's signal left its satellite.
    /// A candidate whose transmission time is implausible is not asked
    /// about.
    pub fn sky_states(&self, pool: &Vec<Candidate>) -> (states: Vec<Option<InterpolationResult>>)
        requires
            forall|t: Epoch, sv: SV, order: usize| call_requires(self.interpolator, (t, sv, order)),
        ensures
            states@.len() == pool@.len(),
            forall|i: int|
                0 <= i < pool@.len() ==> sky_state_answer(
                    self.interpolator,
                    self.cfg,
                    pool@[i]@,
                    #[trigger] states@[i],
                ),
    {
        let mut states: Vec<Option<InterpolationResult>> = Vec::new();
        let mut i: usize = 0;
        while i < pool.len()
            invariant
                i <= pool@.len(),
                forall|t: Epoch, sv: SV, order: usize|
                    call_requires(self.interpolator, (t, sv, order)),
                states@.len() == i,
                forall|k: int|
                    0 <= k < i ==> sky_state_answer(
                        self.interpolator,
                        self.cfg,
                        pool@[k]@,
                        #[trigger] states@[k],
                    ),
            decreases pool@.len() - i,
        {
            let state = match pool[i].transmission_time(&self.cfg) {
                Ok(t_tx) => (self.interpolator)(t_tx, pool[i].sv(), self.cfg.interp_order),
                Err(_) => None,
            };
            states.push(state);
            i += 1;
        }
        states
    }

    /// Tries to resolve a fix of kind `solution` at `t` from the candidates
    /// of `pool`.
    ///
    /// `meas_tropo_components` are measured tropospheric delays at zenith,
    /// which go before the model's. `stec` is an estimate of the slant total
    /// electron content, in thousandths of TECu: it is accepted and not
    /// applied.
    ///
    /// A pool smaller than the fix needs is refused before anything else is
    /// looked at, and no model is consulted. Then the elected candidates get
    /// their sky state, the elevation and eclipse masks are applied, the
    /// observation model of the candidates that are left is built and handed
    /// to the least squares model, and its estimate is shaped into the fix.
    #[allow(unused_variables)]
    pub fn resolve<E, Z, M, L>(
        &mut self,
        t: Epoch,
        solution: PVTSolutionType,
        pool: Vec<Candidate>,
        meas_tropo_components: Option<TropoComponents>,
        stec: Option<i64>,
        models: &Models<E, Z, M, L>,
    ) -> (result: Result<(Epoch, PVTSolution), Error>) where
        E: Fn(Epoch, Vector3D) -> EclipseState,
        Z: Fn(Epoch, i64, i64) -> TropoComponents,
        M: Fn(i64, TropoComponents) -> i64,
        L: Fn(&Vec<Observation>) -> Option<Estimate>,

        requires
            forall|t: Epoch, sv: SV, order: usize|
                call_requires(old(self).interpolator, (t, sv, order)),
            forall|t: Epoch, position: Vector3D| call_requires(models.eclipse, (t, position)),
            forall|t: Epoch, latitude: i64, altitude: i64|
                call_requires(models.zenith_delay, (t, latitude, altitude)),
            forall|elevation: i64, zenith: TropoComponents|
                call_requires(models.slant_delay, (elevation, zenith)),
            forall|rows: &Vec<Observation>| call_requires(models.least_squares, (rows,)),
        ensures
            *final(self) == *old(self),
            exists|answers: Answers| #[trigger]
                resolution(
                    *old(self),
                    *models,
                    t,
                    solution,
                    views(pool@),
                    meas_tropo_components,
                    answers,
                    result,
                ),
            pool@.len() < min_required_of(solution, old(self).cfg) <==> (result matches Err(e) && e
                == Error::NotEnoughInputCandidates(solution)),
            pool@.len() >= min_required_of(solution, old(self).cfg) && !old(
                self,
            ).apriori.ecef.bounded() <==> (result matches Err(e) && e
                == Error::UndefinedAprioriPosition),
            result matches Err(e) ==> e == Error::NotEnoughInputCandidates(solution) || e
                == Error::UndefinedAprioriPosition || e == Error::NotEnoughFittingCandidates || e
                == Error::MatrixInversionError,
            result matches Ok(fix) ==> {
                &&& fix.0 == t
                &&& fix.1.v == Vector3D::zero()
                &&& solution == PVTSolutionType::TimeOnly ==> fix.1.p == Vector3D::zero()
                    && fix.1.hdop == 0 && fix.1.vdop == 0
            },
    {
        let ghost given = views(pool@);
        let ghost unasked: Answers = arbitrary();
        let min_required = Self::min_required(solution, &self.cfg);
        if pool.len() < min_required {
            let result = Err(Error::NotEnoughInputCandidates(solution));
            assert(resolution(
                *self,
                *models,
                t,
                solution,
                given,
                meas_tropo_components,
                unasked,
                result,
            ));
            return result;
        }
        if !self.apriori.ecef.is_bounded() {
            let result = Err(Error::UndefinedAprioriPosition);
            assert(resolution(
                *self,
                *models,
                t,
                solution,
                given,
                meas_tropo_components,
                unasked,
                result,
            ));
            return result;
        }
        let elected = Self::elect_candidates(t, pool, self.mode, &self.cfg);
        let sky = self.sky_states(&elected);
        let resolved = attach_states(elected, &sky);
        let masked = filter_elevation(resolved, self.cfg.min_sv_elev);
        let ghost masked_views = views(masked@);
        let ghost mut eclipse_answers: Seq<EclipseState> = Seq::empty();
        assert(all_observable(masked@)) by {
            assert forall|i: int| 0 <= i < masked@.len() implies observable(
                #[trigger] masked@[i]@,
            ) by {
                lemma_filtered_observable(views(resolved@), self.cfg.min_sv_elev, i);
            }
        }
        let fitting = match self.cfg.min_sv_sunlight_rate {
            Some(min_rate) => {
                let eclipse = eclipse_states(&masked, &models.eclipse);
                proof {
                    eclipse_answers = eclipse@;
                    lemma_sunlit_observable(masked_views, eclipse@, min_rate);
                }
                filter_eclipsed(masked, &eclipse, min_rate)
            },
            None => masked,
        };
        assert(views(fitting@) == fitting_pool(self.cfg, self.mode, given, sky@, eclipse_answers));
        assert(all_observable(fitting@)) by {
            assert forall|i: int| 0 <= i < fitting@.len() implies observable(
                #[trigger] fitting@[i]@,
            ) by {
                assert(views(fitting@)[i] == fitting@[i]@);
            }
        }
        if fitting.len() < min_required {
            let result = Err(Error::NotEnoughFittingCandidates);
            proof {
                let answers = Answers { sky: sky@, eclipse: eclipse_answers, ..unasked };
                assert(resolution(
                    *self,
                    *models,
                    t,
                    solution,
                    given,
                    meas_tropo_components,
                    answers,
                    result,
                ));
            }
            return result;
        }
        let source = tropo_source(&meas_tropo_components, self.cfg.modeling.tropo_delay);
        let ghost mut zenith_answer: TropoComponents = TropoComponents::zero();
        let components = match source {
            TropoSource::Measured => meas_tropo_components.unwrap(),
            TropoSource::Modeled => {
                let modeled = (models.zenith_delay)(
                    t,
                    self.apriori.geodetic.x,
                    self.apriori.geodetic.z,
                );
                proof {
                    zenith_answer = modeled;
                }
                modeled
            },
            TropoSource::Absent => TropoComponents::default(),
        };
        let delays = slant_delays(&fitting, source, components, &models.slant_delay);
        let rows = observation_model(&fitting, &delays, &self.apriori.ecef, &self.cfg);
        let sv = sv_table(&fitting, &delays, source);
        let estimate = (models.least_squares)(&rows);
        let ghost answers = Answers {
            sky: sky@,
            eclipse: eclipse_answers,
            zenith: zenith_answer,
            slant: delays@,
            rows,
            estimate,
        };
        let result = match estimate {
            None => Err(Error::MatrixInversionError),
            Some(estimate) => Ok(
                (t, PVTSolution::new(estimate, sv, self.cfg.fixed_altitude, &self.apriori.ecef, solution)),
            ),
        };
        assert(resolution(
            *self,
            *models,
            t,
            solution,
            given,
            meas_tropo_components,
            answers,
            result,
        ));
        result
    }
}

/// A pool that holds fewer candidates than the fix needs is refused as
/// such, whatever the interpolator and the models would have answered.
pub proof fn lemma_small_pool_is_refused(
    cfg: Config,
    mode: Mode,
    apriori: AprioriPosition,
    t: Epoch,
    solution: PVTSolutionType,
    pool: Seq<CandidateView>,
    measured: Option<TropoComponents>,
    answers: Answers,
    result: Result<(Epoch, PVTSolution), Error>,
)
    requires
        outcome(cfg, mode, apriori, t, solution, pool, measured, answers, result),
    ensures
        pool.len() < min_required_of(solution, cfg) <==> (result matches Err(e) && e
            == Error::NotEnoughInputCandidates(solution)),
        min_required_of(solution, cfg) == (if solution == PVTSolutionType::TimeOnly {
            1int
        } else if cfg.fixed_altitude is Some {
            3int
        } else {
            4int
        }),
{
}

/// A time only fix reports a null position and null horizontal and vertical
/// dilutions of precision, whatever the geometry and whatever the least
/// squares model estimated.
pub proof fn lemma_time_only_fix_has_no_position(
    cfg: Config,
    mode: Mode,
    apriori: AprioriPosition,
    t: Epoch,
    pool: Seq<CandidateView>,
    measured: Option<TropoComponents>,
    answers: Answers,
    result: Result<(Epoch, PVTSolution), Error>,
)
    requires
        outcome(
            cfg,
            mode,
            apriori,
            t,
            PVTSolutionType::TimeOnly,
            pool,
            measured,
            answers,
            result,
        ),
        result is Ok,
    ensures
        result->Ok_0.1.p == Vector3D::zero(),
        result->Ok_0.1.hdop == 0,
        result->Ok_0.1.vdop == 0,
{
}

/// Where an altitude is fixed, a fix with a position reports the apriori
/// vertical component minus that altitude, whatever the least squares model
/// estimated for it.
pub proof fn lemma_fixed_altitude_overrides(
    cfg: Config,
    mode: Mode,
    apriori: AprioriPosition,
    t: Epoch,
    pool: Seq<CandidateView>,
    measured: Option<TropoComponents>,
    answers: Answers,
    result: Result<(Epoch, PVTSolution), Error>,
)
    requires
        outcome(
            cfg,
            mode,
            apriori,
            t,
            PVTSolutionType::PositionVelocityTime,
            pool,
            measured,
            answers,
            result,
        ),
        result is Ok,
        cfg.fixed_altitude is Some,
    ensures
        result->Ok_0.1.p.z == clamped(apriori.ecef.z - cfg.fixed_altitude->0),
        result->Ok_0.1.v.z == 0,
{
}

/// The candidates that fit are candidates of the pool: each one is a
/// candidate that was given, with a sky state attached that can be observed,
/// and there are no more of them than were given.
pub proof fn lemma_fitting_candidates_were_given(
    cfg: Config,
    mode: Mode,
    pool: Seq<CandidateView>,
    sky: Seq<Option<InterpolationResult>>,
    eclipse: Seq<EclipseState>,
)
    ensures
        fitting_pool(cfg, mode, pool, sky, eclipse).len() <= pool.len(),
        forall|k: int|
            0 <= k < fitting_pool(cfg, mode, pool, sky, eclipse).len() ==> {
                let c = #[trigger] fitting_pool(cfg, mode, pool, sky, eclipse)[k];
                &&& observable(c)
                &&& above_mask(c, cfg.min_sv_elev)
                &&& exists|i: int| 0 <= i < pool.len() && c == pool[i].resolved(c.state->0)
            },
{
    let elected = pool.filter(election_test(mode));
    let resolved = resolved_pool(elected, sky);
    let masked = masked_pool(cfg, mode, pool, sky);
    let fitting = fitting_pool(cfg, mode, pool, sky, eclipse);
    pool.lemma_filter_len(election_test(mode));
    lemma_resolved_were_given(elected, sky);
    resolved.lemma_filter_len(elevation_test(cfg.min_sv_elev));
    if cfg.min_sv_sunlight_rate is Some {
        lemma_sunlit_were_given(masked, eclipse, cfg.min_sv_sunlight_rate->0);
    }
    assert forall|k: int| 0 <= k < fitting.len() implies {
        let c = #[trigger] fitting[k];
        &&& observable(c)
        &&& above_mask(c, cfg.min_sv_elev)
        &&& exists|i: int| 0 <= i < pool.len() && c == pool[i].resolved(c.state->0)
    } by {
        let c = fitting[k];
        assert(fitting.contains(c));
        assert(masked.contains(c));
        let m = choose|m: int| 0 <= m < masked.len() && masked[m] == c;
        resolved.lemma_filter_pred(elevation_test(cfg.min_sv_elev), m);
        resolved.lemma_filter_contains_rev(elevation_test(cfg.min_sv_elev), c);
        let r = choose|r: int| 0 <= r < resolved.len() && resolved[r] == c;
        let e = choose|e: int| 0 <= e < elected.len() && resolved[r] == elected[e].resolved(c.state->0);
        assert(elected.contains(elected[e]));
        pool.lemma_filter_contains_rev(election_test(mode), elected[e]);
        let i = choose|i: int| 0 <= i < pool.len() && pool[i] == elected[e];
        assert(c == pool[i].resolved(c.state->0));
    }
}

/// The state resolution keeps candidates of the pool and attaches to each a
/// sky state that can be observed.
proof fn lemma_resolved_were_given(pool: Seq<CandidateView>, states: Seq<Option<InterpolationResult>>)
    ensures
        resolved_pool(pool, states).len() <= pool.len(),
        forall|r: int|
            0 <= r < resolved_pool(pool, states).len() ==> {
                let c = #[trigger] resolved_pool(pool, states)[r];
                &&& observable(c)
                &&& exists|e: int| 0 <= e < pool.len() && c == pool[e].resolved(c.state->0)
            },
    decreases pool.len(),
{
    if pool.len() > 0 {
        let shorter = pool.drop_last();
        lemma_resolved_were_given(shorter, states.drop_last());
        let before = resolved_pool(shorter, states.drop_last());
        assert forall|r: int| 0 <= r < resolved_pool(pool, states).len() implies {
            let c = #[trigger] resolved_pool(pool, states)[r];
            &&& observable(c)
            &&& exists|e: int| 0 <= e < pool.len() && c == pool[e].resolved(c.state->0)
        } by {
            let c = resolved_pool(pool, states)[r];
            if r < before.len() {
                assert(c == before[r]);
                let e = choose|e: int| 0 <= e < shorter.len() && c == shorter[e].resolved(c.state->0);
                assert(c == pool[e].resolved(c.state->0));
            } else {
                assert(c == pool[pool.len() - 1].resolved(c.state->0));
            }
        }
    }
}

/// The eclipse mask keeps candidates of the pool.
proof fn lemma_sunlit_were_given(pool: Seq<CandidateView>, states: Seq<EclipseState>, min_rate: i64)
    ensures
        sunlit(pool, states, min_rate).len() <= pool.len(),
        forall|c: CandidateView| sunlit(pool, states, min_rate).contains(c) ==> pool.contains(c),
    decreases pool.len(),
{
    if pool.len() > 0 {
        let shorter = pool.drop_last();
        lemma_sunlit_were_given(shorter, states.drop_last(), min_rate);
        let before = sunlit(shorter, states.drop_last(), min_rate);
        let kept = sunlit(pool, states, min_rate);
        assert forall|c: CandidateView| kept.contains(c) implies pool.contains(c) by {
            let k = choose|k: int| 0 <= k < kept.len() && kept[k] == c;
            if k < before.len() {
                assert(before[k] == c);
                assert(before.contains(c));
                assert(shorter.contains(c));
                let j = choose|j: int| 0 <= j < shorter.len() && shorter[j] == c;
                assert(pool[j] == c);
            } else {
                assert(pool[pool.len() - 1] == c);
            }
        }
    }
}

/// What passes the elevation mask was in the pool: if every candidate of the
/// pool can be observed, so can every candidate that is left.
proof fn lemma_filtered_observable(pool: Seq<CandidateView>, min_elev: Option<i64>, i: int)
    requires
        forall|k: int| 0 <= k < pool.len() ==> observable(#[trigger] pool[k]),
        0 <= i < pool.filter(elevation_test(min_elev)).len(),
    ensures
        observable(pool.filter(elevation_test(min_elev))[i]),
{
    let kept = pool.filter(elevation_test(min_elev));
    pool.lemma_filter_contains_rev(elevation_test(min_elev), kept[i]);
    let k = choose|k: int| 0 <= k < pool.len() && pool[k] == kept[i];
    assert(observable(pool[k]));
}

/// What passes the eclipse mask was in the pool: if every candidate of the
/// pool can be observed, so can every candidate that is left.
proof fn lemma_sunlit_observable(
    pool: Seq<CandidateView>,
    states: Seq<EclipseState>,
    min_rate: i64,
)
    requires
        forall|k: int| 0 <= k < pool.len() ==> observable(#[trigger] pool[k]),
    ensures
        forall|k: int|
            0 <= k < sunlit(pool, states, min_rate).len() ==> observable(
                #[trigger] sunlit(pool, states, min_rate)[k],
            ),
        sunlit(pool, states, min_rate).len() <= pool.len(),
    decreases pool.len(),
{
    if pool.len() > 0 {
        assert forall|k: int| 0 <= k < pool.drop_last().len() implies observable(
            #[trigger] pool.drop_last()[k],
        ) by {
            assert(pool.drop_last()[k] == pool[k]);
        }
        lemma_sunlit_observable(pool.drop_last(), states.drop_last(), min_rate);
        assert(observable(pool[pool.len() - 1]));
    }
}

} // verus!
