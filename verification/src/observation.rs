//! The linearized observation model: for each candidate one row of the
//! geometry matrix and one residual.
use vstd::prelude::*;
use crate::candidate::{views, Candidate, CandidateView};
use crate::cfg::{Config, InternalDelay};
use crate::fixed::{
    floor_div,
    is_floor_sqrt,
    lemma_floor_div_bounds,
    lemma_square_monotonic,
    light_travel,
    nanos_to_range,
    UNIT,
};
use crate::solutions::{PVTSVData, PVTSVTimeDelay, SVTable};
use crate::sv::SV;
use crate::tropo::TropoSource;
use crate::vector::{distance, squared_distance, Vector3D, MAX_COORDINATE};

verus! {

/// One row of the observation model.
#[derive(Debug, Clone, Copy, PartialEq, Eq, Structural)]
pub struct Observation {
    /// Partial derivative of the range by the receiver's x coordinate, in
    /// parts per `UNIT`.
    pub gx: i64,
    /// Partial derivative of the range by the receiver's y coordinate.
    pub gy: i64,
    /// Partial derivative of the range by the receiver's z coordinate.
    pub gz: i64,
    /// Coefficient of the receiver's clock offset: always `UNIT`.
    pub gt: i64,
    /// Observed minus modeled pseudo range, in millimetres.
    pub residual: i128,
}

/// Share of `delta` in `range`, in parts per `UNIT`, rounded down. An empty
/// range has no direction: its cosines are zero.
pub open spec fn direction(delta: int, range: int) -> int {
    if range == 0 {
        0
    } else {
        (delta * UNIT) / range
    }
}

/// Range equivalent of the delays that the receiver's radio frequency chain
/// adds on carrier `frequency`: the sum over the delays set for that carrier.
pub open spec fn internal_delay(delays: Seq<InternalDelay>, frequency: u64) -> int
    decreases delays.len(),
{
    if delays.len() == 0 {
        0
    } else {
        internal_delay(delays.drop_last(), frequency) + (if delays.last().frequency == frequency {
            nanos_to_range(delays.last().delay as int)
        } else {
            0
        })
    }
}

/// What the models add to the geometric range: the satellite's clock
/// correction, counted against the range, and the tropospheric delay along
/// the line of sight.
pub open spec fn model_correction(c: CandidateView, tropo_delay: i64) -> int {
    -nanos_to_range(c.clock_corr.nanoseconds as int) + tropo_delay
}

/// External reference delay as a range.
pub open spec fn reference_delay(cfg: Config) -> int {
    match cfg.externalref_delay {
        Some(delay) => nanos_to_range(delay.nanoseconds as int),
        None => 0,
    }
}

/// Observed pseudo range, minus the geometric range from `apriori` to the
/// satellite, minus the model correction and the external reference delay,
/// plus the internal delays on the carrier of the pseudo range.
pub open spec fn residual_of(c: CandidateView, apriori: Vector3D, cfg: Config, tropo_delay: i64) -> int {
    c.selected().value - distance(apriori, c.state->0.sky_pos) - model_correction(c, tropo_delay)
        - reference_delay(cfg) + internal_delay(cfg.int_delay@, c.selected().frequency)
}

/// The row of the observation model that candidate `c` contributes when the
/// receiver is taken to be at `apriori`.
pub open spec fn observation_of(
    c: CandidateView,
    apriori: Vector3D,
    cfg: Config,
    tropo_delay: i64,
) -> Observation {
    let sky = c.state->0.sky_pos;
    let range = distance(apriori, sky);
    Observation {
        gx: direction(apriori.x - sky.x, range) as i64,
        gy: direction(apriori.y - sky.y, range) as i64,
        gz: direction(apriori.z - sky.z, range) as i64,
        gt: UNIT,
        residual: residual_of(c, apriori, cfg, tropo_delay) as i128,
    }
}

/// A candidate can be observed once its sky state is resolved to a position
/// within the volume that distances are computed in.
pub open spec fn observable(c: CandidateView) -> bool {
    c.state is Some && c.state->0.sky_pos.bounded()
}

/// No coordinate of a vector is longer than the vector, even once its length
/// is rounded down.
pub proof fn lemma_component_within_range(dx: int, dy: int, dz: int, range: int)
    requires
        is_floor_sqrt(dx * dx + dy * dy + dz * dz, range),
    ensures
        -range <= dx <= range,
        -range <= dy <= range,
        -range <= dz <= range,
{
    assert(dx * dx >= 0 && dy * dy >= 0 && dz * dz >= 0) by (nonlinear_arith);
    lemma_square_below(dx, range);
    lemma_square_below(dy, range);
    lemma_square_below(dz, range);
}

/// A number whose square is below the square of `range + 1` is at most
/// `range` in magnitude.
proof fn lemma_square_below(d: int, range: int)
    requires
        0 <= range,
        d * d < (range + 1) * (range + 1),
    ensures
        -range <= d <= range,
{
    if d > range {
        lemma_square_monotonic(range + 1, d);
    } else if d < -range {
        lemma_square_monotonic(range + 1, -d);
        assert((-d) * (-d) == d * d) by (nonlinear_arith);
    }
}

/// Share of `delta` in `range`, in parts per `UNIT`.
fn direction_cosine(delta: i128, range: i64) -> (cosine: i64)
    requires
        0 <= range <= 4 * MAX_COORDINATE,
        -range <= delta <= range,
    ensures
        cosine == direction(delta as int, range as int),
        -UNIT <= cosine <= UNIT,
{
    if range == 0 {
        0
    } else {
        assert(-UNIT * range <= delta * UNIT <= UNIT * range && -4_000_000_000_000_000_000_000_000_000
            <= delta * UNIT <= 4_000_000_000_000_000_000_000_000_000) by (nonlinear_arith)
            requires
                -range <= delta <= range,
                0 < range <= 4_000_000_000_000_000_000,
                UNIT == 1_000_000_000,
        ;
        let scaled: i128 = delta * (UNIT as i128);
        let cosine: i128 = floor_div(scaled, range as i128);
        proof {
            lemma_floor_div_bounds(scaled as int, range as int, -UNIT as int, UNIT as int);
        }
        cosine as i64
    }
}

/// Largest magnitude of the range equivalent of one internal delay.
pub const MAX_INTERNAL_RANGE: i128 = 650_000_000_000;

/// The internal delays on one carrier add up to no more than
/// `MAX_INTERNAL_RANGE` each.
pub proof fn lemma_internal_delay_bounds(delays: Seq<InternalDelay>, frequency: u64)
    ensures
        -MAX_INTERNAL_RANGE * delays.len() <= internal_delay(delays, frequency)
            <= MAX_INTERNAL_RANGE * delays.len(),
    decreases delays.len(),
{
    if delays.len() > 0 {
        lemma_internal_delay_bounds(delays.drop_last(), frequency);
        let nanos = delays.last().delay as int;
        assert(-650_000_000_000 * 1_000_000 <= nanos * 299_792_458 <= 650_000_000_000
            * 1_000_000) by (nonlinear_arith)
            requires
                -2_147_483_648 <= nanos <= 2_147_483_647,
        ;
        lemma_floor_div_bounds(nanos * 299_792_458, 1_000_000, -650_000_000_000, 650_000_000_000);
        assert(MAX_INTERNAL_RANGE * delays.len() == MAX_INTERNAL_RANGE * (delays.len() - 1)
            + MAX_INTERNAL_RANGE) by (nonlinear_arith);
        assert(delays.drop_last().len() == delays.len() - 1);
    }
}

/// Range equivalent of the delays that the receiver's radio frequency chain
/// adds on carrier `frequency`.
pub fn internal_delay_on(delays: &Vec<InternalDelay>, frequency: u64) -> (range: i128)
    ensures
        range == internal_delay(delays@, frequency),
        -MAX_INTERNAL_RANGE * delays@.len() <= range <= MAX_INTERNAL_RANGE * delays@.len(),
        -650_000_000_000 * 0x1_0000_0000_0000_0000 <= range <= 650_000_000_000
            * 0x1_0000_0000_0000_0000,
{
    let mut range: i128 = 0;
    let mut i: usize = 0;
    assert(delays@.take(0) =~= Seq::<InternalDelay>::empty());
    while i < delays.len()
        invariant
            i <= delays@.len(),
            range == internal_delay(delays@.take(i as int), frequency),
        decreases delays@.len() - i,
    {
        proof {
            assert(delays@.take(i + 1).drop_last() =~= delays@.take(i as int));
            lemma_internal_delay_bounds(delays@.take(i as int), frequency);
            lemma_internal_delay_bounds(delays@.take(i + 1), frequency);
            assert(MAX_INTERNAL_RANGE * (i + 1) <= 650_000_000_000 * 0x1_0000_0000_0000_0000)
                by (nonlinear_arith)
                requires
                    0 <= i < 0x1_0000_0000_0000_0000,
                    MAX_INTERNAL_RANGE == 650_000_000_000,
            ;
            assert(MAX_INTERNAL_RANGE * i <= 650_000_000_000 * 0x1_0000_0000_0000_0000)
                by (nonlinear_arith)
                requires
                    0 <= i < 0x1_0000_0000_0000_0000,
                    MAX_INTERNAL_RANGE == 650_000_000_000,
            ;
        }
        if delays[i].frequency == frequency {
            let one: i128 = light_travel(delays[i].delay as i64);
            range = range + one;
        }
        i += 1;
    }
    proof {
        assert(delays@.take(delays@.len() as int) =~= delays@);
        lemma_internal_delay_bounds(delays@, frequency);
        assert(MAX_INTERNAL_RANGE * i <= 650_000_000_000 * 0x1_0000_0000_0000_0000)
            by (nonlinear_arith)
            requires
                0 <= i < 0x1_0000_0000_0000_0000,
                MAX_INTERNAL_RANGE == 650_000_000_000,
        ;
    }
    range
}

/// Builds the row of the observation model that candidate `c` contributes
/// when the receiver is taken to be at `apriori` and the troposphere delays
/// the candidate's signal by `tropo_delay`.
pub fn observe(c: &Candidate, apriori: &Vector3D, cfg: &Config, tropo_delay: i64) -> (row:
    Observation)
    requires
        observable(c@),
        apriori.bounded(),
    ensures
        row == observation_of(c@, *apriori, *cfg, tropo_delay),
        row.gt == UNIT,
        -UNIT <= row.gx <= UNIT,
        -UNIT <= row.gy <= UNIT,
        -UNIT <= row.gz <= UNIT,
{
    let state = c.state().unwrap();
    let sky = state.sky_pos;
    let range: i64 = apriori.distance_to(&sky);
    let dx: i128 = apriori.x as i128 - sky.x as i128;
    let dy: i128 = apriori.y as i128 - sky.y as i128;
    let dz: i128 = apriori.z as i128 - sky.z as i128;
    proof {
        assert(squared_distance(*apriori, sky) == dx * dx + dy * dy + dz * dz);
        lemma_component_within_range(dx as int, dy as int, dz as int, range as int);
    }
    let gx: i64 = direction_cosine(dx, range);
    let gy: i64 = direction_cosine(dy, range);
    let gz: i64 = direction_cosine(dz, range);
    let pr = *c.pseudo_range();
    let clock: i128 = light_travel(c.clock_corr().nanoseconds);
    let models: i128 = -clock + tropo_delay as i128;
    let reference: i128 = match cfg.externalref_delay {
        Some(delay) => light_travel(delay.nanoseconds),
        None => 0,
    };
    let internal: i128 = internal_delay_on(&cfg.int_delay, pr.frequency);
    let residual: i128 = pr.value as i128 - range as i128 - models - reference + internal;
    Observation { gx, gy, gz, gt: UNIT, residual }
}

/// The rows of the observation model: one for each candidate of `pool`, in
/// the pool's order, `delays[i]` being the tropospheric delay on the signal
/// of `pool[i]`.
pub open spec fn observations_of(
    pool: Seq<CandidateView>,
    delays: Seq<i64>,
    apriori: Vector3D,
    cfg: Config,
) -> Seq<Observation> {
    Seq::new(pool.len(), |i: int| observation_of(pool[i], apriori, cfg, delays[i]))
}

/// Builds the observation model of `pool`, row by row.
pub fn observation_model(
    pool: &Vec<Candidate>,
    delays: &Vec<i64>,
    apriori: &Vector3D,
    cfg: &Config,
) -> (rows: Vec<Observation>)
    requires
        delays@.len() == pool@.len(),
        forall|i: int| 0 <= i < pool@.len() ==> observable(#[trigger] pool@[i]@),
        apriori.bounded(),
    ensures
        rows@ == observations_of(views(pool@), delays@, *apriori, *cfg),
{
    let mut rows: Vec<Observation> = Vec::new();
    let mut i: usize = 0;
    while i < pool.len()
        invariant
            i <= pool@.len(),
            delays@.len() == pool@.len(),
            forall|k: int| 0 <= k < pool@.len() ==> observable(#[trigger] pool@[k]@),
            apriori.bounded(),
            rows@.len() == i,
            forall|k: int|
                0 <= k < i ==> rows@[k] == observation_of(pool@[k]@, *apriori, *cfg, delays@[k]),
        decreases pool@.len() - i,
    {
        let row = observe(&pool[i], apriori, cfg, delays[i]);
        rows.push(row);
        i += 1;
    }
    assert(rows@ =~= observations_of(views(pool@), delays@, *apriori, *cfg));
    rows
}

/// What is recorded of each satellite of `pool`: its tropospheric delay and
/// where that delay comes from. A satellite that occurs twice keeps what its
/// later candidate records.
pub open spec fn sv_data_of(pool: Seq<CandidateView>, delays: Seq<i64>, source: TropoSource) -> Map<
    SV,
    PVTSVData,
>
    recommends
        pool.len() == delays.len(),
    decreases pool.len(),
{
    if pool.len() == 0 {
        Map::empty()
    } else {
        sv_data_of(pool.drop_last(), delays.drop_last(), source).insert(
            pool.last().sv,
            PVTSVData { tropo: PVTSVTimeDelay::from_source(source, delays.last()) },
        )
    }
}

/// Records, satellite by satellite, the tropospheric delay that went into
/// the observation model and where it comes from.
pub fn sv_table(pool: &Vec<Candidate>, delays: &Vec<i64>, source: TropoSource) -> (table: SVTable)
    requires
        delays@.len() == pool@.len(),
    ensures
        table@ == sv_data_of(views(pool@), delays@, source),
{
    let mut table = SVTable::new();
    let mut i: usize = 0;
    assert(views(pool@).take(0) =~= Seq::<CandidateView>::empty());
    while i < pool.len()
        invariant
            i <= pool@.len(),
            delays@.len() == pool@.len(),
            table@ == sv_data_of(views(pool@).take(i as int), delays@.take(i as int), source),
        decreases pool@.len() - i,
    {
        proof {
            assert(views(pool@).take(i + 1).drop_last() =~= views(pool@).take(i as int));
            assert(delays@.take(i + 1).drop_last() =~= delays@.take(i as int));
        }
        table.insert(pool[i].sv(), PVTSVData { tropo: PVTSVTimeDelay::of(source, delays[i]) });
        i += 1;
    }
    proof {
        assert(views(pool@).take(pool@.len() as int) =~= views(pool@));
        assert(delays@.take(delays@.len() as int) =~= delays@);
    }
    table
}

} // verus!
