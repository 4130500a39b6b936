//! What a resolution produces: the fix itself and, satellite by satellite,
//! the delays that went into it.
use vstd::prelude::*;
use crate::sv::SV;
use crate::tropo::TropoSource;
use crate::vector::Vector3D;

verus! {

/// Kind of fix that is asked for.
#[derive(Debug, Clone, Copy, PartialEq, Eq, Structural)]
pub enum PVTSolutionType {
    /// Position, velocity and time.
    PositionVelocityTime,
    /// Time only: the position is not solved for.
    TimeOnly,
}

/// A delay on the signal of one satellite, in millimetres, and where it
/// comes from.
#[derive(Debug, Clone, Copy, PartialEq, Eq, Structural)]
pub struct PVTSVTimeDelay {
    /// The delay, where it was measured.
    pub measured: Option<i64>,
    /// The delay, where it was modeled.
    pub modeled: Option<i64>,
}

/// Data of one satellite that contributed to a fix.
#[derive(Debug, Clone, Copy, PartialEq, Eq, Structural)]
pub struct PVTSVData {
    /// Tropospheric delay on the satellite's signal.
    pub tropo: PVTSVTimeDelay,
}

/// Outcome of the least squares resolution.
#[derive(Debug, Clone, Copy, PartialEq, Eq, Structural)]
pub struct Estimate {
    /// Position correction, in millimetres.
    pub position: Vector3D,
    /// Receiver clock offset, in nanoseconds.
    pub dt: i64,
    /// Horizontal dilution of precision, in thousandths.
    pub hdop: i64,
    /// Vertical dilution of precision, in thousandths.
    pub vdop: i64,
    /// Time dilution of precision, in thousandths.
    pub tdop: i64,
}

/// One satellite's entry in a `SVTable`.
#[derive(Debug, Clone, Copy, PartialEq, Eq, Structural)]
pub struct SVEntry {
    pub sv: SV,
    pub data: PVTSVData,
}

/// Data of the satellites that contributed to a fix, one entry for each.
#[derive(Debug)]
pub struct SVTable {
    entries: Vec<SVEntry>,
}

/// A position, velocity and time fix.
#[derive(Debug)]
pub struct PVTSolution {
    /// Position, in millimetres.
    pub p: Vector3D,
    /// Velocity, in millimetres per second.
    pub v: Vector3D,
    /// Receiver clock offset, in nanoseconds.
    pub dt: i64,
    /// Horizontal dilution of precision, in thousandths.
    pub hdop: i64,
    /// Vertical dilution of precision, in thousandths.
    pub vdop: i64,
    /// Time dilution of precision, in thousandths.
    pub tdop: i64,
    /// Data of the satellites that contributed.
    pub sv: SVTable,
}

/// The 64-bit integer nearest to `value`.
pub open spec fn clamped(value: int) -> i64 {
    if value < i64::MIN {
        i64::MIN
    } else if value > i64::MAX {
        i64::MAX
    } else {
        value as i64
    }
}

/// Position of a fix of kind `solution`: null for a time only fix; else the
/// estimated position, its vertical component overridden by the apriori
/// vertical component minus the fixed altitude where one is set.
pub open spec fn final_position(
    position: Vector3D,
    fixed_altitude: Option<i64>,
    apriori: Vector3D,
    solution: PVTSolutionType,
) -> Vector3D {
    if solution == PVTSolutionType::TimeOnly {
        Vector3D::zero()
    } else {
        match fixed_altitude {
            Some(altitude) => Vector3D { z: clamped(apriori.z - altitude), ..position },
            None => position,
        }
    }
}

/// Dilution of precision of a fix of kind `solution`: a time only fix has no
/// geometry to speak of.
pub open spec fn final_dop(dop: i64, solution: PVTSolutionType) -> i64 {
    if solution == PVTSolutionType::TimeOnly {
        0
    } else {
        dop
    }
}

impl Clone for PVTSolution {
    fn clone(&self) -> (copy: PVTSolution)
        ensures
            copy.p == self.p,
            copy.v == self.v,
            copy.dt == self.dt,
            copy.hdop == self.hdop,
            copy.vdop == self.vdop,
            copy.tdop == self.tdop,
            copy.sv@ == self.sv@,
    {
        PVTSolution {
            p: self.p,
            v: self.v,
            dt: self.dt,
            hdop: self.hdop,
            vdop: self.vdop,
            tdop: self.tdop,
            sv: self.sv.clone(),
        }
    }
}

impl PVTSolution {
    /// `self` is the fix of kind `solution` that comes of `estimate` and of
    /// the satellite data `sv`, for a receiver taken to be at `apriori`.
    pub open spec fn is_fix_of(
        self,
        estimate: Estimate,
        sv: Map<SV, PVTSVData>,
        fixed_altitude: Option<i64>,
        apriori: Vector3D,
        solution: PVTSolutionType,
    ) -> bool {
        &&& self.p == final_position(estimate.position, fixed_altitude, apriori, solution)
        &&& self.v == Vector3D::zero()
        &&& self.dt == estimate.dt
        &&& self.hdop == final_dop(estimate.hdop, solution)
        &&& self.vdop == final_dop(estimate.vdop, solution)
        &&& self.tdop == estimate.tdop
        &&& self.sv@ == sv
    }

    /// Shapes the outcome of the least squares resolution into the fix that
    /// was asked for.
    ///
    /// Where an altitude is fixed, the vertical component of the position is
    /// the apriori vertical component minus that altitude, kept within the
    /// 64-bit range. A time only fix reports a null position and null
    /// horizontal and vertical dilutions of precision. The velocity is not
    /// solved for: it is null.
    pub fn new(
        estimate: Estimate,
        sv: SVTable,
        fixed_altitude: Option<i64>,
        apriori: &Vector3D,
        solution: PVTSolutionType,
    ) -> (fix: PVTSolution)
        ensures
            fix.is_fix_of(estimate, sv@, fixed_altitude, *apriori, solution),
            solution == PVTSolutionType::TimeOnly ==> fix.p == Vector3D::zero() && fix.hdop == 0
                && fix.vdop == 0,
    {
        let mut p = estimate.position;
        if let Some(altitude) = fixed_altitude {
            let vertical: i128 = apriori.z as i128 - altitude as i128;
            p.z = if vertical < i64::MIN as i128 {
                i64::MIN
            } else if vertical > i64::MAX as i128 {
                i64::MAX
            } else {
                vertical as i64
            };
        }
        let mut hdop = estimate.hdop;
        let mut vdop = estimate.vdop;
        match solution {
            PVTSolutionType::TimeOnly => {
                p = Vector3D::null();
                hdop = 0;
                vdop = 0;
            },
            PVTSolutionType::PositionVelocityTime => {},
        }
        PVTSolution { p, v: Vector3D::null(), dt: estimate.dt, hdop, vdop, tdop: estimate.tdop, sv }
    }
}

impl Default for PVTSolutionType {
    fn default() -> (solution: PVTSolutionType)
        ensures
            solution == PVTSolutionType::PositionVelocityTime,
    {
        PVTSolutionType::PositionVelocityTime
    }
}

impl PVTSVTimeDelay {
    /// No delay is known.
    pub open spec fn absent() -> PVTSVTimeDelay {
        PVTSVTimeDelay { measured: None, modeled: None }
    }

    /// The delay `delay` as it comes from `source`.
    pub open spec fn from_source(source: TropoSource, delay: i64) -> PVTSVTimeDelay {
        match source {
            TropoSource::Measured => PVTSVTimeDelay { measured: Some(delay), modeled: None },
            TropoSource::Modeled => PVTSVTimeDelay { measured: None, modeled: Some(delay) },
            TropoSource::Absent => PVTSVTimeDelay::absent(),
        }
    }

    /// A delay that was measured.
    pub fn measured(delay: i64) -> (out: PVTSVTimeDelay)
        ensures
            out == PVTSVTimeDelay::from_source(TropoSource::Measured, delay),
    {
        PVTSVTimeDelay { measured: Some(delay), modeled: None }
    }

    /// A delay that was modeled.
    pub fn modeled(delay: i64) -> (out: PVTSVTimeDelay)
        ensures
            out == PVTSVTimeDelay::from_source(TropoSource::Modeled, delay),
    {
        PVTSVTimeDelay { measured: None, modeled: Some(delay) }
    }

    /// The delay `delay` as it comes from `source`.
    pub fn of(source: TropoSource, delay: i64) -> (out: PVTSVTimeDelay)
        ensures
            out == PVTSVTimeDelay::from_source(source, delay),
    {
        match source {
            TropoSource::Measured => PVTSVTimeDelay::measured(delay),
            TropoSource::Modeled => PVTSVTimeDelay::modeled(delay),
            TropoSource::Absent => PVTSVTimeDelay { measured: None, modeled: None },
        }
    }

    /// The delay, wherever it comes from: a measurement goes before a model.
    pub fn value(&self) -> (delay: Option<i64>)
        ensures
            delay == (if self.measured is Some {
                self.measured
            } else {
                self.modeled
            }),
    {
        if self.measured.is_some() {
            self.measured
        } else {
            self.modeled
        }
    }
}

impl Default for PVTSVData {
    fn default() -> (data: PVTSVData)
        ensures
            data.tropo == PVTSVTimeDelay::absent(),
    {
        PVTSVData { tropo: PVTSVTimeDelay { measured: None, modeled: None } }
    }
}

/// No satellite has two entries.
pub open spec fn distinct_satellites(entries: Seq<SVEntry>) -> bool {
    forall|i: int, j: int|
        0 <= i < entries.len() && 0 <= j < entries.len() && i != j ==> entries[i].sv
            != entries[j].sv
}

/// The entries as a map from satellite to data.
pub open spec fn entries_map(entries: Seq<SVEntry>) -> Map<SV, PVTSVData> {
    Map::new(
        |sv: SV| exists|i: int| 0 <= i < entries.len() && entries[i].sv == sv,
        |sv: SV| entries[choose|i: int| 0 <= i < entries.len() && entries[i].sv == sv].data,
    )
}

impl View for SVTable {
    type V = Map<SV, PVTSVData>;

    closed spec fn view(&self) -> Map<SV, PVTSVData> {
        entries_map(self.entries@)
    }
}

impl Clone for SVTable {
    fn clone(&self) -> (copy: SVTable)
        ensures
            copy@ == self@,
    {
        proof {
            use_type_invariant(self);
        }
        let mut entries: Vec<SVEntry> = Vec::new();
        let mut i: usize = 0;
        while i < self.entries.len()
            invariant
                i <= self.entries@.len(),
                entries@ == self.entries@.subrange(0, i as int),
            decreases self.entries@.len() - i,
        {
            entries.push(self.entries[i]);
            i += 1;
        }
        assert(entries@ =~= self.entries@);
        SVTable { entries }
    }
}

impl SVTable {
    #[verifier::type_invariant]
    spec fn well_formed(self) -> bool {
        distinct_satellites(self.entries@)
    }

    /// The table without any entry.
    pub fn new() -> (table: SVTable)
        ensures
            table@ == Map::<SV, PVTSVData>::empty(),
    {
        let table = SVTable { entries: Vec::new() };
        assert(table@ =~= Map::<SV, PVTSVData>::empty());
        table
    }

    /// Position of the entry of `sv`, if it has one.
    fn position(&self, sv: SV) -> (found: Option<usize>)
        ensures
            match found {
                Some(i) => i < self.entries@.len() && self.entries@[i as int].sv == sv,
                None => forall|j: int| 0 <= j < self.entries@.len() ==> self.entries@[j].sv != sv,
            },
    {
        let mut i: usize = 0;
        while i < self.entries.len()
            invariant
                i <= self.entries@.len(),
                forall|j: int| 0 <= j < i ==> self.entries@[j].sv != sv,
            decreases self.entries@.len() - i,
        {
            if self.entries[i].sv == sv {
                return Some(i);
            }
            i += 1;
        }
        None
    }

    /// Records `data` for `sv`, in place of what was recorded for it before.
    pub fn insert(&mut self, sv: SV, data: PVTSVData)
        ensures
            final(self)@ == old(self)@.insert(sv, data),
    {
        proof {
            use_type_invariant(&*self);
        }
        let found = self.position(sv);
        let ghost before = self.entries@;
        let ghost replaced = match found {
            Some(i) => before.update(i as int, SVEntry { sv, data }),
            None => before.push(SVEntry { sv, data }),
        };
        let mut entries: Vec<SVEntry> = Vec::new();
        let mut k: usize = 0;
        while k < self.entries.len()
            invariant
                before == self.entries@,
                k <= before.len(),
                entries@.len() == k,
                forall|j: int|
                    0 <= j < k ==> entries@[j] == (if found == Some(j as usize) {
                        SVEntry { sv, data }
                    } else {
                        before[j]
                    }),
            decreases before.len() - k,
        {
            if found == Some(k) {
                entries.push(SVEntry { sv, data });
            } else {
                entries.push(self.entries[k]);
            }
            k += 1;
        }
        if found.is_none() {
            entries.push(SVEntry { sv, data });
        }
        assert(entries@ =~= replaced);
        proof {
            let after = replaced;
            assert(distinct_satellites(after));
            assert forall|k: SV| #[trigger]
                entries_map(after).dom().contains(k) == entries_map(before).insert(
                    sv,
                    data,
                ).dom().contains(k) by {
                if k == sv {
                    let at = match found {
                        Some(i) => i as int,
                        None => before.len() as int,
                    };
                    assert(after[at].sv == sv);
                } else {
                    if entries_map(before).dom().contains(k) {
                        let i = choose|i: int| 0 <= i < before.len() && before[i].sv == k;
                        assert(after[i].sv == k);
                    }
                    if entries_map(after).dom().contains(k) {
                        let i = choose|i: int| 0 <= i < after.len() && after[i].sv == k;
                        assert(before[i].sv == k);
                    }
                }
            }
            assert forall|k: SV| #[trigger]
                entries_map(after).dom().contains(k) implies entries_map(after)[k]
                == entries_map(before).insert(sv, data)[k] by {
                let i = choose|i: int| 0 <= i < after.len() && after[i].sv == k;
                if k != sv {
                    let j = choose|j: int| 0 <= j < before.len() && before[j].sv == k;
                    assert(before[i].sv == k);
                    assert(i == j);
                }
            }
            assert(entries_map(after) =~= entries_map(before).insert(sv, data));
        }
        self.entries = entries;
    }

    /// What was recorded for `sv`.
    pub fn get(&self, sv: SV) -> (data: Option<PVTSVData>)
        ensures
            data == (if self@.contains_key(sv) {
                Some(self@[sv])
            } else {
                None
            }),
    {
        proof {
            use_type_invariant(self);
        }
        match self.position(sv) {
            Some(i) => {
                proof {
                    let j = choose|j: int| 0 <= j < self.entries@.len() && self.entries@[j].sv == sv;
                    assert(j == i);
                }
                Some(self.entries[i].data)
            },
            None => None,
        }
    }

    /// Tells whether something was recorded for `sv`.
    pub fn contains(&self, sv: SV) -> (found: bool)
        ensures
            found == self@.contains_key(sv),
    {
        self.position(sv).is_some()
    }

    /// The satellites that have an entry, in the order in which they got it.
    pub fn satellites(&self) -> (all: Vec<SV>)
        ensures
            forall|sv: SV| all@.contains(sv) <==> self@.contains_key(sv),
            all@.no_duplicates(),
    {
        proof {
            use_type_invariant(self);
        }
        let mut all: Vec<SV> = Vec::new();
        let mut i: usize = 0;
        while i < self.entries.len()
            invariant
                i <= self.entries@.len(),
                all@.len() == i,
                forall|j: int| 0 <= j < i ==> all@[j] == self.entries@[j].sv,
            decreases self.entries@.len() - i,
        {
            all.push(self.entries[i].sv);
            i += 1;
        }
        proof {
            assert forall|sv: SV| all@.contains(sv) <==> self@.contains_key(sv) by {
                if all@.contains(sv) {
                    let j = choose|j: int| 0 <= j < all@.len() && all@[j] == sv;
                    assert(self.entries@[j].sv == sv);
                }
                if self@.contains_key(sv) {
                    let j = choose|j: int| 0 <= j < self.entries@.len() && self.entries@[j].sv == sv;
                    assert(all@[j] == sv);
                }
            }
        }
        all
    }
}

} // verus!
