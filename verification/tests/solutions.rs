use gnss_rtk::prelude::{
    Constellation, Estimate, PVTSVData, PVTSVTimeDelay, PVTSolution, PVTSolutionType, SVTable,
    TropoComponents, TropoSource, Vector3D, SV,
};
use gnss_rtk::tropo::tropo_source;

fn estimated() -> Estimate {
    Estimate { position: Vector3D::new(1_500, -2_500, 3_500), dt: 42, hdop: 1_200, vdop: 2_300, tdop: 900 }
}

#[test]
fn fix_keeps_the_estimate() {
    let fix = PVTSolution::new(
        estimated(),
        SVTable::new(),
        None,
        &Vector3D::new(10, 20, 30),
        PVTSolutionType::PositionVelocityTime,
    );
    assert_eq!(fix.p, Vector3D::new(1_500, -2_500, 3_500));
    assert_eq!(fix.v, Vector3D::new(0, 0, 0));
    assert_eq!((fix.dt, fix.hdop, fix.vdop, fix.tdop), (42, 1_200, 2_300, 900));
    assert!(fix.sv.satellites().is_empty());
}

#[test]
fn fixed_altitude_overrides_the_vertical_component() {
    let fix = PVTSolution::new(
        estimated(),
        SVTable::new(),
        Some(100_000),
        &Vector3D::new(10, 20, 4_500_000_000),
        PVTSolutionType::PositionVelocityTime,
    );
    assert_eq!(fix.p, Vector3D::new(1_500, -2_500, 4_500_000_000 - 100_000));
    assert_eq!(fix.v, Vector3D::new(0, 0, 0));
    assert_eq!((fix.dt, fix.hdop, fix.vdop, fix.tdop), (42, 1_200, 2_300, 900));
}

#[test]
fn fixed_altitude_stays_within_range() {
    let fix = PVTSolution::new(
        estimated(),
        SVTable::new(),
        Some(i64::MIN),
        &Vector3D::new(0, 0, 1),
        PVTSolutionType::PositionVelocityTime,
    );
    assert_eq!(fix.p.z, i64::MAX);
    let fix = PVTSolution::new(
        estimated(),
        SVTable::new(),
        Some(i64::MAX),
        &Vector3D::new(0, 0, -2),
        PVTSolutionType::PositionVelocityTime,
    );
    assert_eq!(fix.p.z, i64::MIN);
}

#[test]
fn time_only_fix_has_no_position() {
    for fixed_altitude in [None, Some(100_000)] {
        let fix = PVTSolution::new(
            estimated(),
            SVTable::new(),
            fixed_altitude,
            &Vector3D::new(10, 20, 30),
            PVTSolutionType::TimeOnly,
        );
        assert_eq!(fix.p, Vector3D::new(0, 0, 0));
        assert_eq!(fix.v, Vector3D::new(0, 0, 0));
        assert_eq!((fix.hdop, fix.vdop), (0, 0));
        assert_eq!((fix.dt, fix.tdop), (42, 900));
    }
}

#[test]
fn satellite_table_insert_and_get() {
    let mut table = SVTable::new();
    let g1 = SV::new(Constellation::GPS, 1);
    let e1 = SV::new(Constellation::Galileo, 1);
    let g2 = SV::new(Constellation::GPS, 2);
    assert_eq!(table.get(g1), None);
    assert!(!table.contains(g1));
    table.insert(g1, PVTSVData { tropo: PVTSVTimeDelay::modeled(1) });
    table.insert(e1, PVTSVData { tropo: PVTSVTimeDelay::modeled(2) });
    table.insert(g2, PVTSVData { tropo: PVTSVTimeDelay::measured(3) });
    assert_eq!(table.get(g1), Some(PVTSVData { tropo: PVTSVTimeDelay::modeled(1) }));
    assert_eq!(table.get(e1), Some(PVTSVData { tropo: PVTSVTimeDelay::modeled(2) }));
    assert_eq!(table.get(g2), Some(PVTSVData { tropo: PVTSVTimeDelay::measured(3) }));
    assert!(table.contains(e1));
    assert!(!table.contains(SV::new(Constellation::Galileo, 2)));
    assert_eq!(table.satellites(), vec![g1, e1, g2]);
}

#[test]
fn satellite_table_insert_replaces() {
    let mut table = SVTable::new();
    let g1 = SV::new(Constellation::GPS, 1);
    let g2 = SV::new(Constellation::GPS, 2);
    table.insert(g1, PVTSVData { tropo: PVTSVTimeDelay::modeled(1) });
    table.insert(g2, PVTSVData { tropo: PVTSVTimeDelay::modeled(2) });
    table.insert(g1, PVTSVData { tropo: PVTSVTimeDelay::measured(9) });
    assert_eq!(table.get(g1), Some(PVTSVData { tropo: PVTSVTimeDelay::measured(9) }));
    assert_eq!(table.get(g2), Some(PVTSVData { tropo: PVTSVTimeDelay::modeled(2) }));
    assert_eq!(table.satellites(), vec![g1, g2]);
    let copy = table.clone();
    assert_eq!(copy.get(g1), table.get(g1));
    assert_eq!(copy.satellites(), table.satellites());
}

#[test]
fn delay_knows_where_it_comes_from() {
    assert_eq!(PVTSVTimeDelay::measured(5), PVTSVTimeDelay { measured: Some(5), modeled: None });
    assert_eq!(PVTSVTimeDelay::modeled(5), PVTSVTimeDelay { measured: None, modeled: Some(5) });
    assert_eq!(PVTSVTimeDelay::of(TropoSource::Measured, 5), PVTSVTimeDelay::measured(5));
    assert_eq!(PVTSVTimeDelay::of(TropoSource::Modeled, 5), PVTSVTimeDelay::modeled(5));
    assert_eq!(
        PVTSVTimeDelay::of(TropoSource::Absent, 5),
        PVTSVTimeDelay { measured: None, modeled: None }
    );
    assert_eq!(PVTSVTimeDelay::measured(5).value(), Some(5));
    assert_eq!(PVTSVTimeDelay::modeled(6).value(), Some(6));
    assert_eq!(PVTSVTimeDelay { measured: Some(1), modeled: Some(2) }.value(), Some(1));
    assert_eq!(PVTSVTimeDelay::of(TropoSource::Absent, 5).value(), None);
    assert_eq!(PVTSVData::default().tropo.value(), None);
}

#[test]
fn measured_troposphere_goes_before_the_model() {
    let measured = Some(TropoComponents { zwd: 100, zdd: 2_300 });
    assert_eq!(tropo_source(&measured, true), TropoSource::Measured);
    assert_eq!(tropo_source(&measured, false), TropoSource::Measured);
    assert_eq!(tropo_source(&None, true), TropoSource::Modeled);
    assert_eq!(tropo_source(&None, false), TropoSource::Absent);
    assert_eq!(TropoComponents::default(), TropoComponents { zwd: 0, zdd: 0 });
    assert_eq!(PVTSolutionType::default(), PVTSolutionType::PositionVelocityTime);
}

#[test]
fn cloned_fix_holds_the_same() {
    let mut table = SVTable::new();
    let g1 = SV::new(Constellation::GPS, 1);
    table.insert(g1, PVTSVData { tropo: PVTSVTimeDelay::modeled(1) });
    let fix = PVTSolution::new(
        estimated(),
        table,
        Some(5),
        &Vector3D::new(10, 20, 30),
        PVTSolutionType::PositionVelocityTime,
    );
    let copy = fix.clone();
    assert_eq!(copy.p, Vector3D::new(1_500, -2_500, 25));
    assert_eq!((copy.p, copy.v, copy.dt), (fix.p, fix.v, fix.dt));
    assert_eq!((copy.hdop, copy.vdop, copy.tdop), (fix.hdop, fix.vdop, fix.tdop));
    assert_eq!(copy.sv.get(g1), fix.sv.get(g1));
}
