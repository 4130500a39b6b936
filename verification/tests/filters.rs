use gnss_rtk::filter::{filter_eclipsed, filter_elevation, is_eclipsed};
use gnss_rtk::prelude::{
    Candidate, Constellation, Duration, EclipseState, Epoch, InterpolationResult, PseudoRange,
    TimeScale, Vector3D, SV,
};

fn seen_at(prn: u8, elevation: Option<i64>) -> Candidate {
    let c = Candidate::new(
        SV::new(Constellation::GPS, prn),
        Epoch::from_nanoseconds(1_000_000_000, TimeScale::GPST),
        Vector3D::new(0, 0, 0),
        Duration::zero(),
        None,
        vec![PseudoRange { value: 20_000_000_000, frequency: 1_575_420_000 }],
    )
    .unwrap();
    match elevation {
        Some(elevation) => c.with_state(InterpolationResult {
            sky_pos: Vector3D::new(prn as i64, 0, 0),
            elevation,
            azimuth: 0,
        }),
        None => c,
    }
}

fn pool_of(elevations: &[i64]) -> Vec<Candidate> {
    elevations.iter().enumerate().map(|(i, e)| seen_at(i as u8 + 1, Some(*e))).collect()
}

fn prns(pool: &Vec<Candidate>) -> Vec<u8> {
    pool.iter().map(|c| c.sv().prn).collect()
}

const MASK: i64 = 10_000_000;

const LOW: i64 = 9_999_999;

const HIGH: i64 = 35_000_000;

#[test]
fn elevation_filter_without_mask_keeps_everything() {
    let kept = filter_elevation(pool_of(&[LOW, HIGH, -5, 0, i64::MIN]), None);
    assert_eq!(prns(&kept), vec![1, 2, 3, 4, 5]);
}

#[test]
fn elevation_filter_keeps_the_mask_itself() {
    let kept = filter_elevation(pool_of(&[MASK, LOW, MASK + 1]), Some(MASK));
    assert_eq!(prns(&kept), vec![1, 3]);
}

#[test]
fn elevation_filter_removes_the_first() {
    let kept = filter_elevation(pool_of(&[LOW, HIGH, HIGH, HIGH]), Some(MASK));
    assert_eq!(prns(&kept), vec![2, 3, 4]);
}

#[test]
fn elevation_filter_removes_the_last() {
    let kept = filter_elevation(pool_of(&[HIGH, HIGH, HIGH, LOW]), Some(MASK));
    assert_eq!(prns(&kept), vec![1, 2, 3]);
}

#[test]
fn elevation_filter_removes_neighbours() {
    let kept = filter_elevation(pool_of(&[HIGH, LOW, LOW, HIGH, LOW, LOW]), Some(MASK));
    assert_eq!(prns(&kept), vec![1, 4]);
}

#[test]
fn elevation_filter_removes_the_last_two() {
    // The removal of one candidate must not shield the one that follows it.
    let kept = filter_elevation(pool_of(&[HIGH, HIGH, LOW, LOW]), Some(MASK));
    assert_eq!(prns(&kept), vec![1, 2]);
}

#[test]
fn elevation_filter_removes_everything() {
    let kept = filter_elevation(pool_of(&[LOW, LOW, LOW]), Some(MASK));
    assert!(kept.is_empty());
}

#[test]
fn elevation_filter_on_small_pools() {
    assert!(filter_elevation(vec![], Some(MASK)).is_empty());
    assert!(filter_elevation(pool_of(&[LOW]), Some(MASK)).is_empty());
    assert_eq!(prns(&filter_elevation(pool_of(&[HIGH]), Some(MASK))), vec![1]);
}

#[test]
fn elevation_filter_is_exhaustive_on_every_pattern() {
    // Every pool of six candidates, each one above or below the mask.
    for pattern in 0..64u32 {
        let elevations: Vec<i64> =
            (0..6).map(|i| if pattern & (1 << i) != 0 { HIGH } else { LOW }).collect();
        let expected: Vec<u8> =
            (0..6u8).filter(|i| pattern & (1 << i) != 0).map(|i| i + 1).collect();
        let kept = filter_elevation(pool_of(&elevations), Some(MASK));
        assert_eq!(prns(&kept), expected);
        for c in &kept {
            assert_eq!(c.state().unwrap().elevation, HIGH);
        }
    }
}

#[test]
fn elevation_filter_keeps_unresolved_candidates() {
    let pool = vec![seen_at(1, None), seen_at(2, Some(LOW)), seen_at(3, None)];
    let kept = filter_elevation(pool, Some(MASK));
    assert_eq!(prns(&kept), vec![1, 3]);
}

#[test]
fn eclipsed_states() {
    assert!(is_eclipsed(EclipseState::Umbra, 0));
    assert!(is_eclipsed(EclipseState::Umbra, 1_000_000));
    assert!(!is_eclipsed(EclipseState::Visibilis, 0));
    assert!(!is_eclipsed(EclipseState::Visibilis, 1_000_000));
    assert!(is_eclipsed(EclipseState::Penumbra(499_999), 500_000));
    assert!(!is_eclipsed(EclipseState::Penumbra(500_000), 500_000));
    assert!(!is_eclipsed(EclipseState::Penumbra(500_001), 500_000));
}

#[test]
fn eclipse_filter_keeps_the_sunlit() {
    let states = vec![
        EclipseState::Umbra,
        EclipseState::Visibilis,
        EclipseState::Penumbra(200_000),
        EclipseState::Penumbra(800_000),
        EclipseState::Umbra,
        EclipseState::Umbra,
    ];
    let kept = filter_eclipsed(pool_of(&[HIGH; 6]), &states, 500_000);
    assert_eq!(prns(&kept), vec![2, 4]);
}

#[test]
fn eclipse_filter_on_every_pattern() {
    for pattern in 0..32u32 {
        let states: Vec<EclipseState> = (0..5)
            .map(|i| if pattern & (1 << i) != 0 { EclipseState::Visibilis } else { EclipseState::Umbra })
            .collect();
        let expected: Vec<u8> =
            (0..5u8).filter(|i| pattern & (1 << i) != 0).map(|i| i + 1).collect();
        let kept = filter_eclipsed(pool_of(&[HIGH; 5]), &states, 0);
        assert_eq!(prns(&kept), expected);
    }
}
