//! The quality filters of a resolution: the elevation mask and the eclipse
//! mask. Each one walks the pool once, judges every candidate once, and
//! keeps the ones that pass in the order in which they came.
use vstd::prelude::*;
use crate::candidate::{views, Candidate, CandidateView};

verus! {

/// How much of the Sun a satellite sees.
#[derive(Debug, Clone, Copy, PartialEq, Eq, Structural)]
pub enum EclipseState {
    /// In the Earth's full shadow.
    Umbra,
    /// Fully illuminated.
    Visibilis,
    /// In the Earth's partial shadow, seeing the given fraction of the Sun's
    /// disk, in parts per million.
    Penumbra(i64),
}

/// A candidate passes the elevation mask unless a mask is set, its sky state
/// is resolved, and its elevation is below the mask.
pub open spec fn above_mask(c: CandidateView, min_elev: Option<i64>) -> bool {
    match (min_elev, c.state) {
        (Some(mask), Some(state)) => state.elevation >= mask,
        _ => true,
    }
}

/// The test that the elevation filter applies to each candidate.
pub open spec fn elevation_test(min_elev: Option<i64>) -> spec_fn(CandidateView) -> bool {
    |c: CandidateView| above_mask(c, min_elev)
}

/// Applies the elevation mask: the outcome is the pool without the
/// candidates whose elevation is below the mask, and nothing else is changed.
pub fn filter_elevation(pool: Vec<Candidate>, min_elev: Option<i64>) -> (kept: Vec<Candidate>)
    ensures
        views(kept@) == views(pool@).filter(elevation_test(min_elev)),
{
    let mut kept: Vec<Candidate> = Vec::new();
    let ghost all = pool@;
    proof {
        reveal(Seq::filter);
        assert(views(all.take(0)) =~= Seq::<CandidateView>::empty());
    }
    for c in it: pool
        invariant
            it.seq() == all,
            views(kept@) == views(all.take(it.index() as int)).filter(elevation_test(min_elev)),
    {
        let ghost seen = views(all.take(it.index() as int));
        proof {
            assert(views(all.take(it.index() + 1)) =~= seen.push(c@));
            seen.lemma_filter_push(c@, elevation_test(min_elev));
        }
        let passes = match (min_elev, c.state()) {
            (Some(mask), Some(state)) => state.elevation >= mask,
            _ => true,
        };
        if passes {
            let ghost before = kept@;
            kept.push(c);
            assert(views(kept@) =~= views(before).push(c@));
        }
    }
    assert(all.take(all.len() as int) =~= all);
    kept
}

/// The elevation filter is exhaustive. Whatever the pool and the mask, a
/// candidate is in the outcome if and only if it is in the pool and passes
/// the mask; the outcome is never longer than the pool; and without a mask
/// the outcome is the pool.
pub proof fn lemma_elevation_filter_exhaustive(pool: Seq<CandidateView>, min_elev: Option<i64>)
    ensures
        forall|c: CandidateView|
            pool.filter(elevation_test(min_elev)).contains(c) <==> pool.contains(c) && above_mask(
                c,
                min_elev,
            ),
        pool.filter(elevation_test(min_elev)).len() <= pool.len(),
        min_elev is None ==> pool.filter(elevation_test(min_elev)) == pool,
{
    let test = elevation_test(min_elev);
    let kept = pool.filter(test);
    pool.lemma_filter_len(test);
    assert forall|c: CandidateView| kept.contains(c) <==> pool.contains(c) && above_mask(
        c,
        min_elev,
    ) by {
        if kept.contains(c) {
            pool.lemma_filter_contains_rev(test, c);
            let i = choose|i: int| 0 <= i < kept.len() && kept[i] == c;
            pool.lemma_filter_pred(test, i);
        }
        if pool.contains(c) && above_mask(c, min_elev) {
            let i = choose|i: int| 0 <= i < pool.len() && pool[i] == c;
            pool.lemma_filter_contains(test, i);
        }
    }
    if min_elev is None {
        lemma_no_mask_keeps_all(pool);
    }
}

/// Without a mask the elevation filter changes nothing.
proof fn lemma_no_mask_keeps_all(pool: Seq<CandidateView>)
    ensures
        pool.filter(elevation_test(None)) == pool,
    decreases pool.len(),
{
    reveal(Seq::filter);
    if pool.len() > 0 {
        lemma_no_mask_keeps_all(pool.drop_last());
        assert(above_mask(pool.last(), None));
        assert(pool.drop_last().push(pool.last()) =~= pool);
    }
}

/// A satellite counts as eclipsed in the Earth's full shadow, and in its
/// partial shadow where it sees less than `min_rate` of the Sun.
pub open spec fn eclipsed(state: EclipseState, min_rate: i64) -> bool {
    match state {
        EclipseState::Umbra => true,
        EclipseState::Visibilis => false,
        EclipseState::Penumbra(rate) => rate < min_rate,
    }
}

/// Tells whether a satellite in the given state counts as eclipsed.
pub fn is_eclipsed(state: EclipseState, min_rate: i64) -> (dark: bool)
    ensures
        dark == eclipsed(state, min_rate),
{
    match state {
        EclipseState::Umbra => true,
        EclipseState::Visibilis => false,
        EclipseState::Penumbra(rate) => rate < min_rate,
    }
}

/// The candidates of `pool` that are not eclipsed, in the pool's order;
/// `states[i]` is the eclipse state of the satellite of `pool[i]`.
pub open spec fn sunlit(pool: Seq<CandidateView>, states: Seq<EclipseState>, min_rate: i64) -> Seq<
    CandidateView,
>
    recommends
        pool.len() == states.len(),
    decreases pool.len(),
{
    if pool.len() == 0 {
        Seq::empty()
    } else {
        let before = sunlit(pool.drop_last(), states.drop_last(), min_rate);
        if eclipsed(states.last(), min_rate) {
            before
        } else {
            before.push(pool.last())
        }
    }
}

/// Applies the eclipse mask: the outcome is the pool without the candidates
/// whose satellite is eclipsed, and nothing else is changed. `states[i]` is
/// the eclipse state of the satellite of `pool[i]`.
pub fn filter_eclipsed(pool: Vec<Candidate>, states: &Vec<EclipseState>, min_rate: i64) -> (kept:
    Vec<Candidate>)
    requires
        states@.len() == pool@.len(),
    ensures
        views(kept@) == sunlit(views(pool@), states@, min_rate),
{
    let mut kept: Vec<Candidate> = Vec::new();
    let ghost all = pool@;
    let total = states.len();
    let mut i: usize = 0;
    proof {
        assert(views(all.take(0)) =~= Seq::<CandidateView>::empty());
    }
    for c in it: pool
        invariant
            it.seq() == all,
            all.len() == total,
            states@.len() == all.len(),
            i == it.index(),
            views(kept@) == sunlit(views(all.take(i as int)), states@.take(i as int), min_rate),
    {
        proof {
            let seen = views(all.take(i as int));
            let next = views(all.take(i + 1));
            assert(next =~= seen.push(c@));
            assert(next.drop_last() =~= seen);
            assert(states@.take(i + 1).drop_last() =~= states@.take(i as int));
            assert(states@.take(i + 1).last() == states@[i as int]);
            assert(next.last() == c@);
        }
        if !is_eclipsed(states[i], min_rate) {
            let ghost before = kept@;
            kept.push(c);
            assert(views(kept@) =~= views(before).push(c@));
        }
        i += 1;
    }
    assert(all.take(all.len() as int) =~= all);
    assert(states@.take(states@.len() as int) =~= states@);
    kept
}

} // verus!
