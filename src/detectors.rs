//! The checks that apply to detectors, and the pass that runs all of them
//! over every detector of the cache.
use crate::graph::Graph;
use crate::infra_cache::{InfraCache, InfraCacheView};
use crate::schema::{
    errors_view, DetectorCache, DetectorView, InfraError, InfraErrorTypeView, InfraErrorView,
    ObjectRef, ObjectRefView, ObjectType,
};
use vstd::prelude::*;

verus! {

/// The errors that the invalid-reference check finds on `d`: one when its
/// track is not loaded, none otherwise.
pub open spec fn invalid_ref_errors(d: DetectorView, cache: InfraCacheView) -> Seq<InfraErrorView> {
    if cache.has_track(d.track) {
        Seq::empty()
    } else {
        seq![
            InfraErrorView {
                obj_id: d.obj_id,
                obj_type: ObjectType::Detector,
                field: "track"@,
                sub_type: InfraErrorTypeView::InvalidReference {
                    reference: ObjectRefView { obj_type: ObjectType::TrackSection, obj_id: d.track },
                },
            },
        ]
    }
}

/// The errors that the out-of-range check finds on `d`: one when its track is
/// loaded and its position lies outside `[0, length]` of that track, none
/// otherwise. A missing track is the invalid-reference check's finding.
pub open spec fn out_of_range_errors(d: DetectorView, cache: InfraCacheView) -> Seq<InfraErrorView> {
    if cache.has_track(d.track) && !(0 <= d.position <= cache.track(d.track).length) {
        seq![
            InfraErrorView {
                obj_id: d.obj_id,
                obj_type: ObjectType::Detector,
                field: "position"@,
                sub_type: InfraErrorTypeView::OutOfRange {
                    position: d.position,
                    low: 0,
                    high: cache.track(d.track).length,
                },
            },
        ]
    } else {
        Seq::empty()
    }
}

/// Reports a detector whose track is not loaded.
pub fn check_invalid_ref(detector: &DetectorCache, infra_cache: &InfraCache, _graph: &Graph) -> (r:
    Vec<InfraError>)
    ensures
        errors_view(r@) == invalid_ref_errors(detector@, infra_cache@),
{
    if !infra_cache.contains_track_section(&detector.track) {
        let obj_ref = ObjectRef::new(ObjectType::TrackSection, detector.track.as_str());
        let r = vec![InfraError::new_invalid_reference(detector, "track", obj_ref)];
        assert(errors_view(r@) =~= invalid_ref_errors(detector@, infra_cache@));
        r
    } else {
        let r: Vec<InfraError> = Vec::new();
        assert(errors_view(r@) =~= invalid_ref_errors(detector@, infra_cache@));
        r
    }
}

/// Reports a detector whose position lies outside its track.
pub fn check_out_of_range(detector: &DetectorCache, infra_cache: &InfraCache, _graph: &Graph) -> (r:
    Vec<InfraError>)
    ensures
        errors_view(r@) == out_of_range_errors(detector@, infra_cache@),
{
    let r: Vec<InfraError> = match infra_cache.track_section(&detector.track) {
        Some(track) => {
            if !(0 <= detector.position && detector.position <= track.length) {
                vec![
                    InfraError::new_out_of_range(
                        detector,
                        "position",
                        detector.position,
                        [0, track.length],
                    ),
                ]
            } else {
                Vec::new()
            }
        },
        None => Vec::new(),
    };
    assert(errors_view(r@) =~= out_of_range_errors(detector@, infra_cache@));
    r
}

/// A check that applies to every detector.
///
/// Each variant names one checker function; `run_check` dispatches to it.
/// Adding a rule means adding a variant, its arm in `run_check`, and its
/// entry in `detector_checks`: the pass itself does not change.
#[derive(Clone, Copy, Debug, PartialEq, Eq, Structural)]
pub enum DetectorCheck {
    InvalidRef,
    OutOfRange,
}

/// The registered checks, in the order in which they run on each detector.
pub open spec fn spec_detector_checks() -> Seq<DetectorCheck> {
    seq![DetectorCheck::InvalidRef, DetectorCheck::OutOfRange]
}

/// The errors that `check` finds on `d`.
pub open spec fn check_errors(check: DetectorCheck, d: DetectorView, cache: InfraCacheView) -> Seq<
    InfraErrorView,
> {
    match check {
        DetectorCheck::InvalidRef => invalid_ref_errors(d, cache),
        DetectorCheck::OutOfRange => out_of_range_errors(d, cache),
    }
}

/// The errors that `checks` find on `d`, check after check.
pub open spec fn checks_errors(
    checks: Seq<DetectorCheck>,
    d: DetectorView,
    cache: InfraCacheView,
) -> Seq<InfraErrorView>
    decreases checks.len(),
{
    if checks.len() == 0 {
        Seq::empty()
    } else {
        checks_errors(checks.drop_last(), d, cache) + check_errors(checks.last(), d, cache)
    }
}

/// The errors that `checks` find on `dets`, detector after detector, and on
/// each detector check after check.
pub open spec fn detectors_errors(
    dets: Seq<DetectorView>,
    checks: Seq<DetectorCheck>,
    cache: InfraCacheView,
) -> Seq<InfraErrorView>
    decreases dets.len(),
{
    if dets.len() == 0 {
        Seq::empty()
    } else {
        detectors_errors(dets.drop_last(), checks, cache) + checks_errors(checks, dets.last(), cache)
    }
}

/// The registered checks.
pub fn detector_checks() -> (r: Vec<DetectorCheck>)
    ensures
        r@ == spec_detector_checks(),
{
    let r = vec![DetectorCheck::InvalidRef, DetectorCheck::OutOfRange];
    assert(r@ =~= spec_detector_checks());
    r
}

/// Runs one check on one detector.
pub fn run_check(
    check: DetectorCheck,
    detector: &DetectorCache,
    infra_cache: &InfraCache,
    graph: &Graph,
) -> (r: Vec<InfraError>)
    ensures
        errors_view(r@) == check_errors(check, detector@, infra_cache@),
{
    match check {
        DetectorCheck::InvalidRef => check_invalid_ref(detector, infra_cache, graph),
        DetectorCheck::OutOfRange => check_out_of_range(detector, infra_cache, graph),
    }
}

/// All errors on the detectors of `infra_cache`: every registered check runs
/// on every detector, detectors in cache order and, for each, checks in
/// registry order. The graph is built once for the whole pass.
pub fn generate_errors(infra_cache: &InfraCache) -> (r: Vec<InfraError>)
    ensures
        errors_view(r@) == detectors_errors(infra_cache@.detectors, spec_detector_checks(), infra_cache@),
{
    let graph = Graph::load(infra_cache);
    let checks = detector_checks();
    let detectors = infra_cache.detectors();
    let ghost dets = infra_cache@.detectors;
    let mut errors: Vec<InfraError> = Vec::new();
    let mut i: usize = 0;
    assert(errors_view(errors@) =~= detectors_errors(dets.take(0), checks@, infra_cache@));
    while i < detectors.len()
        invariant
            i <= detectors@.len(),
            detectors@.map_values(|d: DetectorCache| d@) == dets,
            checks@ == spec_detector_checks(),
            errors_view(errors@) == detectors_errors(dets.take(i as int), checks@, infra_cache@),
        decreases detectors@.len() - i,
    {
        let detector = &detectors[i];
        let ghost before = errors_view(errors@);
        let mut k: usize = 0;
        assert(checks_errors(checks@.take(0), detector@, infra_cache@) =~= Seq::empty());
        assert(errors_view(errors@) =~= before + checks_errors(checks@.take(0), detector@, infra_cache@));
        while k < checks.len()
            invariant
                k <= checks@.len(),
                errors_view(errors@) == before + checks_errors(
                    checks@.take(k as int),
                    detector@,
                    infra_cache@,
                ),
            decreases checks@.len() - k,
        {
            let mut found = run_check(checks[k], detector, infra_cache, &graph);
            let ghost prev = errors@;
            let ghost added = found@;
            errors.append(&mut found);
            proof {
                assert(checks@.take(k + 1).drop_last() =~= checks@.take(k as int));
                assert(checks@.take(k + 1).last() == checks@[k as int]);
                assert(errors_view(errors@) =~= errors_view(prev) + errors_view(added));
            }
            k = k + 1;
        }
        proof {
            assert(checks@.take(checks@.len() as int) =~= checks@);
            assert(dets.take(i + 1).drop_last() =~= dets.take(i as int));
            assert(dets[i as int] == detector@);
        }
        i = i + 1;
    }
    assert(dets.take(dets.len() as int) =~= dets);
    errors
}

/// A check fired on `d` when it found an error there.
pub open spec fn fired(check: DetectorCheck, d: DetectorView, cache: InfraCacheView) -> bool {
    check_errors(check, d, cache).len() > 0
}

/// How many of `checks` fired on `d`.
pub open spec fn fired_count(checks: Seq<DetectorCheck>, d: DetectorView, cache: InfraCacheView) -> nat
    decreases checks.len(),
{
    if checks.len() == 0 {
        0
    } else {
        fired_count(checks.drop_last(), d, cache) + if fired(checks.last(), d, cache) {
            1nat
        } else {
            0nat
        }
    }
}

/// The sum over `dets` of how many of `checks` fired on each.
pub open spec fn fired_total(
    dets: Seq<DetectorView>,
    checks: Seq<DetectorCheck>,
    cache: InfraCacheView,
) -> nat
    decreases dets.len(),
{
    if dets.len() == 0 {
        0
    } else {
        fired_total(dets.drop_last(), checks, cache) + fired_count(checks, dets.last(), cache)
    }
}

/// A check finds at most one error on a detector.
pub proof fn lemma_check_at_most_one(check: DetectorCheck, d: DetectorView, cache: InfraCacheView)
    ensures
        check_errors(check, d, cache).len() <= 1,
{
}

/// On one detector, the checks give one error for each check that fired.
pub proof fn lemma_checks_error_count(
    checks: Seq<DetectorCheck>,
    d: DetectorView,
    cache: InfraCacheView,
)
    ensures
        checks_errors(checks, d, cache).len() == fired_count(checks, d, cache),
        fired_count(checks, d, cache) <= checks.len(),
    decreases checks.len(),
{
    if checks.len() > 0 {
        lemma_checks_error_count(checks.drop_last(), d, cache);
        lemma_check_at_most_one(checks.last(), d, cache);
    }
}

/// Running `checks` over `dets` gives exactly one error for each pair of a
/// detector and a check that fired on it, so at most `dets.len() * checks.len()`
/// errors.
pub proof fn lemma_error_count(
    dets: Seq<DetectorView>,
    checks: Seq<DetectorCheck>,
    cache: InfraCacheView,
)
    ensures
        detectors_errors(dets, checks, cache).len() == fired_total(dets, checks, cache),
        fired_total(dets, checks, cache) <= dets.len() * checks.len(),
    decreases dets.len(),
{
    if dets.len() > 0 {
        let n = dets.len() as int;
        let k = checks.len() as int;
        lemma_error_count(dets.drop_last(), checks, cache);
        lemma_checks_error_count(checks, dets.last(), cache);
        assert((n - 1) * k + k == n * k) by (nonlinear_arith);
    }
}

/// A detector whose track is loaded and whose position lies within
/// `[0, length]` of that track gets no error from either check.
pub proof fn lemma_valid_detector_has_no_errors(d: DetectorView, cache: InfraCacheView)
    requires
        cache.has_track(d.track),
        0 <= d.position <= cache.track(d.track).length,
    ensures
        invalid_ref_errors(d, cache) == Seq::<InfraErrorView>::empty(),
        out_of_range_errors(d, cache) == Seq::<InfraErrorView>::empty(),
        checks_errors(spec_detector_checks(), d, cache) == Seq::<InfraErrorView>::empty(),
{
    let checks = spec_detector_checks();
    assert(checks.drop_last().drop_last() =~= Seq::<DetectorCheck>::empty());
    assert(checks.drop_last().last() == DetectorCheck::InvalidRef);
    assert(checks.last() == DetectorCheck::OutOfRange);
    assert(checks_errors(checks.drop_last().drop_last(), d, cache) =~= Seq::<InfraErrorView>::empty());
    assert(checks_errors(checks.drop_last(), d, cache) =~= Seq::<InfraErrorView>::empty());
    assert(checks_errors(checks, d, cache) =~= Seq::<InfraErrorView>::empty());
}

/// The range of a position is inclusive: a detector at either end of its
/// track is not out of range, and one just beyond either end is.
pub proof fn lemma_range_bounds_inclusive(d: DetectorView, cache: InfraCacheView)
    requires
        cache.has_track(d.track),
        cache.track(d.track).length >= 0,
    ensures
        d.position == 0 ==> out_of_range_errors(d, cache).len() == 0,
        d.position == cache.track(d.track).length ==> out_of_range_errors(d, cache).len() == 0,
        d.position == -1 ==> out_of_range_errors(d, cache).len() == 1,
        d.position == cache.track(d.track).length + 1 ==> out_of_range_errors(d, cache).len() == 1,
{
}

} // verus!
