use editoast::detectors::{
    check_invalid_ref, check_out_of_range, detector_checks, generate_errors, run_check,
    DetectorCheck,
};
use editoast::graph::Graph;
use editoast::infra_cache::InfraCache;
use editoast::persist::{check_rows_written, RowCountMismatch};
use editoast::schema::{
    DetectorCache, InfraError, InfraErrorType, ObjectRef, ObjectType, TrackSectionCache,
};

fn create_detector_cache(obj_id: &str, track: &str, position: i64) -> DetectorCache {
    DetectorCache::new(obj_id, track, position)
}

/// Four track sections of length 500 and one detector in range.
fn create_small_infra_cache() -> InfraCache {
    let mut infra_cache = InfraCache::new();
    for id in ["A", "B", "C", "D"] {
        infra_cache.add_track_section(TrackSectionCache::new(id, 500));
    }
    infra_cache.add_detector(create_detector_cache("D1", "B", 250));
    infra_cache
}

#[test]
fn invalid_ref() {
    let mut infra_cache = create_small_infra_cache();
    let detector = create_detector_cache("D_error", "E", 250);
    infra_cache.add_detector(detector.clone());
    let errors = check_invalid_ref(&detector, &infra_cache, &Graph::load(&infra_cache));
    assert_eq!(1, errors.len());
    let obj_ref = ObjectRef::new(ObjectType::TrackSection, "E");
    let infra_error = InfraError::new_invalid_reference(&detector, "track", obj_ref);
    assert_eq!(infra_error, errors[0]);
}

#[test]
fn out_of_range() {
    let mut infra_cache = create_small_infra_cache();
    let detector = create_detector_cache("D_error", "A", 530);
    infra_cache.add_detector(detector.clone());
    let errors = check_out_of_range(&detector, &infra_cache, &Graph::load(&infra_cache));
    assert_eq!(1, errors.len());
    let infra_error = InfraError::new_out_of_range(&detector, "position", 530, [0, 500]);
    assert_eq!(infra_error, errors[0]);
}

#[test]
fn out_of_range_scenario_fields() {
    let mut infra_cache = create_small_infra_cache();
    let detector = create_detector_cache("D1", "A", 530);
    infra_cache.add_detector(detector.clone());
    let errors = check_out_of_range(&detector, &infra_cache, &Graph::load(&infra_cache));
    assert_eq!(1, errors.len());
    assert_eq!("D1", errors[0].obj_id);
    assert_eq!(ObjectType::Detector, errors[0].obj_type);
    assert_eq!("position", errors[0].field);
    assert_eq!(
        InfraErrorType::OutOfRange { position: 530, expected_range: [0, 500] },
        errors[0].sub_type
    );
    assert!(check_invalid_ref(&detector, &infra_cache, &Graph::load(&infra_cache)).is_empty());
}

#[test]
fn invalid_ref_scenario_fields() {
    let mut infra_cache = create_small_infra_cache();
    let detector = create_detector_cache("D2", "E", 100);
    infra_cache.add_detector(detector.clone());
    let errors = check_invalid_ref(&detector, &infra_cache, &Graph::load(&infra_cache));
    assert_eq!(1, errors.len());
    assert_eq!("D2", errors[0].obj_id);
    assert_eq!("track", errors[0].field);
    let expected = ObjectRef { obj_type: ObjectType::TrackSection, obj_id: "E".to_string() };
    assert_eq!(InfraErrorType::InvalidReference { reference: expected }, errors[0].sub_type);
}

#[test]
fn dangling_reference_is_not_range_checked() {
    let infra_cache = create_small_infra_cache();
    let detector = create_detector_cache("D3", "E", 9000);
    let errors = check_out_of_range(&detector, &infra_cache, &Graph::load(&infra_cache));
    assert!(errors.is_empty());
}

#[test]
fn range_bounds_are_inclusive() {
    let infra_cache = create_small_infra_cache();
    let graph = Graph::load(&infra_cache);
    for position in [0, 250, 500] {
        let detector = create_detector_cache("D", "C", position);
        assert!(check_out_of_range(&detector, &infra_cache, &graph).is_empty());
        assert!(check_invalid_ref(&detector, &infra_cache, &graph).is_empty());
    }
    for position in [-1, 501] {
        let detector = create_detector_cache("D", "C", position);
        let errors = check_out_of_range(&detector, &infra_cache, &graph);
        assert_eq!(1, errors.len());
        assert_eq!(
            InfraErrorType::OutOfRange { position, expected_range: [0, 500] },
            errors[0].sub_type
        );
    }
}

#[test]
fn generate_errors_on_valid_infra_is_empty() {
    let infra_cache = create_small_infra_cache();
    assert!(generate_errors(&infra_cache).is_empty());
    assert!(generate_errors(&InfraCache::new()).is_empty());
}

#[test]
fn generate_errors_order_and_count() {
    let mut infra_cache = create_small_infra_cache();
    infra_cache.add_detector(create_detector_cache("D_far", "A", 530));
    infra_cache.add_detector(create_detector_cache("D_ok", "D", 10));
    infra_cache.add_detector(create_detector_cache("D_lost", "E", 20));
    infra_cache.add_detector(create_detector_cache("D_neg", "C", -5));
    let errors = generate_errors(&infra_cache);
    // five detectors, two checks each, three of them fired
    assert_eq!(3, errors.len());
    assert!(errors.len() <= 5 * detector_checks().len());
    assert_eq!(
        InfraError::new_out_of_range(
            &create_detector_cache("D_far", "A", 530),
            "position",
            530,
            [0, 500]
        ),
        errors[0]
    );
    assert_eq!(
        InfraError::new_invalid_reference(
            &create_detector_cache("D_lost", "E", 20),
            "track",
            ObjectRef::new(ObjectType::TrackSection, "E")
        ),
        errors[1]
    );
    assert_eq!("D_neg", errors[2].obj_id);
    assert_eq!(
        InfraErrorType::OutOfRange { position: -5, expected_range: [0, 500] },
        errors[2].sub_type
    );
}

#[test]
fn registry_runs_each_check() {
    let infra_cache = create_small_infra_cache();
    let graph = Graph::load(&infra_cache);
    assert_eq!(vec![DetectorCheck::InvalidRef, DetectorCheck::OutOfRange], detector_checks());
    let lost = create_detector_cache("D_lost", "E", 20);
    assert_eq!(1, run_check(DetectorCheck::InvalidRef, &lost, &infra_cache, &graph).len());
    assert!(run_check(DetectorCheck::OutOfRange, &lost, &infra_cache, &graph).is_empty());
    let far = create_detector_cache("D_far", "B", 600);
    assert!(run_check(DetectorCheck::InvalidRef, &far, &infra_cache, &graph).is_empty());
    assert_eq!(1, run_check(DetectorCheck::OutOfRange, &far, &infra_cache, &graph).len());
}

#[test]
fn adding_same_id_replaces() {
    let mut infra_cache = InfraCache::new();
    infra_cache.add_track_section(TrackSectionCache::new("A", 100));
    infra_cache.add_detector(create_detector_cache("D", "A", 150));
    assert_eq!(1, generate_errors(&infra_cache).len());
    infra_cache.add_detector(create_detector_cache("D", "A", 50));
    assert_eq!(1, infra_cache.detectors().len());
    assert!(generate_errors(&infra_cache).is_empty());
    infra_cache.add_track_section(TrackSectionCache::new("A", 10));
    assert_eq!(10, infra_cache.track_section(&"A".to_string()).unwrap().length);
    assert_eq!(1, generate_errors(&infra_cache).len());
    assert!(infra_cache.contains_track_section(&"A".to_string()));
    assert!(!infra_cache.contains_track_section(&"B".to_string()));
}

#[test]
fn row_count_must_match() {
    let infra_cache = create_small_infra_cache();
    let mut with_errors = infra_cache;
    with_errors.add_detector(create_detector_cache("D_lost", "E", 20));
    with_errors.add_detector(create_detector_cache("D_far", "A", 501));
    let errors = generate_errors(&with_errors);
    assert_eq!(2, errors.len());
    assert_eq!(Ok(()), check_rows_written(&errors, 2));
    assert_eq!(
        Err(RowCountMismatch { expected: 2, written: 1 }),
        check_rows_written(&errors, 1)
    );
    assert_eq!(Ok(()), check_rows_written(&Vec::new(), 0));
    assert!(check_rows_written(&Vec::new(), 3).is_err());
}
