//! Engine scenarios: component calculators, alignment, integration
//! attempts, measurement history and marker validation.

use hugure::components::{
    analyze_information_deficit, attempt_integration, calculate_emotional_time_distortion,
    calculate_entropy_navigation_distance, calculate_frame_selection_coordinates,
    calculate_oscillation_accessibility, calculate_separation_distance,
    calculate_temporal_coordination_distance,
};
use hugure::engine::SEntropyEngine;
use hugure::traits::MemorialSignificant;
use hugure::types::{ObserverSophistication, SEntropyPrecision};
use hugure::NANO;

#[test]
fn test_s_knowledge_calculation() {
    let engine = SEntropyEngine::new(SEntropyPrecision::High);
    let s_knowledge = engine
        .calculate_s_knowledge("test_context", ObserverSophistication::Expert)
        .unwrap();
    assert!(s_knowledge >= 0);
    // Expert deficit is 10; "test_context" has 12 characters, one decimal
    // order of magnitude.
    assert_eq!(s_knowledge, 11 * NANO);
}

#[test]
fn test_s_knowledge_exact_values() {
    let engine = SEntropyEngine::new(SEntropyPrecision::Ultra);
    // Ten characters: base deficit 1000 plus one order of magnitude.
    let naive = engine
        .calculate_s_knowledge("0123456789", ObserverSophistication::Naive)
        .unwrap();
    assert_eq!(naive, 1001 * NANO);
    // An empty context adds nothing.
    let empty = engine
        .calculate_s_knowledge("", ObserverSophistication::Universal)
        .unwrap();
    assert_eq!(empty, 0);
    let empty_naive = engine
        .calculate_s_knowledge("", ObserverSophistication::Naive)
        .unwrap();
    assert_eq!(empty_naive, 1000 * NANO);
}

#[test]
fn test_s_time_calculation() {
    let engine = SEntropyEngine::new(SEntropyPrecision::Ultra);
    // Target 1e-30 with emotional factor 0.5: 0.01 + 0.5 * 10 = 5.01.
    let s_time = engine.calculate_s_time(-30, 500_000_000).unwrap();
    assert_eq!(s_time, 5_010_000_000);
    assert!(s_time >= 0);
}

#[test]
fn test_s_time_at_ultra_target() {
    let engine = SEntropyEngine::new(SEntropyPrecision::Ultra);
    // Target 1e-30 at emotional factor zero sits at the 0.01 floor.
    assert_eq!(engine.calculate_s_time(-30, 0).unwrap(), 10_000_000);
    // Above the ultra target the distance is the decimal-order gap.
    assert_eq!(engine.calculate_s_time(-15, 0).unwrap(), 15 * NANO);
}

#[test]
fn test_s_time_out_of_range() {
    let engine = SEntropyEngine::new(SEntropyPrecision::High);
    let too_large = engine.calculate_s_time(i32::MAX, 0);
    assert!(too_large.is_err());
    let too_emotional = engine.calculate_s_time(-30, 200_000_000_000_000_000);
    assert!(too_emotional.is_err());
}

#[test]
fn test_s_entropy_endpoint_high_accessibility() {
    let engine = SEntropyEngine::new(SEntropyPrecision::High);
    // Accessibility 0.95 takes the near-zero branch; the oscillation factor
    // vanishes below one whole order of magnitude.
    let s_entropy = engine
        .calculate_s_entropy_endpoint(5 * NANO, 950_000_000)
        .unwrap();
    assert_eq!(s_entropy, 10_000_000);
}

#[test]
fn test_s_entropy_endpoint_low_accessibility() {
    let engine = SEntropyEngine::new(SEntropyPrecision::High);
    // Accessibility 0.4: navigation (1 - 0.4) * 2 = 1.2, oscillation
    // (1 - 0.4) * 100 = 60; total 61.2.
    let s_entropy = engine
        .calculate_s_entropy_endpoint(2 * NANO, 400_000_000)
        .unwrap();
    assert_eq!(s_entropy, 61_200_000_000);
}

#[test]
fn test_s_entropy_endpoint_out_of_range() {
    let engine = SEntropyEngine::new(SEntropyPrecision::High);
    let r = engine.calculate_s_entropy_endpoint(0, -1_000_000_000_000_000_000);
    assert!(r.is_err());
}

#[test]
fn test_tri_dimensional_alignment() {
    let mut engine = SEntropyEngine::new(SEntropyPrecision::High);
    let aligned = engine
        .align_tri_dimensional(100_000_000, 200_000_000, 300_000_000)
        .unwrap();
    assert!(aligned.validates_memorial_significance());
}

#[test]
fn test_alignment_transform_exact() {
    let mut engine = SEntropyEngine::new(SEntropyPrecision::High);
    // 0.8 * own + 0.1 * each other, on (10, 20, 30) whole units.
    let aligned = engine
        .align_tri_dimensional(10 * NANO, 20 * NANO, 30 * NANO)
        .unwrap();
    assert_eq!(aligned.s_knowledge, 13 * NANO);
    assert_eq!(aligned.s_time, 20 * NANO);
    assert_eq!(aligned.s_entropy, 27 * NANO);
}

#[test]
fn test_alignment_idempotence() {
    let mut engine = SEntropyEngine::new(SEntropyPrecision::High);
    let c1 = engine.align_tri_dimensional(7 * NANO, 8 * NANO, 9 * NANO).unwrap();
    let c2 = engine.align_tri_dimensional(7 * NANO, 8 * NANO, 9 * NANO).unwrap();
    assert_eq!(c1.s_knowledge, c2.s_knowledge);
    assert_eq!(c1.s_time, c2.s_time);
    assert_eq!(c1.s_entropy, c2.s_entropy);
}

#[test]
fn test_observer_process_integration() {
    let mut engine = SEntropyEngine::new(SEntropyPrecision::Standard);
    let result = engine.attempt_integration(100_000_000).unwrap();
    assert!(result == true || result == false);
}

#[test]
fn test_integration_attempt_converges() {
    let mut engine = SEntropyEngine::new(SEntropyPrecision::Standard);
    // Target 0.01: start at 0.011, one decay step gives 0.0099 <= 0.01.
    let success = engine.attempt_integration(10_000_000).unwrap();
    assert!(success);
    let stats = engine.get_integration_stats().unwrap();
    assert_eq!(stats.total_attempts, 1);
    assert_eq!(stats.success_rate, NANO);
    assert_eq!(stats.current_separation, 9_900_000);
    assert!(stats.last_success.is_some());
}

#[test]
fn test_integration_attempt_fails_on_negative_target() {
    let mut engine = SEntropyEngine::new(SEntropyPrecision::Standard);
    assert!(engine.attempt_integration(10_000_000).unwrap());
    assert!(!engine.attempt_integration(-10_000_000).unwrap());
    let stats = engine.get_integration_stats().unwrap();
    assert_eq!(stats.total_attempts, 2);
    // One success out of two attempts.
    assert_eq!(stats.success_rate, 500_000_000);
}

#[test]
fn test_comprehensive_measurement() {
    let mut engine = SEntropyEngine::new(SEntropyPrecision::High);
    let measurement = engine
        .generate_measurement(
            "test_problem",
            ObserverSophistication::Expert,
            -15,
            300_000_000,
            NANO,
            800_000_000,
        )
        .unwrap();

    assert!(measurement.validates_memorial());
    assert!(measurement.total_magnitude >= 0);
    // Expert deficit 10 + one order for 12 characters.
    assert_eq!(measurement.s_knowledge, 11 * NANO);
    // (−15 + 30) + 0.3 * 10 = 18.
    assert_eq!(measurement.s_time, 18 * NANO);
    // Accessibility 0.8: navigation 0.2 * 1, oscillation 0.
    assert_eq!(measurement.s_entropy, 200_000_000);
    assert!(!measurement.optimal_integration);
}

#[test]
fn test_measurement_history_cap() {
    let mut engine = SEntropyEngine::new(SEntropyPrecision::Standard);
    for i in 0..1005i64 {
        let measurement = engine
            .generate_measurement(
                "history",
                ObserverSophistication::Expert,
                -30,
                i * 1_000_000,
                NANO,
                950_000_000,
            )
            .unwrap();
        assert!(measurement.validates_memorial());
    }
    // The validation scan sees the whole history (the cache is empty): the
    // bounded history holds exactly 1000 of the 1005 records.
    let report = engine.validate_all_memorial_significance().unwrap();
    assert_eq!(report.total_validations, 1000);
    assert_eq!(report.successful_validations, 1000);
    assert_eq!(report.success_rate, NANO);
}

#[test]
fn s_entropy_test_memorial_significance_validation() {
    let mut engine = SEntropyEngine::new(SEntropyPrecision::Ultra);

    let _ = engine
        .generate_measurement(
            "memorial_test",
            ObserverSophistication::Intermediate,
            -30,
            500_000_000,
            NANO,
            900_000_000,
        )
        .unwrap();

    let report = engine.validate_all_memorial_significance().unwrap();
    assert_eq!(report.success_rate, NANO);
}

#[test]
fn test_validation_report_empty_scan() {
    let engine = SEntropyEngine::new(SEntropyPrecision::High);
    let report = engine.validate_all_memorial_significance().unwrap();
    assert_eq!(report.total_validations, 0);
    assert_eq!(report.success_rate, NANO);
}

#[test]
fn test_validation_counts_cache_and_history() {
    let mut engine = SEntropyEngine::new(SEntropyPrecision::High);
    let _ = engine.align_tri_dimensional(NANO, NANO, NANO).unwrap();
    let _ = engine
        .generate_measurement(
            "counted",
            ObserverSophistication::Expert,
            -30,
            0,
            NANO,
            950_000_000,
        )
        .unwrap();
    let report = engine.validate_all_memorial_significance().unwrap();
    // One history record, and at least one cached coordinate.
    assert!(report.total_validations >= 2);
    assert_eq!(report.successful_validations, report.total_validations);
    assert_eq!(report.success_rate, NANO);
}

#[test]
fn test_information_deficit_helper() {
    // Naive deficit 1000 over a context factor of 3 (1000 characters).
    let context = "x".repeat(1000);
    let v = analyze_information_deficit(&context, ObserverSophistication::Naive).unwrap();
    assert_eq!(v, 333_333_333_333);
    // Short contexts keep the full deficit.
    let w = analyze_information_deficit("hi", ObserverSophistication::Naive).unwrap();
    assert_eq!(w, 1000 * NANO);
}

#[test]
fn test_temporal_coordination_helper() {
    assert_eq!(calculate_temporal_coordination_distance(-31).unwrap(), 10_000_000);
    assert_eq!(calculate_temporal_coordination_distance(-29).unwrap(), NANO);
}

#[test]
fn test_emotional_distortion_helper() {
    assert_eq!(calculate_emotional_time_distortion(-5).unwrap(), 0);
    assert_eq!(calculate_emotional_time_distortion(500_000_000).unwrap(), 5 * NANO);
}

#[test]
fn test_entropy_navigation_helper() {
    assert_eq!(
        calculate_entropy_navigation_distance(5 * NANO, 950_000_000).unwrap(),
        10_000_000
    );
    assert_eq!(
        calculate_entropy_navigation_distance(2 * NANO, 500_000_000).unwrap(),
        NANO
    );
}

#[test]
fn test_oscillation_accessibility_helper() {
    // (1 - 0.4) * 100 = 60.
    assert_eq!(calculate_oscillation_accessibility(400_000_000).unwrap(), 60 * NANO);
    // Accessibility within (0.5, 1] contributes nothing.
    assert_eq!(calculate_oscillation_accessibility(950_000_000).unwrap(), 0);
    // Ten whole units lie one order of magnitude above one.
    assert_eq!(calculate_oscillation_accessibility(10 * NANO).unwrap(), NANO);
}

#[test]
fn test_attempt_integration_helper() {
    assert!(attempt_integration(100, 80).unwrap());
    assert!(!attempt_integration(100, 79).unwrap());
}

#[test]
fn test_separation_distance_helper() {
    assert_eq!(
        calculate_separation_distance(3 * NANO, 4 * NANO, 0).unwrap(),
        5 * NANO
    );
}

#[test]
fn test_frame_selection_helper() {
    // sqrt(11) / 10 with a two-word context of 11 characters.
    assert_eq!(calculate_frame_selection_coordinates("hello world").unwrap(), 331_662_479);
    // No words: the 0.01 floor.
    assert_eq!(calculate_frame_selection_coordinates("").unwrap(), 10_000_000);
    assert_eq!(calculate_frame_selection_coordinates("   ").unwrap(), 10_000_000);
}
