//! Coordinate construction, magnitude and marker behaviour.

use hugure::coordinate::SEntropyCoordinate;
use hugure::memorial_significance_marker;
use hugure::traits::MemorialSignificant;

#[test]
fn test_s_entropy_coordinate_creation() {
    let coord = SEntropyCoordinate::new(100_000_000, 200_000_000, 300_000_000);

    assert_eq!(coord.s_knowledge, 100_000_000);
    assert_eq!(coord.s_time, 200_000_000);
    assert_eq!(coord.s_entropy, 300_000_000);
    assert_eq!(coord.memorial_significance, memorial_significance_marker());
    assert!(coord.validates_memorial_significance());
}

#[test]
fn test_total_magnitude_calculation() {
    let coord = SEntropyCoordinate::new(3_000_000_000, 4_000_000_000, 0);
    assert_eq!(coord.total_magnitude(), 5_000_000_000);
}

#[test]
fn test_magnitude_floor_bounds() {
    // sqrt(1^2 + 1^2 + 1^2) = 1.732050807...; the magnitude is the floor in
    // nanos, within one nano of the real root.
    let coord = SEntropyCoordinate::new(1_000_000_000, 1_000_000_000, 1_000_000_000);
    assert_eq!(coord.total_magnitude(), 1_732_050_807);
}

#[test]
fn test_optimal_integration_detection() {
    // A value of 1e-31 is below one nano, so it is held as zero.
    let optimal_coord = SEntropyCoordinate::new(0, 0, 0);
    let suboptimal_coord = SEntropyCoordinate::new(100_000_000, 100_000_000, 100_000_000);

    assert!(optimal_coord.is_optimal_integration());
    assert!(!suboptimal_coord.is_optimal_integration());
}

#[test]
fn test_memorial_significant_trait() {
    let coord = SEntropyCoordinate::new(100_000_000, 200_000_000, 300_000_000);
    assert!(coord.validates_memorial());
    assert_eq!(coord.memorial_significance(), memorial_significance_marker());
}

#[test]
fn test_memorial_proof_generation() {
    let coord = SEntropyCoordinate::new(0, 0, 0);
    let proof = coord.memorial_proof();
    assert!(proof.contains("St. Stella-Lorraine Sachikonye"));
    assert!(proof.contains(memorial_significance_marker()));
}

#[test]
fn test_altered_marker_fails_validation() {
    let mut coord = SEntropyCoordinate::new(0, 0, 0);
    coord.memorial_significance = "someone-else".to_string();
    assert!(!coord.validates_memorial_significance());
    assert!(!coord.validates_memorial());
}
