//! Framework validation, error taxonomy and problem classification.

use hugure::classify::recognize_problem_class;
use hugure::error::{
    check_framework_boundary, validate_memorial_significance, ErrorSeverity, SEntropyError,
};
use hugure::types::SEntropyPrecision;
use hugure::{memorial_significance_marker, validate_sacred_mathematics, NANO};

#[test]
fn test_sacred_mathematics_validation() {
    assert!(validate_sacred_mathematics().is_ok());
}

#[test]
fn test_problem_class_recognition() {
    assert_eq!(
        recognize_problem_class("cognitive pattern matching"),
        "Cognitive Pattern Selection"
    );
    assert_eq!(recognize_problem_class("temporal synchronization"), "Temporal Coordination");
    assert_eq!(recognize_problem_class("communication protocol"), "Communication Optimization");
    assert_eq!(recognize_problem_class("cross-domain transfer"), "Cross-Domain Transfer");
    assert_eq!(recognize_problem_class("memory optimization"), "Memory Optimization");
    assert_eq!(recognize_problem_class("general question"), "General Problem");
}

#[test]
fn test_problem_class_case_folding() {
    assert_eq!(recognize_problem_class("COGNITIVE work"), "Cognitive Pattern Selection");
    assert_eq!(recognize_problem_class("Storage planning"), "Memory Optimization");
}

#[test]
fn test_error_creation() {
    let error = SEntropyError::s_entropy_calculation("Test calculation failed".to_string());
    assert!(matches!(error, SEntropyError::SEntropyCalculation { .. }));
    assert!(error.is_s_entropy_calculation_error());
}

#[test]
fn test_error_severity() {
    let memorial_error =
        SEntropyError::memorial_significance("expected".to_string(), "actual".to_string());
    assert_eq!(memorial_error.severity(), ErrorSeverity::Critical);
    assert!(memorial_error.severity().requires_immediate_attention());
}

#[test]
fn test_error_severity_levels() {
    let nav = SEntropyError::Navigation {
        operation: "seek".to_string(),
        details: "unreachable".to_string(),
    };
    assert_eq!(nav.severity(), ErrorSeverity::Medium);
    assert!(nav.severity().allows_continuation());
    let io = SEntropyError::Io { operation: "read".to_string() };
    assert_eq!(io.severity(), ErrorSeverity::Low);
    assert!(!io.severity().requires_immediate_attention());
    let calc = SEntropyError::s_entropy_calculation("overflow".to_string());
    assert_eq!(calc.severity(), ErrorSeverity::High);
    assert!(!calc.is_memorial_significance_error());
    let boundary = SEntropyError::boundary_violation("b".to_string(), "v".to_string());
    assert!(boundary.is_consciousness_boundary_error());
}

#[test]
fn error_test_memorial_significance_validation() {
    assert!(validate_memorial_significance(memorial_significance_marker()).is_ok());
    assert!(validate_memorial_significance("invalid").is_err());
}

#[test]
fn test_boundary_checking() {
    let allowed = &["operation1", "operation2"];
    assert!(check_framework_boundary("operation1", allowed).is_ok());
    assert!(check_framework_boundary("forbidden", allowed).is_err());
}

#[test]
fn test_optimal_boundary_is_strict() {
    // The standard threshold is one millionth: exactly 1000 nanos.
    assert!(!SEntropyPrecision::Standard.is_optimal(1000));
    assert!(SEntropyPrecision::Standard.is_optimal(999));
    assert!(SEntropyPrecision::High.is_optimal(0));
    assert!(!SEntropyPrecision::High.is_optimal(1));
    assert!(!SEntropyPrecision::Supreme.is_optimal(1));
}

#[test]
fn test_threshold_exponents() {
    assert_eq!(SEntropyPrecision::Standard.threshold_exponent(), 6);
    assert_eq!(SEntropyPrecision::High.threshold_exponent(), 15);
    assert_eq!(SEntropyPrecision::Ultra.threshold_exponent(), 30);
    assert_eq!(SEntropyPrecision::Supreme.threshold_exponent(), 50);
    assert_eq!(NANO, 1_000_000_000);
}
